pub mod esc;
pub mod generator;
mod instr;
pub mod math;

pub use esc::ESC;
pub use math::map_range;
