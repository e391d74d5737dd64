use vstd::prelude::*;

verus! {

/// Machine word of `pull noblock`.
pub open spec fn pull_noblock_word() -> u16 {
    0x8080
}

/// Machine word of `out isr, 32`.
pub open spec fn out_isr_word() -> u16 {
    0x60c0
}

/// Machine word of `mov x, osr`.
pub open spec fn mov_x_osr_word() -> u16 {
    0xa027
}

/// Relies on pio::InstructionOperands::encode: PULL is opcode 0b100 with bit 7 set,
/// bits 6 and 5 holding `if_empty` and `block`.
#[verifier::external_body]
pub(crate) fn encode_pull_noblock() -> (r: u16)
    ensures
        r == pull_noblock_word(),
{
    pio::InstructionOperands::PULL { if_empty: false, block: false }.encode()
}

/// Relies on pio::InstructionOperands::encode: OUT is opcode 0b011, the destination
/// ISR is 0b110 in bits 7..5, and a bit count of 32 is written as 0.
#[verifier::external_body]
pub(crate) fn encode_out_isr() -> (r: u16)
    ensures
        r == out_isr_word(),
{
    pio::InstructionOperands::OUT { destination: pio::OutDestination::ISR, bit_count: 32 }.encode()
}

/// Relies on pio::InstructionOperands::encode: MOV is opcode 0b101, the destination X
/// is 0b001 in bits 7..5, the operation in bits 4..3 and the source OSR 0b111 below.
#[verifier::external_body]
pub(crate) fn encode_mov_x_osr() -> (r: u16)
    ensures
        r == mov_x_osr_word(),
{
    pio::InstructionOperands::MOV {
        destination: pio::MovDestination::X,
        op: pio::MovOperation::None,
        source: pio::MovSource::OSR,
    }.encode()
}

/// Relies on fixed::FixedU32::<U8>::from_num, which panics when the value needs more
/// than 24 integer bits, and on to_bits, which gives the value times 2^8.
#[verifier::external_body]
pub(crate) fn fixed_u8_bits(v: u32) -> (r: u32)
    requires
        v < 0x100_0000,
    ensures
        r == v * 256,
{
    fixed::FixedU32::<fixed::types::extra::U8>::from_num(v).to_bits()
}

} // verus!
