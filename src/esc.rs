use crate::instr::{
    encode_mov_x_osr, encode_out_isr, encode_pull_noblock, fixed_u8_bits, mov_x_osr_word,
    out_isr_word, pull_noblock_word,
};
use crate::math::map_range;
use vstd::prelude::*;

verus! {

pub const MIN_PULSE_WIDTH: u32 = 1000;

pub const MAX_PULSE_WIDTH: u32 = 2000;

/// Signal period in microseconds (50 Hz).
pub const REFRESH_INTERVAL: u32 = 20000;

/// Power is an integer percent in this range.
pub const MAX_PERCENT: u32 = 100;

/// Signal frequency in hertz.
pub const PWM_SIGNAL_FREQ: u32 = 50;

/// Coprocessor cycles that the loaded program spends on one output period.
pub const CYCLES_PER_PERIOD: u32 = 136;

/// The percent clamped to `[0, 100]`.
pub open spec fn clamp_percent(p: int) -> int {
    if p < 0 {
        0
    } else if p > 100 {
        100
    } else {
        p
    }
}

/// The pulse width clamped to `[MIN_PULSE_WIDTH, MAX_PULSE_WIDTH]`.
pub open spec fn clamp_pulse_width(w: int) -> int {
    if w < 1000 {
        1000
    } else if w > 2000 {
        2000
    } else {
        w
    }
}

/// Pulse width, in microseconds, that commands a power of `p` percent.
pub open spec fn pulse_width_of(p: int) -> int {
    1000 + clamp_percent(p) * 1000 / 100
}

/// Power, in percent, that a pulse width of `w` microseconds commands.
pub open spec fn percent_of(w: int) -> int {
    (clamp_pulse_width(w) - 1000) * 100 / 1000
}

/// Converts a power in percent to a pulse width, clamping the power first.
pub fn percent_to_pulse_width(percent: i64) -> (r: u32)
    ensures
        r == pulse_width_of(percent as int),
        MIN_PULSE_WIDTH <= r <= MAX_PULSE_WIDTH,
{
    let p: u32 = if percent < 0 {
        0
    } else if percent > 100 {
        100
    } else {
        percent as u32
    };
    assert(p * 1000 <= 100000) by (nonlinear_arith)
        requires p <= 100;
    map_range(p, (0, MAX_PERCENT), (MIN_PULSE_WIDTH, MAX_PULSE_WIDTH))
}

/// Converts a pulse width to a power in percent, clamping the pulse width first.
pub fn pulse_width_to_percent(pulse_width: u32) -> (r: u32)
    ensures
        r == percent_of(pulse_width as int),
        r <= MAX_PERCENT,
{
    let w: u32 = if pulse_width < MIN_PULSE_WIDTH {
        MIN_PULSE_WIDTH
    } else if pulse_width > MAX_PULSE_WIDTH {
        MAX_PULSE_WIDTH
    } else {
        pulse_width
    };
    assert((w - 1000) * 100 <= 100000) by (nonlinear_arith)
        requires w <= 2000, w >= 1000;
    map_range(w, (MIN_PULSE_WIDTH, MAX_PULSE_WIDTH), (0, MAX_PERCENT))
}

/// A power survives conversion to a pulse width and back: for every percent in
/// `[0, 100]` the result is the same percent.
pub proof fn lemma_round_trip(p: int)
    requires
        0 <= p <= 100,
    ensures
        percent_of(pulse_width_of(p)) == p,
{
    assert(p * 1000 / 100 == p * 10) by (nonlinear_arith);
    assert(p * 10 * 100 / 1000 == p) by (nonlinear_arith);
}

/// Conversion to pulse width never decreases as the power grows.
pub proof fn lemma_monotonic(p1: int, p2: int)
    requires
        p1 <= p2,
    ensures
        pulse_width_of(p1) <= pulse_width_of(p2),
{
    let c1 = clamp_percent(p1);
    let c2 = clamp_percent(p2);
    assert(c1 * 1000 / 100 <= c2 * 1000 / 100) by (nonlinear_arith)
        requires c1 <= c2, 0 <= c1;
}

/// Powers outside `[0, 100]` command the pulse width of the nearest end.
pub proof fn lemma_clamped(p: int)
    ensures
        p < 0 ==> pulse_width_of(p) == pulse_width_of(0),
        p > 100 ==> pulse_width_of(p) == pulse_width_of(100),
        pulse_width_of(0) == 1000,
        pulse_width_of(100) == 2000,
{
}

/// System clock cycles in `us` microseconds.
pub open spec fn cycles_of(clk_sys_hz: u32, us: int) -> int {
    us * (clk_sys_hz as int / 1_000_000)
}

/// The word pushed for a pulse of `us` microseconds: the program's counting loop
/// takes three cycles per iteration, at the system clock.
pub open spec fn word_of(clk_sys_hz: u32, us: int) -> int {
    cycles_of(clk_sys_hz, us) / 3
}

/// Whole clock divider that makes one output period of `CYCLES_PER_PERIOD` cycles
/// last `1 / freq` seconds.
pub open spec fn divider_of(clk_sys_hz: u32, freq: int) -> int {
    clk_sys_hz as int / (freq * 136)
}

/// Cycles of a clock of `clk_sys_hz` in `us` microseconds.
pub fn us_to_pio_cycles(us: u32, clk_sys_hz: u32) -> (r: u32)
    requires
        cycles_of(clk_sys_hz, us as int) <= u32::MAX,
    ensures
        r == cycles_of(clk_sys_hz, us as int),
{
    us * (clk_sys_hz / 1_000_000)
}

fn push_word(us: u32, clk_sys_hz: u32) -> (r: u32)
    requires
        us <= REFRESH_INTERVAL,
    ensures
        r == word_of(clk_sys_hz, us as int),
{
    let per_us: u32 = clk_sys_hz / 1_000_000;
    assert(us as int * per_us as int <= 20000 * 4295) by (nonlinear_arith)
        requires us <= 20000, per_us <= 4295;
    us_to_pio_cycles(us, clk_sys_hz) / 3
}

/// A step for the hardware to perform on the coprocessor channel.
#[derive(Clone, Copy, Debug, PartialEq, Eq, Structural)]
pub enum Action {
    /// Stop the state machine.
    Disable,
    /// Load the pin and program configuration.
    ApplyConfig,
    /// Start the state machine.
    Enable,
    /// Push a word into the command queue, waiting while it is full.
    Push(u32),
    /// Execute one raw instruction word.
    Exec(u16),
    /// Write the clock divider register.
    SetClockDivider(u32),
    /// Restart the clock divider.
    RestartClockDivider,
    /// Wait for the completion interrupt.
    WaitAck,
}

/// What the controller knows of itself.
pub struct EscView {
    pub pulse_width: u32,
    pub enabled: bool,
    pub clk_sys_hz: u32,
    /// Whole part of the clock divider for the signal frequency.
    pub clock_divider: u32,
    /// An update was handed out and not yet reported finished.
    pub pending: bool,
}

/// Controller of one electronic speed controller on one coprocessor channel.
pub struct ESC {
    pulse_width: u32,
    enabled: bool,
    clk_sys_hz: u32,
    clock_divider: u32,
    pending: bool,
}

impl View for ESC {
    type V = EscView;

    closed spec fn view(&self) -> EscView {
        EscView {
            pulse_width: self.pulse_width,
            enabled: self.enabled,
            clk_sys_hz: self.clk_sys_hz,
            clock_divider: self.clock_divider,
            pending: self.pending,
        }
    }
}

/// Drains the queue into the output shift register and seeds `reg_word`'s register from it.
pub open spec fn drain_actions(reg_word: u16) -> Seq<Action> {
    seq![Action::Exec(pull_noblock_word()), Action::Exec(reg_word)]
}

/// The actions of `attach` for a system clock of `clk_sys_hz`.
pub open spec fn attach_actions(clk_sys_hz: u32) -> Seq<Action> {
    let min = Action::Push(word_of(clk_sys_hz, 1000) as u32);
    seq![
        Action::Disable,
        Action::ApplyConfig,
        Action::Push(word_of(clk_sys_hz, 20000) as u32),
    ] + drain_actions(out_isr_word()) + seq![min] + drain_actions(mov_x_osr_word()) + seq![
        Action::Enable,
        min,
    ]
}

/// The actions that command `percent` on a controller with the given clock.
pub open spec fn set_power_actions(clk_sys_hz: u32, percent: int) -> Seq<Action> {
    seq![Action::Push(word_of(clk_sys_hz, pulse_width_of(percent)) as u32)]
}

/// The actions of `detach`: minimum power, confirmed, then stop.
pub open spec fn detach_actions(clk_sys_hz: u32) -> Seq<Action> {
    seq![Action::Push(word_of(clk_sys_hz, 1000) as u32), Action::WaitAck, Action::Disable]
}

impl ESC {
    /// A detached controller for a system clock of `clk_sys_hz`, with the clock
    /// divider for a 50 Hz signal.
    pub fn new(clk_sys_hz: u32) -> (r: ESC)
        ensures
            r@ == (EscView {
                pulse_width: 0,
                enabled: false,
                clk_sys_hz,
                clock_divider: divider_of(clk_sys_hz, 50) as u32,
                pending: false,
            }),
    {
        ESC {
            pulse_width: 0,
            enabled: false,
            clk_sys_hz,
            clock_divider: clk_sys_hz / (PWM_SIGNAL_FREQ * CYCLES_PER_PERIOD),
            pending: false,
        }
    }

    fn push_pulse_width(&mut self, pulse_width: u32, actions: &mut Vec<Action>)
        requires
            pulse_width <= MAX_PULSE_WIDTH,
        ensures
            final(self)@ == (EscView { pulse_width, ..old(self)@ }),
            final(actions)@ == old(actions)@.push(
                Action::Push(word_of(old(self)@.clk_sys_hz, pulse_width as int) as u32),
            ),
    {
        self.pulse_width = pulse_width;
        actions.push(Action::Push(push_word(pulse_width, self.clk_sys_hz)));
    }

    /// Brings a detached channel online at minimum power; returns the steps to perform.
    pub fn attach(&mut self) -> (r: Vec<Action>)
        requires
            !old(self)@.enabled,
        ensures
            final(self)@ == (EscView {
                pulse_width: MIN_PULSE_WIDTH,
                enabled: true,
                pending: false,
                ..old(self)@
            }),
            r@ == attach_actions(old(self)@.clk_sys_hz),
    {
        let mut actions: Vec<Action> = Vec::new();
        actions.push(Action::Disable);
        actions.push(Action::ApplyConfig);
        actions.push(Action::Push(push_word(REFRESH_INTERVAL, self.clk_sys_hz)));
        actions.push(Action::Exec(encode_pull_noblock()));
        actions.push(Action::Exec(encode_out_isr()));
        self.push_pulse_width(MIN_PULSE_WIDTH, &mut actions);
        actions.push(Action::Exec(encode_pull_noblock()));
        actions.push(Action::Exec(encode_mov_x_osr()));
        actions.push(Action::Enable);
        self.enabled = true;
        self.push_pulse_width(MIN_PULSE_WIDTH, &mut actions);
        self.pending = false;
        proof {
            assert(actions@ =~= attach_actions(old(self)@.clk_sys_hz));
        }
        actions
    }

    /// Brings an attached channel offline after commanding minimum power.
    pub fn detach(&mut self) -> (r: Vec<Action>)
        requires
            old(self)@.enabled,
        ensures
            final(self)@ == (EscView {
                pulse_width: MIN_PULSE_WIDTH,
                enabled: false,
                pending: false,
                ..old(self)@
            }),
            r@ == detach_actions(old(self)@.clk_sys_hz),
    {
        let mut actions: Vec<Action> = Vec::new();
        self.push_pulse_width(MIN_PULSE_WIDTH, &mut actions);
        actions.push(Action::WaitAck);
        actions.push(Action::Disable);
        self.enabled = false;
        self.pending = false;
        proof {
            assert(actions@ =~= detach_actions(old(self)@.clk_sys_hz));
        }
        actions
    }

    /// Recomputes the clock divider for a signal of `freq` hertz, and returns the
    /// steps that write it (as 16.8 fixed point in bits 31..8) and restart the divider.
    pub fn set_frequency(&mut self, freq: u32) -> (r: Vec<Action>)
        requires
            freq > 0,
            divider_of(old(self)@.clk_sys_hz, freq as int) <= 0xffff,
        ensures
            final(self)@ == (EscView {
                clock_divider: divider_of(old(self)@.clk_sys_hz, freq as int) as u32,
                ..old(self)@
            }),
            r@ == seq![
                Action::SetClockDivider(
                    (divider_of(old(self)@.clk_sys_hz, freq as int) * 65536) as u32,
                ),
                Action::RestartClockDivider,
            ],
    {
        let denom: u64 = freq as u64 * 136;
        let divider: u32 = (self.clk_sys_hz as u64 / denom) as u32;
        let bits = fixed_u8_bits(divider);
        self.clock_divider = divider;
        let mut actions: Vec<Action> = Vec::new();
        actions.push(Action::SetClockDivider(bits << 8));
        actions.push(Action::RestartClockDivider);
        proof {
            assert((bits << 8) == bits * 256) by (bit_vector)
                requires bits <= 0xffffff;
            assert(actions@ =~= seq![
                Action::SetClockDivider((divider as int * 65536) as u32),
                Action::RestartClockDivider,
            ]);
        }
        actions
    }

    /// Commands a power of `percent`, clamped to `[0, 100]`. The update stays pending
    /// until `finish_update` reports that its steps completed.
    pub fn set_power(&mut self, percent: i64) -> (r: Vec<Action>)
        requires
            old(self)@.enabled,
        ensures
            final(self)@ == (EscView {
                pulse_width: pulse_width_of(percent as int) as u32,
                pending: true,
                ..old(self)@
            }),
            r@ == set_power_actions(old(self)@.clk_sys_hz, percent as int),
    {
        let mut actions: Vec<Action> = Vec::new();
        let pulse_width = percent_to_pulse_width(percent);
        self.push_pulse_width(pulse_width, &mut actions);
        self.pending = true;
        proof {
            assert(actions@ =~= set_power_actions(old(self)@.clk_sys_hz, percent as int));
        }
        actions
    }

    /// Records that the steps of the last update completed.
    pub fn finish_update(&mut self)
        ensures
            final(self)@ == (EscView { pending: false, ..old(self)@ }),
    {
        self.pending = false;
    }

    /// Cleanup after an update that was abandoned before it completed: the steps that
    /// discard what it left in the queue and reset the output register, so nothing
    /// stale is driven on the next period. Once run, or when no update is pending,
    /// there is nothing to do.
    pub fn cancel(&mut self) -> (r: Vec<Action>)
        ensures
            final(self)@ == (EscView { pending: false, ..old(self)@ }),
            r@ == (if old(self)@.pending {
                drain_actions(mov_x_osr_word())
            } else {
                Seq::<Action>::empty()
            }),
    {
        let mut actions: Vec<Action> = Vec::new();
        if self.pending {
            actions.push(Action::Exec(encode_pull_noblock()));
            actions.push(Action::Exec(encode_mov_x_osr()));
            self.pending = false;
        }
        proof {
            if old(self)@.pending {
                assert(actions@ =~= drain_actions(mov_x_osr_word()));
            } else {
                assert(actions@ =~= Seq::<Action>::empty());
            }
        }
        actions
    }

    /// Whether the channel is attached and driving a signal.
    pub fn is_attached(&self) -> (r: bool)
        ensures
            r == self@.enabled,
    {
        self.enabled
    }

    /// Whole part of the current clock divider.
    pub fn clock_divider(&self) -> (r: u32)
        ensures
            r == self@.clock_divider,
    {
        self.clock_divider
    }

    /// Power in percent: 0 while the channel is disabled, else that of the last pulse width.
    pub fn get_power(&self) -> (r: u32)
        ensures
            r == (if self@.enabled { percent_of(self@.pulse_width as int) } else { 0 }),
    {
        if !self.enabled {
            0
        } else {
            pulse_width_to_percent(self.pulse_width)
        }
    }
}

} // verus!
