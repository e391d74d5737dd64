use crate::esc::{drain_actions, pulse_width_of, set_power_actions, word_of, Action};
use crate::instr::{mov_x_osr_word, out_isr_word, pull_noblock_word};
use vstd::prelude::*;

verus! {

/// The coprocessor channel as the actions see it: its command queue and registers.
pub struct Generator {
    pub fifo: Seq<u32>,
    pub osr: u32,
    pub x: u32,
    pub isr: u32,
    pub enabled: bool,
}

/// One raw instruction word executed on the channel.
pub open spec fn exec_word(g: Generator, w: u16) -> Generator {
    if w == pull_noblock_word() {
        if g.fifo.len() > 0 {
            Generator { osr: g.fifo[0], fifo: g.fifo.drop_first(), ..g }
        } else {
            Generator { osr: g.x, ..g }
        }
    } else if w == out_isr_word() {
        Generator { isr: g.osr, ..g }
    } else if w == mov_x_osr_word() {
        Generator { x: g.osr, ..g }
    } else {
        g
    }
}

/// One action performed on the channel.
pub open spec fn step(g: Generator, a: Action) -> Generator {
    match a {
        Action::Push(v) => Generator { fifo: g.fifo.push(v), ..g },
        Action::Exec(w) => exec_word(g, w),
        Action::Enable => Generator { enabled: true, ..g },
        Action::Disable => Generator { enabled: false, ..g },
        _ => g,
    }
}

/// A sequence of actions performed in order.
pub open spec fn run(g: Generator, s: Seq<Action>) -> Generator
    decreases s.len(),
{
    if s.len() == 0 {
        g
    } else {
        run(step(g, s[0]), s.drop_first())
    }
}

/// What the loaded program does at the start of each period: take the next queued
/// value, or keep the current one, as the pulse length.
pub open spec fn period(g: Generator) -> Generator {
    exec_word(exec_word(g, pull_noblock_word()), mov_x_osr_word())
}

proof fn lemma_run_two(g: Generator, a: Action, b: Action)
    ensures
        run(g, seq![a, b]) == step(step(g, a), b),
{
    reveal_with_fuel(run, 3);
    assert(seq![a, b].drop_first() =~= seq![b]);
    assert(seq![b].drop_first() =~= Seq::<Action>::empty());
}

proof fn lemma_run_one(g: Generator, a: Action)
    ensures
        run(g, seq![a]) == step(g, a),
{
    reveal_with_fuel(run, 2);
    assert(seq![a].drop_first() =~= Seq::<Action>::empty());
}

/// Two updates issued back to back are both queued, in the order they were issued.
pub proof fn lemma_back_to_back(g: Generator, clk_sys_hz: u32, a: int, b: int)
    ensures
        run(run(g, set_power_actions(clk_sys_hz, a)), set_power_actions(clk_sys_hz, b)).fifo
            == g.fifo + seq![
            word_of(clk_sys_hz, pulse_width_of(a)) as u32,
            word_of(clk_sys_hz, pulse_width_of(b)) as u32,
        ],
{
    lemma_run_one(g, set_power_actions(clk_sys_hz, a)[0]);
    let g1 = run(g, set_power_actions(clk_sys_hz, a));
    lemma_run_one(g1, set_power_actions(clk_sys_hz, b)[0]);
    assert(run(g1, set_power_actions(clk_sys_hz, b)).fifo =~= g.fifo + seq![
        word_of(clk_sys_hz, pulse_width_of(a)) as u32,
        word_of(clk_sys_hz, pulse_width_of(b)) as u32,
    ]);
}

/// Whatever an abandoned update left in the one-slot queue, the cleanup steps that
/// `ESC::cancel` returns for it, followed by a new update, leave the new value alone in
/// the queue, and the next period drives it.
pub proof fn lemma_cancel_then_update(g: Generator, clk_sys_hz: u32, b: int)
    requires
        g.fifo.len() <= 1,
    ensures
        ({
            let g2 = run(g, drain_actions(mov_x_osr_word()));
            let g3 = run(g2, set_power_actions(clk_sys_hz, b));
            &&& g2.fifo.len() == 0
            &&& g3.fifo == seq![word_of(clk_sys_hz, pulse_width_of(b)) as u32]
            &&& period(g3).x == word_of(clk_sys_hz, pulse_width_of(b)) as u32
        }),
{
    lemma_run_two(g, Action::Exec(pull_noblock_word()), Action::Exec(mov_x_osr_word()));
    assert(drain_actions(mov_x_osr_word()) =~= seq![Action::Exec(pull_noblock_word()), Action::Exec(mov_x_osr_word())]);
    let g2 = run(g, drain_actions(mov_x_osr_word()));
    assert(g2.fifo =~= Seq::<u32>::empty());
    lemma_run_one(g2, set_power_actions(clk_sys_hz, b)[0]);
    let g3 = run(g2, set_power_actions(clk_sys_hz, b));
    assert(g3.fifo =~= seq![word_of(clk_sys_hz, pulse_width_of(b)) as u32]);
}

} // verus!
