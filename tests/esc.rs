use esc_driver::esc::{
    percent_to_pulse_width, pulse_width_to_percent, us_to_pio_cycles, Action, ESC,
    MAX_PULSE_WIDTH, MIN_PULSE_WIDTH,
};
use esc_driver::map_range;

const CLK: u32 = 125_000_000;

fn push_of(us: u32) -> Action {
    Action::Push(us * 125 / 3)
}

#[test]
fn map_range_exact() {
    assert_eq!(map_range(5, (0, 10), (100, 200)), 150);
    assert_eq!(map_range(1, (0, 3), (0, 10)), 3);
    assert_eq!(map_range(1500, (1000, 2000), (0, 100)), 50);
    assert_eq!(map_range(15, (0, 10), (0, 100)), 150);
    assert_eq!(map_range(37, (5, 9), (5, 9)), 37);
}

#[test]
fn pulse_width_endpoints() {
    assert_eq!(percent_to_pulse_width(0), 1000);
    assert_eq!(percent_to_pulse_width(100), 2000);
    assert_eq!(percent_to_pulse_width(50), 1500);
    assert_eq!(MIN_PULSE_WIDTH, 1000);
    assert_eq!(MAX_PULSE_WIDTH, 2000);
}

#[test]
fn round_trip_every_percent() {
    for p in 0..=100i64 {
        assert_eq!(pulse_width_to_percent(percent_to_pulse_width(p)) as i64, p);
    }
}

#[test]
fn pulse_width_monotonic() {
    for p in -10..110i64 {
        assert!(percent_to_pulse_width(p) <= percent_to_pulse_width(p + 1));
    }
}

#[test]
fn clamping() {
    assert_eq!(percent_to_pulse_width(-30), percent_to_pulse_width(0));
    assert_eq!(percent_to_pulse_width(170), percent_to_pulse_width(100));
    assert_eq!(pulse_width_to_percent(500), 0);
    assert_eq!(pulse_width_to_percent(2600), 100);
}

#[test]
fn cycles_at_125_mhz() {
    assert_eq!(us_to_pio_cycles(1000, CLK), 125_000);
    assert_eq!(us_to_pio_cycles(2000, CLK), 250_000);
    assert_eq!(us_to_pio_cycles(20000, CLK), 2_500_000);
}

#[test]
fn fresh_controller_has_no_power() {
    let esc = ESC::new(CLK);
    assert_eq!(esc.get_power(), 0);
}

#[test]
fn attach_primes_at_minimum() {
    let mut esc = ESC::new(CLK);
    let actions = esc.attach();
    assert_eq!(esc.get_power(), 0);
    assert_eq!(
        actions,
        vec![
            Action::Disable,
            Action::ApplyConfig,
            push_of(20000),
            Action::Exec(0x8080),
            Action::Exec(0x60c0),
            push_of(1000),
            Action::Exec(0x8080),
            Action::Exec(0xa027),
            Action::Enable,
            push_of(1000),
        ]
    );
}

#[test]
fn power_sequence() {
    let mut esc = ESC::new(CLK);
    esc.attach();
    assert_eq!(esc.set_power(25), vec![push_of(1250)]);
    assert_eq!(esc.get_power(), 25);
    esc.set_power(90);
    assert_eq!(esc.get_power(), 90);
    assert_eq!(
        esc.detach(),
        vec![push_of(1000), Action::WaitAck, Action::Disable]
    );
    assert_eq!(esc.get_power(), 0);
}

#[test]
fn back_to_back_updates_both_queued() {
    let mut esc = ESC::new(CLK);
    esc.attach();
    let mut queued = esc.set_power(30);
    queued.extend(esc.set_power(60));
    assert_eq!(queued, vec![push_of(1300), push_of(1600)]);
}

#[test]
fn cancel_drains_queue() {
    let mut esc = ESC::new(CLK);
    esc.attach();
    esc.set_power(40);
    assert_eq!(esc.cancel(), vec![Action::Exec(0x8080), Action::Exec(0xa027)]);
    assert_eq!(esc.cancel(), vec![]);
    assert_eq!(esc.set_power(70), vec![push_of(1700)]);
    assert_eq!(esc.get_power(), 70);
}

#[test]
fn finished_update_needs_no_cleanup() {
    let mut esc = ESC::new(CLK);
    assert_eq!(esc.cancel(), vec![]);
    esc.attach();
    esc.set_power(40);
    esc.finish_update();
    assert_eq!(esc.cancel(), vec![]);
    assert_eq!(esc.get_power(), 40);
}

#[test]
fn set_frequency_writes_divider() {
    let mut esc = ESC::new(CLK);
    assert_eq!(esc.clock_divider(), 18382);
    assert_eq!(
        esc.set_frequency(100),
        vec![Action::SetClockDivider(9191 << 16), Action::RestartClockDivider]
    );
    assert_eq!(esc.clock_divider(), 9191);
    assert_eq!(
        esc.set_frequency(50),
        vec![Action::SetClockDivider(18382 << 16), Action::RestartClockDivider]
    );
}

#[test]
fn attached_flag_follows_lifecycle() {
    let mut esc = ESC::new(CLK);
    assert!(!esc.is_attached());
    esc.attach();
    assert!(esc.is_attached());
    esc.detach();
    assert!(!esc.is_attached());
}
