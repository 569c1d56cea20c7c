use gba_core::timer::Timers;


fn enable_timer(timers: &mut Timers, index: usize, prescaler_select: u8, irq: bool, cascade: bool) {
    let base = index * 4;
    let mut ctrl = prescaler_select & 0x3;
    if cascade {
        ctrl |= 0x04;
    }
    if irq {
        ctrl |= 0x40;
    }
    ctrl |= 0x80; // enable
    timers.write_register(base + 2, ctrl);
}

fn set_reload(timers: &mut Timers, index: usize, value: u16) {
    let base = index * 4;
    timers.write_register(base, (value & 0xFF) as u8);
    timers.write_register(base + 1, (value >> 8) as u8);
}

#[test]
fn disabled_timer_does_not_count() {
    let mut timers = Timers::new();
    timers.tick(10_000);
    assert_eq!(timers.read_register(0), 0);
    assert_eq!(timers.read_register(1), 0);
}

#[test]
fn prescaler_1_counts_one_per_cycle() {
    let mut timers = Timers::new();
    enable_timer(&mut timers, 0, 0, false, false);
    timers.tick(5);
    assert_eq!(timers.read_register(0), 5);
}

#[test]
fn prescaler_64_counts_once_every_64_cycles() {
    let mut timers = Timers::new();
    enable_timer(&mut timers, 0, 1, false, false);
    timers.tick(63);
    assert_eq!(timers.read_register(0), 0, "not enough cycles yet");
    timers.tick(1);
    assert_eq!(timers.read_register(0), 1);
}

#[test]
fn enabling_loads_the_counter_from_reload_immediately() {
    let mut timers = Timers::new();
    set_reload(&mut timers, 0, 0xFFF0);
    enable_timer(&mut timers, 0, 0, false, false);
    assert_eq!(timers.read_register(0), 0xF0);
    assert_eq!(timers.read_register(1), 0xFF);
}

#[test]
fn overflow_reloads_and_reports_irq_when_enabled() {
    let mut timers = Timers::new();
    set_reload(&mut timers, 0, 0xFFFE);
    enable_timer(&mut timers, 0, 0, true, false);

    let events = timers.tick(2);
    assert_eq!(timers.read_register(0), 0xFE);
    assert_eq!(timers.read_register(1), 0xFF);
    assert!(events.overflowed(0));
}

#[test]
fn overflow_without_irq_enable_does_not_report() {
    let mut timers = Timers::new();
    set_reload(&mut timers, 0, 0xFFFF);
    enable_timer(&mut timers, 0, 0, false, false);

    let events = timers.tick(1);
    assert!(!events.overflowed(0));
}

#[test]
fn cascade_timer_ignores_its_own_prescaler_and_counts_previous_overflows() {
    let mut timers = Timers::new();
    set_reload(&mut timers, 0, 0xFFFF); // overflows on the very next tick
    enable_timer(&mut timers, 0, 0, false, false);
    enable_timer(&mut timers, 1, 0, false, true); // cascade

    timers.tick(1); // timer0 overflows once
    assert_eq!(timers.read_register(4), 1, "timer1 counted one cascade pulse");

    // Disable timer0 so it stops producing cascade pulses, then hammer
    // timer1 with a huge direct-cycle tick: a cascade timer must not
    // advance via its own prescaler, only via the previous timer's
    // overflow count.
    timers.write_register(2, 0x00);
    timers.tick(1_000_000);
    assert_eq!(timers.read_register(4), 1, "timer1 must ignore direct cycles while cascading");
}

#[test]
fn cascade_chain_can_itself_overflow_and_request_irq() {
    let mut timers = Timers::new();
    set_reload(&mut timers, 0, 0xFFFF);
    enable_timer(&mut timers, 0, 0, false, false);
    set_reload(&mut timers, 1, 0xFFFF);
    enable_timer(&mut timers, 1, 0, true, true);

    let events = timers.tick(1);
    assert!(events.overflowed(1), "timer1 must overflow the same tick it receives its one cascade pulse");
}
