use gameboy_rs::gameboy::timer::Timer;

#[test]
fn timer_starts_with_divider_at_five() {
    let timer = Timer::new();
    assert_eq!(timer.div, 5);
    assert_eq!(timer.read(0xFF04), 0);
    assert_eq!(timer.read(0xFF03), 5);
    assert_eq!(timer.read(0xFF07), 0xF8);
}

#[test]
fn tima_counts_falling_edge_of_bit_three() {
    let mut timer = Timer::new();
    timer.write(0xFF07, 0b101);
    // The counter starts at 5: bit 3 rises at 8 and falls at 16.
    for _ in 0..10 {
        assert!(!timer.tick());
    }
    assert_eq!(timer.div, 15);
    assert_eq!(timer.tima, 0);
    timer.tick();
    assert_eq!(timer.div, 16);
    assert_eq!(timer.tima, 1);
}

#[test]
fn write_to_div_counts_when_signal_was_high() {
    let mut timer = Timer::new();
    timer.write(0xFF07, 0b101);
    for _ in 0..4 {
        timer.tick();
    }
    assert_eq!(timer.div, 9);
    timer.write(0xFF04, 0x55);
    assert_eq!(timer.div, 0);
    assert_eq!(timer.tima, 1);
    timer.write(0xFF04, 0x55);
    assert_eq!(timer.tima, 1);
}

#[test]
fn write_to_tac_counts_when_signal_drops() {
    let mut timer = Timer::new();
    timer.write(0xFF07, 0b101);
    for _ in 0..4 {
        timer.tick();
    }
    // Disabling the timer while the selected bit is high counts once.
    timer.write(0xFF07, 0b001);
    assert_eq!(timer.tima, 1);
    timer.write(0xFF07, 0b101);
    assert_eq!(timer.tima, 1);
}

fn overflown_timer() -> Timer {
    let mut timer = Timer::new();
    timer.write(0xFF06, 0x42);
    timer.write(0xFF07, 0b101);
    timer.write(0xFF05, 0xFF);
    for _ in 0..10 {
        assert!(!timer.tick());
    }
    assert!(!timer.tick());
    assert_eq!(timer.tima, 0);
    assert!(timer.tima_overflown);
    assert_eq!(timer.ticks_since_tima_overflown, 1);
    timer
}

#[test]
fn overflow_raises_interrupt_in_fourth_cycle_and_reloads_in_fifth() {
    let mut timer = overflown_timer();
    assert!(!timer.tick());
    assert!(!timer.tick());
    assert!(timer.tick());
    assert_eq!(timer.tima, 0);
    assert!(!timer.tick());
    assert_eq!(timer.tima, 0x42);
    assert!(timer.tima_overflown);
    assert!(!timer.tick());
    assert_eq!(timer.tima, 0x42);
    assert!(!timer.tima_overflown);
}

#[test]
fn write_to_tima_within_four_cycles_cancels_overflow() {
    let mut timer = overflown_timer();
    timer.tick();
    timer.write(0xFF05, 0x17);
    assert_eq!(timer.tima, 0x17);
    assert!(!timer.tima_overflown);
    for _ in 0..6 {
        assert!(!timer.tick());
    }
    assert_eq!(timer.tima, 0x17);
}

#[test]
fn write_to_tima_during_reload_is_dropped() {
    let mut timer = overflown_timer();
    timer.tick();
    timer.tick();
    assert!(timer.tick());
    timer.write(0xFF05, 0x17);
    assert_eq!(timer.tima, 0);
    timer.tick();
    timer.write(0xFF05, 0x17);
    assert_eq!(timer.tima, 0x42);
    timer.tick();
    assert_eq!(timer.tima, 0x42);
}
