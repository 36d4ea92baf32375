use chip8_core::machine::Emulator;

#[test]
fn delay_timer_counts_down_and_floors_at_zero() {
    let mut e = Emulator::new();
    e.set_delay_timer(5);
    for expected in [4u8, 3, 2, 1, 0] {
        e.tick_timer();
        assert_eq!(e.get_delay_timer(), expected);
    }
    // A sixth step leaves it at zero: no underflow.
    e.tick_timer();
    assert_eq!(e.get_delay_timer(), 0);
}

#[test]
fn sound_timer_raises_cue_exactly_once() {
    let mut e = Emulator::new();
    e.set_sound_timer(1);
    assert!(e.tick_timer());
    assert_eq!(e.get_sound_timer(), 0);
    // No further cue until the timer is set above one again.
    assert!(!e.tick_timer());
    assert!(!e.tick_timer());
    assert_eq!(e.get_sound_timer(), 0);
}

#[test]
fn sound_cue_comes_on_the_edge_not_while_nonzero() {
    let mut e = Emulator::new();
    e.set_sound_timer(3);
    assert!(!e.tick_timer());
    assert!(!e.tick_timer());
    assert!(e.tick_timer());
    assert_eq!(e.get_sound_timer(), 0);
    assert!(!e.tick_timer());
}

#[test]
fn timers_are_independent_of_each_other_and_the_cpu() {
    let mut e = Emulator::new();
    e.set_delay_timer(2);
    e.set_sound_timer(1);
    assert!(e.tick_timer());
    assert_eq!(e.get_delay_timer(), 1);
    assert_eq!(e.get_sound_timer(), 0);
    // An instruction step does not touch the timers.
    assert_eq!(e.tick(), Ok(()));
    assert_eq!(e.get_delay_timer(), 1);
    assert_eq!(e.get_sound_timer(), 0);
    assert!(!e.tick_timer());
    assert_eq!(e.get_delay_timer(), 0);
}
