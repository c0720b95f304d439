use emulator_core::Button;
use emulator_core::Joypad;
use emulator_core::Timer;

#[test]
fn joypad_read_write() {
    let mut joypad = Joypad::new();

    joypad.write(0xF0);

    assert_eq!(joypad.read(), 0xFF);
}

#[test]
fn ignores_writes_to_lower_nibble() {
    let mut joypad = Joypad::new();

    joypad.write(0x20);

    assert_eq!(joypad.read(), 0x20 | 0xF);
}

#[test]
fn button_down_release_buttons() {
    let mut joypad = Joypad::new();
    joypad.write(0x10);

    joypad.button_down(Button::A);
    assert_eq!(joypad.read(), 0x10 | 0b1110);
    joypad.button_release(Button::A);
    assert_eq!(joypad.read(), 0x10 | 0xF);

    joypad.button_down(Button::B);
    assert_eq!(joypad.read(), 0x10 | 0b1101);
    joypad.button_release(Button::B);
    assert_eq!(joypad.read(), 0x10 | 0xF);

    joypad.button_down(Button::Select);
    assert_eq!(joypad.read(), 0x10 | 0b1011);
    joypad.button_release(Button::Select);
    assert_eq!(joypad.read(), 0x10 | 0xF);

    joypad.button_down(Button::Start);
    assert_eq!(joypad.read(), 0x10 | 0b0111);
    joypad.button_release(Button::Start);
    assert_eq!(joypad.read(), 0x10 | 0xF);
}

#[test]
fn button_down_release_dpad() {
    let mut joypad = Joypad::new();
    joypad.write(0x20);

    joypad.button_down(Button::Right);
    assert_eq!(joypad.read(), 0x20 | 0b1110);
    joypad.button_release(Button::Right);
    assert_eq!(joypad.read(), 0x20 | 0xF);

    joypad.button_down(Button::Left);
    assert_eq!(joypad.read(), 0x20 | 0b1101);
    joypad.button_release(Button::Left);
    assert_eq!(joypad.read(), 0x20 | 0xF);

    joypad.button_down(Button::Up);
    assert_eq!(joypad.read(), 0x20 | 0b1011);
    joypad.button_release(Button::Up);
    assert_eq!(joypad.read(), 0x20 | 0xF);

    joypad.button_down(Button::Down);
    assert_eq!(joypad.read(), 0x20 | 0b0111);
    joypad.button_release(Button::Down);
    assert_eq!(joypad.read(), 0x20 | 0xF);
}

#[test]
fn mask_switch_changes_read_dpad_output() {
    let mut joypad = Joypad::new();

    joypad.write(0x10);
    joypad.button_down(Button::Up);
    assert_eq!(joypad.read(), 0x10 | 0xF);

    // Switch mask
    joypad.write(0x20);
    assert_eq!(joypad.read(), 0x20 | 0b1011);
}

#[test]
fn mask_switch_changes_read_button_output() {
    let mut joypad = Joypad::new();

    joypad.write(0x20);
    joypad.button_down(Button::A);
    assert_eq!(joypad.read(), 0x20 | 0xF);

    // Switch mask
    joypad.write(0x10);
    assert_eq!(joypad.read(), 0x10 | 0b1110);
}

#[test]
fn interrupt_requested_when_button_pressed() {
    let mut joypad = Joypad::new();
    joypad.write(0x10);
    joypad.button_down(Button::A);

    assert_eq!(joypad.interrupt_requested(), true);
}

enum TimerRate {
    M4,
    M16,
    M64,
    M256,
}

impl TimerRate {
    fn timer_at(&self) -> Timer {
        let mut timer = Timer::new();

        match self {
            TimerRate::M4 => timer.write_control(0b0000_0101),
            TimerRate::M16 => timer.write_control(0b0000_0110),
            TimerRate::M64 => timer.write_control(0b0000_0111),
            TimerRate::M256 => timer.write_control(0b0000_0100),
        }

        timer
    }

    fn cycles(&self) -> u16 {
        match self {
            TimerRate::M4 => 4,
            TimerRate::M16 => 16,
            TimerRate::M64 => 64,
            TimerRate::M256 => 256,
        }
    }
}

/// Run in single m-cycle increments, as the CPU would.
fn run_timer_for(timer: &mut Timer, cycles: u16) {
    for _ in 0..cycles {
        timer.step(1);
    }
}

#[test]
fn counter_incremented_at_correct_rate() {
    for rate in &[TimerRate::M4, TimerRate::M16, TimerRate::M64, TimerRate::M256] {
        let mut timer = rate.timer_at();

        run_timer_for(&mut timer, rate.cycles());

        assert_eq!(timer.read_counter(), 1);
    }
}

#[test]
fn counter_not_incremented_when_disabled() {
    let mut timer = Timer::new();

    timer.disable();

    run_timer_for(&mut timer, 1024);

    assert_eq!(timer.read_counter(), 0);
}

// Where the timer is disabled, the AND signal can fall from one to zero
// (a falling edge), causing a TIMA increment even though the tapped bit of
// the divider did not change.
#[test]
fn tima_increment_edge_case() {
    let rate = TimerRate::M4;
    let mut timer = rate.timer_at();

    run_timer_for(&mut timer, rate.cycles() - 2);

    timer.disable();

    run_timer_for(&mut timer, 1);

    assert_eq!(timer.read_counter(), 1);
}
