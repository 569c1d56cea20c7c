use gba_core::joypad::Button;
use gba_core::joypad::Joypad;


#[test]
fn starts_with_every_button_released() {
    let joypad = Joypad::new();
    for i in 0..10 {
        assert!(!joypad.is_pressed(Button::from_index(i).unwrap()));
    }
    assert_eq!(joypad.read_register(0), 0xFF);
    assert_eq!(joypad.read_register(1), 0xFF);
}

#[test]
fn press_and_release_flip_only_that_bit() {
    let mut joypad = Joypad::new();
    joypad.press(Button::A);
    assert!(joypad.is_pressed(Button::A));
    assert!(!joypad.is_pressed(Button::B));
    assert_eq!(joypad.read_register(0) & 0x01, 0, "A's bit is active-low");

    joypad.press(Button::Start);
    assert!(joypad.is_pressed(Button::A));
    assert!(joypad.is_pressed(Button::Start));

    joypad.release(Button::A);
    assert!(!joypad.is_pressed(Button::A));
    assert!(joypad.is_pressed(Button::Start));
}

#[test]
fn keyinput_write_is_ignored() {
    let mut joypad = Joypad::new();
    joypad.write_register(0, 0x00);
    joypad.write_register(1, 0x00);
    assert_eq!(joypad.read_register(0), 0xFF, "KEYINPUT is read-only");
}

#[test]
fn keycnt_roundtrips() {
    let mut joypad = Joypad::new();
    joypad.write_register(2, 0x3F);
    joypad.write_register(3, 0xC0);
    assert_eq!(joypad.read_register(2), 0x3F);
    assert_eq!(joypad.read_register(3), 0xC0);
}

#[test]
fn irq_condition_or_mode_fires_on_any_selected_button() {
    let mut joypad = Joypad::new();
    joypad.write_register(2, 0b0000_0011); // select A, B
    joypad.write_register(3, 0x40); // IRQ enable (bit14), OR mode (bit15=0)
    assert!(!joypad.irq_condition_met());

    joypad.press(Button::B);
    assert!(joypad.irq_condition_met());
}

#[test]
fn irq_condition_and_mode_requires_every_selected_button() {
    let mut joypad = Joypad::new();
    joypad.write_register(2, 0b0000_0011); // select A, B
    joypad.write_register(3, 0xC0); // IRQ enable + AND mode (bits 14,15)

    joypad.press(Button::A);
    assert!(!joypad.irq_condition_met(), "only A held, AND needs both");

    joypad.press(Button::B);
    assert!(joypad.irq_condition_met());
}

#[test]
fn irq_disabled_never_fires() {
    let mut joypad = Joypad::new();
    joypad.write_register(2, 0xFF);
    joypad.press(Button::A);
    assert!(!joypad.irq_condition_met(), "KEYCNT bit14 (IRQ enable) was never set");
}
