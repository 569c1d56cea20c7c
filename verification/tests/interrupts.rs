use gba_core::interrupts::InterruptSource;
use gba_core::interrupts::Interrupts;


#[test]
fn ie_and_iflag_ignores_ime() {
    let mut irq = Interrupts::new();
    irq.write_ie_if(0, 0x01); // IE bit0
    irq.request(InterruptSource::VBlank);
    assert_eq!(irq.ie_and_iflag(), 0x01, "IME being off must not affect this");
}

#[test]
fn acknowledge_clears_only_the_given_bits() {
    let mut irq = Interrupts::new();
    irq.request(InterruptSource::VBlank);
    irq.request(InterruptSource::Timer0);
    irq.acknowledge(0x01);
    assert_eq!(irq.read_ie_if(2), 0b0000_1000, "only VBlank's bit was acknowledged");
}

#[test]
fn no_interrupt_pending_by_default() {
    let irq = Interrupts::new();
    assert!(!irq.pending());
}

#[test]
fn request_alone_does_not_make_it_pending() {
    let mut irq = Interrupts::new();
    irq.request(InterruptSource::VBlank);
    assert!(!irq.pending(), "IE and IME are still off");
}

#[test]
fn pending_requires_ie_and_ime_and_iflag() {
    let mut irq = Interrupts::new();
    irq.write_ie_if(0, 0x01); // IE bit0 (VBlank)
    irq.request(InterruptSource::VBlank);
    assert!(!irq.pending(), "IME still off");

    irq.write_ime(0, 1);
    assert!(irq.pending());
}

#[test]
fn if_write_one_clears_only_that_bit() {
    let mut irq = Interrupts::new();
    irq.request(InterruptSource::VBlank);
    irq.request(InterruptSource::Timer0);
    assert_eq!(irq.read_ie_if(2), 0b0000_1001);

    irq.write_ie_if(2, 0b0000_0001); // acknowledge VBlank only
    assert_eq!(irq.read_ie_if(2), 0b0000_1000, "Timer0's IF bit must survive");
}

#[test]
fn if_write_zero_bit_leaves_it_set() {
    let mut irq = Interrupts::new();
    irq.request(InterruptSource::VBlank);
    irq.write_ie_if(2, 0x00);
    assert_eq!(irq.read_ie_if(2) & 0x01, 0x01, "writing 0 must not clear");
}

#[test]
fn ie_roundtrips_both_bytes() {
    let mut irq = Interrupts::new();
    irq.write_ie_if(0, 0xAB);
    irq.write_ie_if(1, 0xCD);
    assert_eq!(irq.read_ie_if(0), 0xAB);
    assert_eq!(irq.read_ie_if(1), 0xCD);
}

#[test]
fn ime_only_uses_bit_zero() {
    let mut irq = Interrupts::new();
    irq.write_ime(0, 0xFE); // bit0 clear, rest set
    assert_eq!(irq.read_ime(0), 0);
    irq.write_ime(0, 0x01);
    assert_eq!(irq.read_ime(0), 1);
}

#[test]
fn acknowledging_the_only_pending_source_clears_pending() {
    let mut irq = Interrupts::new();
    irq.write_ie_if(0, 0x01);
    irq.write_ime(0, 1);
    irq.request(InterruptSource::VBlank);
    assert!(irq.pending());

    irq.write_ie_if(2, 0x01); // acknowledge
    assert!(!irq.pending());
}
