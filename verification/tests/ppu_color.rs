use gba_core::ppu::color::bgr555_to_rgba8888;


#[test]
fn black_and_white_round_trip_exactly() {
    assert_eq!(bgr555_to_rgba8888(0x0000), [0, 0, 0, 255]);
    assert_eq!(bgr555_to_rgba8888(0x7FFF), [255, 255, 255, 255]);
}

#[test]
fn pure_red_channel() {
    assert_eq!(bgr555_to_rgba8888(0x001F), [255, 0, 0, 255]);
}

#[test]
fn pure_blue_channel_is_the_high_bits() {
    assert_eq!(bgr555_to_rgba8888(0x7C00), [0, 0, 255, 255]);
}
