//! Tests of the LED protocol encoder and of handle construction on a host
//! without the board's GPIO hardware.

use fanshim::byte_bits;
use fanshim::clamped_brightness;
use fanshim::command_byte;
use fanshim::frame;
use fanshim::Fanshim;
use fanshim::PinLevel;

#[test]
fn command_byte_in_range() {
    assert_eq!(command_byte(0), 224);
    assert_eq!(command_byte(1), 225);
    assert_eq!(command_byte(16), 240);
    assert_eq!(command_byte(31), 255);
}

#[test]
fn command_byte_out_of_range_collapses_to_one() {
    // 32 and above fall back to brightness 1, not to 31.
    assert_eq!(command_byte(32), 225);
    assert_eq!(command_byte(100), 225);
    assert_eq!(command_byte(255), 225);
}

#[test]
fn brightness_range_rule() {
    assert_eq!(clamped_brightness(0), 0);
    assert_eq!(clamped_brightness(31), 31);
    assert_eq!(clamped_brightness(32), 1);
    assert_eq!(clamped_brightness(255), 1);
}

#[test]
fn byte_bits_msb_first() {
    assert_eq!(
        byte_bits(0b1011_0000),
        vec![true, false, true, true, false, false, false, false]
    );
    assert_eq!(byte_bits(0), vec![false; 8]);
    assert_eq!(byte_bits(255), vec![true; 8]);
    assert_eq!(
        byte_bits(1),
        vec![false, false, false, false, false, false, false, true]
    );
    assert_eq!(byte_bits(224).len(), 8);
}

#[test]
fn frame_layout_and_color_order() {
    // Four zero bytes, the command byte, then blue, green, red, then four
    // bytes of 255.
    assert_eq!(
        frame(1, 10, 20, 30),
        vec![0, 0, 0, 0, 225, 30, 20, 10, 255, 255, 255, 255]
    );
    assert_eq!(frame(31, 0, 0, 0).len(), 12);
}

#[test]
fn frame_for_full_red_at_half_brightness() {
    // The concrete scenario: color(16, 255, 0, 0) puts 240 in the command
    // byte and the red value last among the color bytes.
    assert_eq!(
        frame(16, 255, 0, 0),
        vec![0, 0, 0, 0, 240, 0, 0, 255, 255, 255, 255, 255]
    );
}

#[test]
fn led_off_frame_matches_zero_color() {
    assert_eq!(
        frame(0, 0, 0, 0),
        vec![0, 0, 0, 0, 224, 0, 0, 0, 255, 255, 255, 255]
    );
}

#[test]
fn pin_levels_are_two_distinct_values() {
    assert_ne!(PinLevel::High, PinLevel::Low);
    assert_eq!(PinLevel::High, PinLevel::High);
}

#[test]
fn construction_fails_without_gpio_hardware() {
    // This host is not a supported board, so the GPIO peripheral itself
    // cannot be opened: construction fails before any pin is claimed and no
    // handle is produced.
    match Fanshim::default_config() {
        Ok(_) => panic!("acquired GPIO pins on a host without the hardware"),
        Err(e) => assert!(e.pin.is_none()),
    }
}
