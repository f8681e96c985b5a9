use diorama::color::Color;

#[test]
fn new_keeps_channels() {
    let c = Color::new(1, 2, 3);
    assert_eq!((c.r, c.g, c.b), (1, 2, 3));
}

#[test]
fn from_hex_splits_bytes() {
    let c = Color::from_hex(0x12_34_56);
    assert_eq!(c, Color::new(0x12, 0x34, 0x56));
}

#[test]
fn from_hex_ignores_high_byte() {
    let c = Color::from_hex(0xFF_0A_0B_0C);
    assert_eq!(c, Color::new(0x0A, 0x0B, 0x0C));
}

#[test]
fn to_hex_packs_bytes() {
    assert_eq!(Color::new(0x12, 0x34, 0x56).to_hex(), 0x12_34_56);
    assert_eq!(Color::new(9, 20, 55).to_hex(), 0x09_14_37);
    assert_eq!(Color::new(255, 255, 255).to_hex(), 0xFF_FF_FF);
}

#[test]
fn hex_round_trip() {
    for c in [Color::new(0, 0, 0), Color::new(255, 0, 128), Color::new(7, 200, 33)] {
        assert_eq!(Color::from_hex(c.to_hex()), c);
    }
}

#[test]
fn add_saturates_per_channel() {
    let c = Color::new(200, 100, 10) + Color::new(100, 100, 10);
    assert_eq!(c, Color::new(255, 200, 20));
}

#[test]
fn add_of_maxima_stays_at_max() {
    let c = Color::new(255, 255, 255) + Color::new(255, 1, 0);
    assert_eq!(c, Color::new(255, 255, 255));
}

#[test]
fn add_exactly_255_is_not_clamped_lower() {
    let c = Color::new(128, 127, 0) + Color::new(127, 128, 255);
    assert_eq!(c, Color::new(255, 255, 255));
}

#[test]
fn add_assign_saturates() {
    let mut c = Color::new(250, 3, 0);
    c.add_assign(Color::new(10, 4, 0));
    assert_eq!(c, Color::new(255, 7, 0));
}

#[test]
fn describe_writes_channels_in_decimal() {
    assert_eq!(Color::new(0, 20, 255).describe(), "Color(r: 0, g: 20, b: 255)");
    assert_eq!(Color::new(9, 100, 7).describe(), "Color(r: 9, g: 100, b: 7)");
}
