use simpledot::color::{convert_hex, hexcode_to_rgb, Rgb};

#[test]
fn convert_hex_values() {
    assert_eq!(convert_hex("00"), 0);
    assert_eq!(convert_hex("0f"), 15);
    assert_eq!(convert_hex("ff"), 255);
    assert_eq!(convert_hex("FF"), 255);
    assert_eq!(convert_hex("4B"), 75);
    assert_eq!(convert_hex("a0"), 160);
}

#[test]
fn hexcode_to_rgb_values() {
    assert_eq!(hexcode_to_rgb("000000"), Rgb { r: 0, g: 0, b: 0 });
    assert_eq!(hexcode_to_rgb("ffffff"), Rgb { r: 255, g: 255, b: 255 });
    assert_eq!(
        hexcode_to_rgb("1a2B3c"),
        Rgb {
            r: 26,
            g: 43,
            b: 60
        }
    );
}
