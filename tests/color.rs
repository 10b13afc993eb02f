use data::color::{color_to_hex, hex_to_color, Color};
use data::seed::seed_hash;

#[test]
fn hex_round_trip_keeps_text() {
    for s in ["#000000", "#ffffff", "#2b292d", "#fecdb2", "#0a0b0c", "#e06b75"] {
        let c = hex_to_color(s).unwrap();
        assert_eq!(color_to_hex(c), s);
    }
}

#[test]
fn hex_parses_channels() {
    assert_eq!(hex_to_color("#2b292d"), Some(Color { r: 0x2b, g: 0x29, b: 0x2d }));
    assert_eq!(hex_to_color("#FFA07A"), Some(Color { r: 255, g: 160, b: 122 }));
}

#[test]
fn hex_writes_lowercase_two_digits() {
    assert_eq!(color_to_hex(Color { r: 0, g: 15, b: 255 }), "#000fff");
    assert_eq!(color_to_hex(hex_to_color("#ABCDEF").unwrap()), "#abcdef");
}

#[test]
fn hex_rejects_malformed_text() {
    assert_eq!(hex_to_color(""), None);
    assert_eq!(hex_to_color("#12345"), None);
    assert_eq!(hex_to_color("#1234567"), None);
    assert_eq!(hex_to_color("1234567"), None);
    assert_eq!(hex_to_color("#12345g"), None);
    assert_eq!(hex_to_color("#+f+f+f"), None);
    assert_eq!(hex_to_color("#é2345"), None);
}

#[test]
fn seed_is_the_digest_of_the_text() {
    assert_eq!(seed_hash("alice"), seed_hash("alice"));
    assert_ne!(seed_hash("alice"), seed_hash("bob"));
    assert_eq!(seed_hash("alice"), seahash::hash(b"alice"));
}
