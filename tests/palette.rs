use data::color::{hex_to_color, Color};
use data::palette::{HexPalette, Palette, PaletteError, PaletteField};

fn full(background: &str) -> HexPalette {
    HexPalette {
        background: Some(background.to_string()),
        text: Some("#fecdb2".to_string()),
        action: Some("#b1b695".to_string()),
        accent: Some("#d1d1e0".to_string()),
        alert: Some("#ffa07a".to_string()),
        error: Some("#e06b75".to_string()),
        info: Some("#f5d76e".to_string()),
        success: Some("#b1b695".to_string()),
    }
}

#[test]
fn default_palette_colors() {
    let p = Palette::default();
    assert_eq!(p.background, hex_to_color("#2b292d").unwrap());
    assert_eq!(p.text, hex_to_color("#fecdb2").unwrap());
    assert_eq!(p.accent, Color { r: 0xd1, g: 0xd1, b: 0xe0 });
    assert_eq!(p.success, p.action);
}

#[test]
fn palette_writes_hex_texts() {
    let h = Palette::default().to_hex_palette();
    assert_eq!(h, full("#2b292d"));
}

#[test]
fn palette_reads_back_what_it_wrote() {
    let p = Palette::default();
    assert_eq!(Palette::from_hex_palette(&p.to_hex_palette()), Ok(p));
}

#[test]
fn palette_missing_accent_fails() {
    let mut h = full("#2b292d");
    h.accent = None;
    let r = Palette::from_hex_palette(&h);
    assert_eq!(r, Err(PaletteError::MissingField(PaletteField::Accent)));
    assert_eq!(PaletteField::Accent.name(), "accent");
}

#[test]
fn palette_invalid_hex_fails() {
    let h = full("#2b29");
    assert_eq!(
        Palette::from_hex_palette(&h),
        Err(PaletteError::InvalidHex(PaletteField::Background))
    );
}

#[test]
fn palette_first_bad_field_is_reported() {
    let mut h = full("#2b292d");
    h.error = Some("red".to_string());
    h.success = None;
    assert_eq!(
        Palette::from_hex_palette(&h),
        Err(PaletteError::InvalidHex(PaletteField::Error))
    );
}
