//! The eight semantic colours of the interface and their persisted form.

use vstd::prelude::*;

use crate::color::{color_to_hex, format_hex, hex_to_color, parse_hex, Color};

verus! {

/// The colour of each semantic role.
#[derive(Clone, Copy, Debug, PartialEq, Eq, Structural)]
pub struct Palette {
    pub background: Color,
    pub text: Color,
    pub action: Color,
    pub accent: Color,
    pub alert: Color,
    pub error: Color,
    pub info: Color,
    pub success: Color,
}

/// The roles of a palette, in the order they are read.
#[derive(Clone, Copy, Debug, PartialEq, Eq, Structural)]
pub enum PaletteField {
    Background,
    Text,
    Action,
    Accent,
    Alert,
    Error,
    Info,
    Success,
}

/// Why a persisted palette could not be read.
#[derive(Clone, Copy, Debug, PartialEq, Eq, Structural)]
pub enum PaletteError {
    /// The field is absent.
    MissingField(PaletteField),
    /// The field is not a valid `#RRGGBB` colour.
    InvalidHex(PaletteField),
}

/// The persisted form of a palette: one `#rrggbb` text per role, each of
/// which may be absent in what was read.
#[derive(Clone, Debug, PartialEq, Eq)]
pub struct HexPalette {
    pub background: Option<String>,
    pub text: Option<String>,
    pub action: Option<String>,
    pub accent: Option<String>,
    pub alert: Option<String>,
    pub error: Option<String>,
    pub info: Option<String>,
    pub success: Option<String>,
}

/// The text of an optional string.
pub open spec fn opt_view(s: Option<String>) -> Option<Seq<char>> {
    match s {
        Some(t) => Some(t@),
        None => None,
    }
}

/// How one persisted field reads.
pub open spec fn decode_field(s: Option<Seq<char>>, field: PaletteField) -> Result<Color, PaletteError> {
    match s {
        None => Err(PaletteError::MissingField(field)),
        Some(t) => match parse_hex(t) {
            Some(c) => Ok(c),
            None => Err(PaletteError::InvalidHex(field)),
        },
    }
}

/// How a persisted palette reads: the first field, in role order, that is
/// absent or malformed gives the error; otherwise every role gets its colour.
pub open spec fn decode_palette(h: HexPalette) -> Result<Palette, PaletteError> {
    let bg = decode_field(opt_view(h.background), PaletteField::Background);
    let tx = decode_field(opt_view(h.text), PaletteField::Text);
    let ac = decode_field(opt_view(h.action), PaletteField::Action);
    let acc = decode_field(opt_view(h.accent), PaletteField::Accent);
    let al = decode_field(opt_view(h.alert), PaletteField::Alert);
    let er = decode_field(opt_view(h.error), PaletteField::Error);
    let inf = decode_field(opt_view(h.info), PaletteField::Info);
    let su = decode_field(opt_view(h.success), PaletteField::Success);
    if let Err(e) = bg {
        Err(e)
    } else if let Err(e) = tx {
        Err(e)
    } else if let Err(e) = ac {
        Err(e)
    } else if let Err(e) = acc {
        Err(e)
    } else if let Err(e) = al {
        Err(e)
    } else if let Err(e) = er {
        Err(e)
    } else if let Err(e) = inf {
        Err(e)
    } else if let Err(e) = su {
        Err(e)
    } else {
        Ok(
            Palette {
                background: bg->Ok_0,
                text: tx->Ok_0,
                action: ac->Ok_0,
                accent: acc->Ok_0,
                alert: al->Ok_0,
                error: er->Ok_0,
                info: inf->Ok_0,
                success: su->Ok_0,
            },
        )
    }
}

/// The persisted text of every role of a palette.
pub open spec fn encodes(h: HexPalette, p: Palette) -> bool {
    &&& opt_view(h.background) == Some(format_hex(p.background))
    &&& opt_view(h.text) == Some(format_hex(p.text))
    &&& opt_view(h.action) == Some(format_hex(p.action))
    &&& opt_view(h.accent) == Some(format_hex(p.accent))
    &&& opt_view(h.alert) == Some(format_hex(p.alert))
    &&& opt_view(h.error) == Some(format_hex(p.error))
    &&& opt_view(h.info) == Some(format_hex(p.info))
    &&& opt_view(h.success) == Some(format_hex(p.success))
}

impl PaletteField {
    /// The name of the field in the persisted form.
    pub fn name(&self) -> (r: &'static str)
        ensures
            r@ == field_name(*self),
    {
        match self {
            PaletteField::Background => "background",
            PaletteField::Text => "text",
            PaletteField::Action => "action",
            PaletteField::Accent => "accent",
            PaletteField::Alert => "alert",
            PaletteField::Error => "error",
            PaletteField::Info => "info",
            PaletteField::Success => "success",
        }
    }
}

/// The name of each field in the persisted form.
pub open spec fn field_name(f: PaletteField) -> Seq<char> {
    match f {
        PaletteField::Background => "background"@,
        PaletteField::Text => "text"@,
        PaletteField::Action => "action"@,
        PaletteField::Accent => "accent"@,
        PaletteField::Alert => "alert"@,
        PaletteField::Error => "error"@,
        PaletteField::Info => "info"@,
        PaletteField::Success => "success"@,
    }
}

fn read_field(s: &Option<String>, field: PaletteField) -> (r: Result<Color, PaletteError>)
    ensures
        r == decode_field(opt_view(*s), field),
{
    match s {
        None => Err(PaletteError::MissingField(field)),
        Some(t) => match hex_to_color(t.as_str()) {
            Some(c) => Ok(c),
            None => Err(PaletteError::InvalidHex(field)),
        },
    }
}

fn some_hex(c: Color) -> (r: Option<String>)
    ensures
        opt_view(r) == Some(format_hex(c)),
{
    Some(color_to_hex(c))
}

impl Palette {
    /// The persisted form: every role written as `#rrggbb`.
    pub fn to_hex_palette(&self) -> (r: HexPalette)
        ensures
            encodes(r, *self),
    {
        HexPalette {
            background: some_hex(self.background),
            text: some_hex(self.text),
            action: some_hex(self.action),
            accent: some_hex(self.accent),
            alert: some_hex(self.alert),
            error: some_hex(self.error),
            info: some_hex(self.info),
            success: some_hex(self.success),
        }
    }

    /// Reads a persisted palette; no palette comes out unless every field is
    /// present and a valid colour.
    pub fn from_hex_palette(h: &HexPalette) -> (r: Result<Palette, PaletteError>)
        ensures
            r == decode_palette(*h),
    {
        let background = match read_field(&h.background, PaletteField::Background) {
            Ok(c) => c,
            Err(e) => return Err(e),
        };
        let text = match read_field(&h.text, PaletteField::Text) {
            Ok(c) => c,
            Err(e) => return Err(e),
        };
        let action = match read_field(&h.action, PaletteField::Action) {
            Ok(c) => c,
            Err(e) => return Err(e),
        };
        let accent = match read_field(&h.accent, PaletteField::Accent) {
            Ok(c) => c,
            Err(e) => return Err(e),
        };
        let alert = match read_field(&h.alert, PaletteField::Alert) {
            Ok(c) => c,
            Err(e) => return Err(e),
        };
        let error = match read_field(&h.error, PaletteField::Error) {
            Ok(c) => c,
            Err(e) => return Err(e),
        };
        let info = match read_field(&h.info, PaletteField::Info) {
            Ok(c) => c,
            Err(e) => return Err(e),
        };
        let success = match read_field(&h.success, PaletteField::Success) {
            Ok(c) => c,
            Err(e) => return Err(e),
        };
        Ok(Palette { background, text, action, accent, alert, error, info, success })
    }
}

/// The built-in palette.
pub open spec fn default_palette() -> Palette {
    Palette {
        background: Color { r: 0x2b, g: 0x29, b: 0x2d },
        text: Color { r: 0xfe, g: 0xcd, b: 0xb2 },
        action: Color { r: 0xb1, g: 0xb6, b: 0x95 },
        accent: Color { r: 0xd1, g: 0xd1, b: 0xe0 },
        alert: Color { r: 0xff, g: 0xa0, b: 0x7a },
        error: Color { r: 0xe0, g: 0x6b, b: 0x75 },
        info: Color { r: 0xf5, g: 0xd7, b: 0x6e },
        success: Color { r: 0xb1, g: 0xb6, b: 0x95 },
    }
}

impl Default for Palette {
    fn default() -> (r: Palette)
        ensures
            r == default_palette(),
    {
        Palette {
            background: Color { r: 0x2b, g: 0x29, b: 0x2d },
            text: Color { r: 0xfe, g: 0xcd, b: 0xb2 },
            action: Color { r: 0xb1, g: 0xb6, b: 0x95 },
            accent: Color { r: 0xd1, g: 0xd1, b: 0xe0 },
            alert: Color { r: 0xff, g: 0xa0, b: 0x7a },
            error: Color { r: 0xe0, g: 0x6b, b: 0x75 },
            info: Color { r: 0xf5, g: 0xd7, b: 0x6e },
            success: Color { r: 0xb1, g: 0xb6, b: 0x95 },
        }
    }
}

/// Reading back what a palette was written as gives the same palette.
pub proof fn lemma_palette_round_trip(p: Palette, h: HexPalette)
    requires
        encodes(h, p),
    ensures
        decode_palette(h) == Ok::<Palette, PaletteError>(p),
{
    crate::color::lemma_format_then_parse(p.background);
    crate::color::lemma_format_then_parse(p.text);
    crate::color::lemma_format_then_parse(p.action);
    crate::color::lemma_format_then_parse(p.accent);
    crate::color::lemma_format_then_parse(p.alert);
    crate::color::lemma_format_then_parse(p.error);
    crate::color::lemma_format_then_parse(p.info);
    crate::color::lemma_format_then_parse(p.success);
}

/// A persisted palette with an absent field never reads as a palette.
pub proof fn lemma_missing_field_fails(h: HexPalette)
    requires
        h.background is None || h.text is None || h.action is None || h.accent is None
            || h.alert is None || h.error is None || h.info is None || h.success is None,
    ensures
        decode_palette(h) is Err,
{
}

} // verus!
