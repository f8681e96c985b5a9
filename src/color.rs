use vstd::prelude::*;

verus! {

/// An 8-bit-per-channel RGB color.
#[derive(Debug, Clone, Copy, PartialEq, Eq, Structural)]
pub struct Color {
    pub r: u8,
    pub g: u8,
    pub b: u8,
}

/// Saturating sum of two channel values.
pub open spec fn sat_add(a: u8, b: u8) -> u8 {
    if a + b > 255 { 255u8 } else { (a + b) as u8 }
}

/// The 24-bit packing `0xRRGGBB` of three channels.
pub open spec fn packed(r: u8, g: u8, b: u8) -> u32 {
    (r as int * 65536 + g as int * 256 + b as int) as u32
}

impl Color {
    pub fn new(r: u8, g: u8, b: u8) -> (c: Color)
        ensures
            c.r == r && c.g == g && c.b == b,
    {
        Color { r, g, b }
    }

    /// Reads the three low bytes of `hex` as `0xRRGGBB`; higher bits are ignored.
    pub fn from_hex(hex: u32) -> (c: Color)
        ensures
            c.r as int == (hex as int / 65536) % 256,
            c.g as int == (hex as int / 256) % 256,
            c.b as int == hex as int % 256,
    {
        let r = ((hex >> 16) & 0xFF) as u8;
        let g = ((hex >> 8) & 0xFF) as u8;
        let b = (hex & 0xFF) as u8;
        proof {
            assert(((hex >> 16) & 0xFF) == (hex / 65536) % 256) by (bit_vector);
            assert(((hex >> 8) & 0xFF) == (hex / 256) % 256) by (bit_vector);
            assert((hex & 0xFF) == hex % 256) by (bit_vector);
        }
        Color { r, g, b }
    }

    /// Packs the channels as `0xRRGGBB`.
    pub fn to_hex(&self) -> (h: u32)
        ensures
            h == packed(self.r, self.g, self.b),
            h < 0x100_0000,
    {
        let r = self.r;
        let g = self.g;
        let b = self.b;
        proof {
            assert(((r as u32) << 16) | ((g as u32) << 8) | (b as u32)
                == r as u32 * 65536 + g as u32 * 256 + b as u32) by (bit_vector);
        }
        ((r as u32) << 16) | ((g as u32) << 8) | (b as u32)
    }
}

impl Color {
    /// Adds `other` into `self`, channel by channel, saturating at 255.
    pub fn add_assign(&mut self, other: Color)
        ensures
            *final(self) == color_sum(*old(self), other),
    {
        self.r = self.r.saturating_add(other.r);
        self.g = self.g.saturating_add(other.g);
        self.b = self.b.saturating_add(other.b);
    }
}

/// The channel-wise saturating sum of two colors.
pub open spec fn color_sum(a: Color, b: Color) -> Color {
    Color { r: sat_add(a.r, b.r), g: sat_add(a.g, b.g), b: sat_add(a.b, b.b) }
}

impl std::ops::Add for Color {
    type Output = Color;

    fn add(self, other: Color) -> (c: Color) {
        Color {
            r: self.r.saturating_add(other.r),
            g: self.g.saturating_add(other.g),
            b: self.b.saturating_add(other.b),
        }
    }
}

impl vstd::std_specs::ops::AddSpecImpl for Color {
    open spec fn obeys_add_spec() -> bool {
        true
    }

    open spec fn add_req(self, rhs: Color) -> bool {
        true
    }

    open spec fn add_spec(self, rhs: Color) -> Color {
        color_sum(self, rhs)
    }
}

/// The decimal digit `d`, for `d < 10`.
pub open spec fn digit_char(d: nat) -> char {
    seq!['0', '1', '2', '3', '4', '5', '6', '7', '8', '9'][d as int]
}

/// The decimal numeral of `n`, without leading zeros.
pub open spec fn decimal(n: nat) -> Seq<char>
    decreases n,
{
    if n < 10 {
        seq![digit_char(n)]
    } else {
        decimal(n / 10) + seq![digit_char(n % 10)]
    }
}

/// The text `Color(r: R, g: G, b: B)` with each channel in decimal.
pub open spec fn color_text(r: u8, g: u8, b: u8) -> Seq<char> {
    "Color(r: "@ + decimal(r as nat) + ", g: "@ + decimal(g as nat) + ", b: "@
        + decimal(b as nat) + ")"@
}

/// Relies on std's `format!`, which writes each integer argument in decimal
/// between the literal pieces of the template.
#[verifier::external_body]
fn format_channels(r: u8, g: u8, b: u8) -> (s: String)
    ensures
        s@ == color_text(r, g, b),
{
    format!("Color(r: {}, g: {}, b: {})", r, g, b)
}

impl Color {
    /// A readable form of the color, `Color(r: R, g: G, b: B)`.
    pub fn describe(&self) -> (s: String)
        ensures
            s@ == color_text(self.r, self.g, self.b),
    {
        format_channels(self.r, self.g, self.b)
    }
}

/// Adding two colors never wraps: a channel whose two values sum past 255
/// comes out as exactly 255, and any other channel is the plain sum.
pub proof fn lemma_add_saturates(a: Color, b: Color)
    ensures
        a.r + b.r > 255 ==> color_sum(a, b).r == 255,
        a.g + b.g > 255 ==> color_sum(a, b).g == 255,
        a.b + b.b > 255 ==> color_sum(a, b).b == 255,
        a.r + b.r <= 255 ==> color_sum(a, b).r == a.r + b.r,
        a.g + b.g <= 255 ==> color_sum(a, b).g == a.g + b.g,
        a.b + b.b <= 255 ==> color_sum(a, b).b == a.b + b.b,
{
}

/// Packing a color and reading it back gives the same color.
pub proof fn lemma_hex_round_trip(c: Color)
    ensures
        (packed(c.r, c.g, c.b) as int / 65536) % 256 == c.r,
        (packed(c.r, c.g, c.b) as int / 256) % 256 == c.g,
        packed(c.r, c.g, c.b) as int % 256 == c.b,
{
    let p = c.r as int * 65536 + c.g as int * 256 + c.b as int;
    assert(0 <= p < 0x100_0000);
    assert(p / 65536 == c.r) by (nonlinear_arith)
        requires p == c.r as int * 65536 + c.g as int * 256 + c.b as int, c.g < 256, c.b < 256, c.r < 256, c.g >= 0, c.b >= 0;
    assert((p / 256) % 256 == c.g) by (nonlinear_arith)
        requires p == c.r as int * 65536 + c.g as int * 256 + c.b as int, c.g < 256, c.b < 256, c.r < 256, c.g >= 0, c.b >= 0, c.r >= 0;
    assert(p % 256 == c.b) by (nonlinear_arith)
        requires p == c.r as int * 65536 + c.g as int * 256 + c.b as int, c.g < 256, c.b < 256, c.r < 256, c.g >= 0, c.b >= 0, c.r >= 0;
}

} // verus!
