use vstd::prelude::*;

verus! {

/// RGB565 value of an RGB888 color: the top 5 bits of red, 6 of green and
/// 5 of blue, red in the most significant bits.
pub open spec fn rgb565_of(red: u8, green: u8, blue: u8) -> int {
    (red as int / 8) * 2048 + (green as int / 4) * 32 + blue as int / 8
}

/// Convert a RGB888 color to RGB565.
pub fn rgb888_to_rgb565(red: u8, green: u8, blue: u8) -> (r: u16)
    ensures
        r as int == rgb565_of(red, green, blue),
{
    let r = (red >> 3) as u16;
    let g = (green >> 2) as u16;
    let b = (blue >> 3) as u16;
    assert((r << 11) | (g << 5) | b == (red / 8) as u16 * 2048 + (green / 4) as u16 * 32 + (
    blue / 8) as u16) by (bit_vector)
        requires
            r == (red >> 3) as u16,
            g == (green >> 2) as u16,
            b == (blue >> 3) as u16,
    ;
    (r << 11) | (g << 5) | b
}

/// One of the three test colors.
#[derive(Clone, Copy, Debug, PartialEq, Eq, Structural)]
pub enum Color {
    Red,
    Green,
    Blue,
}

/// The 8-bit red, green and blue channels of a color.
pub open spec fn channels_of(c: Color) -> (u8, u8, u8) {
    match c {
        Color::Red => (255u8, 0u8, 0u8),
        Color::Green => (0u8, 255u8, 0u8),
        Color::Blue => (0u8, 0u8, 255u8),
    }
}

/// Little-endian bytes of a 16-bit value.
pub open spec fn le16_bytes(v: int) -> Seq<u8> {
    seq![(v % 256) as u8, (v / 256) as u8]
}

/// The 4-byte pixel of a color: the little-endian bytes of `0x00RRGGBB`,
/// that is blue, green, red, and a zero byte.
pub open spec fn xrgb8888_bytes(c: Color) -> Seq<u8> {
    let (r, g, b) = channels_of(c);
    seq![b, g, r, 0u8]
}

/// The 2-byte pixel of a color: its RGB565 value, little-endian.
pub open spec fn rgb565_bytes(c: Color) -> Seq<u8> {
    let (r, g, b) = channels_of(c);
    le16_bytes(rgb565_of(r, g, b))
}

/// Bytes per pixel that a frame can be painted in.
pub open spec fn supported_bpp(bytes_per_pixel: u32) -> bool {
    bytes_per_pixel == 2 || bytes_per_pixel == 4
}

/// The pixel of a color in a supported format.
pub open spec fn pixel_bytes(c: Color, bytes_per_pixel: u32) -> Seq<u8> {
    if bytes_per_pixel == 2 {
        rgb565_bytes(c)
    } else {
        xrgb8888_bytes(c)
    }
}

/// RGB888 channels that an RGB565 value stands for: each field shifted back
/// to the top of its byte.
pub open spec fn rgb888_of_565(v: int) -> (int, int, int) {
    ((v / 2048) * 8, ((v / 32) % 64) * 4, (v % 32) * 8)
}

/// Channels read back from the bytes of one pixel.
pub open spec fn decoded_channels(bytes: Seq<u8>, bytes_per_pixel: u32) -> (int, int, int) {
    if bytes_per_pixel == 2 {
        rgb888_of_565(bytes[0] + 256 * bytes[1])
    } else {
        (bytes[2] as int, bytes[1] as int, bytes[0] as int)
    }
}

impl Color {
    /// The 8-bit red, green and blue channels.
    pub fn channels(self) -> (r: (u8, u8, u8))
        ensures
            r == channels_of(self),
    {
        match self {
            Color::Red => (255, 0, 0),
            Color::Green => (0, 255, 0),
            Color::Blue => (0, 0, 255),
        }
    }

    /// The color as a 4-byte pixel (`0x00RRGGBB`, little-endian).
    pub fn to_xrgb8888(self) -> (r: [u8; 4])
        ensures
            r@ == xrgb8888_bytes(self),
    {
        let (red, green, blue) = self.channels();
        let r: [u8; 4] = [blue, green, red, 0];
        assert(r@ =~= xrgb8888_bytes(self));
        r
    }

    /// The color as a 2-byte RGB565 pixel, little-endian.
    pub fn to_rgb565(self) -> (r: [u8; 2])
        ensures
            r@ == rgb565_bytes(self),
    {
        let (red, green, blue) = self.channels();
        let v = rgb888_to_rgb565(red, green, blue);
        let r: [u8; 2] = [(v % 256) as u8, (v / 256) as u8];
        assert(r@ =~= rgb565_bytes(self));
        r
    }
}

/// Channels of a 4-byte `0x00RRGGBB` little-endian pixel.
pub fn xrgb8888_to_rgb888(bytes: [u8; 4]) -> (r: (u8, u8, u8))
    ensures
        (r.0 as int, r.1 as int, r.2 as int) == decoded_channels(bytes@, 4),
{
    (bytes[2], bytes[1], bytes[0])
}

/// Channels of a 2-byte little-endian RGB565 pixel, each field shifted back to
/// the top of its byte.
pub fn rgb565_to_rgb888(bytes: [u8; 2]) -> (r: (u8, u8, u8))
    ensures
        (r.0 as int, r.1 as int, r.2 as int) == decoded_channels(bytes@, 2),
{
    let v: u16 = bytes[0] as u16 + 256 * bytes[1] as u16;
    let red = (v / 2048) as u8 * 8;
    let green = ((v / 32) % 64) as u8 * 4;
    let blue = (v % 32) as u8 * 8;
    (red, green, blue)
}

/// Packing a channel triple as RGB565 and reading it back loses only the
/// low bits of each channel: 3 of red, 2 of green and 3 of blue.
pub proof fn lemma_rgb565_round_trip(red: u8, green: u8, blue: u8)
    ensures
        ({
            let (r, g, b) = rgb888_of_565(rgb565_of(red, green, blue));
            &&& r <= red < r + 8
            &&& g <= green < g + 4
            &&& b <= blue < b + 8
        }),
{
    let hi = red as int / 8;
    let mid = green as int / 4;
    let lo = blue as int / 8;
    let v = rgb565_of(red, green, blue);
    assert(v == hi * 2048 + (mid * 32 + lo));
    assert(0 <= mid * 32 + lo < 2048);
    vstd::arithmetic::div_mod::lemma_fundamental_div_mod_converse(v, 2048, hi, mid * 32 + lo);
    assert(v == (hi * 64 + mid) * 32 + lo) by (nonlinear_arith)
        requires
            v == hi * 2048 + (mid * 32 + lo),
    ;
    vstd::arithmetic::div_mod::lemma_fundamental_div_mod_converse(v, 32, hi * 64 + mid, lo);
    vstd::arithmetic::div_mod::lemma_fundamental_div_mod_converse(hi * 64 + mid, 64, hi, mid);
}

/// For each color and each supported format, the pixel read back gives the
/// color's channels exactly in the 4-byte format, and up to the RGB565
/// quantization (3, 2 and 3 low bits) in the 2-byte format.
pub proof fn lemma_pack_then_unpack(c: Color, bytes_per_pixel: u32)
    requires
        supported_bpp(bytes_per_pixel),
    ensures
        ({
            let (red, green, blue) = channels_of(c);
            let (r, g, b) = decoded_channels(pixel_bytes(c, bytes_per_pixel), bytes_per_pixel);
            &&& bytes_per_pixel == 4 ==> r == red && g == green && b == blue
            &&& bytes_per_pixel == 2 ==> r <= red < r + 8 && g <= green < g + 4 && b <= blue < b
                + 8
        }),
{
    let (red, green, blue) = channels_of(c);
    let v = rgb565_of(red, green, blue);
    lemma_rgb565_round_trip(red, green, blue);
    assert(0 <= v < 65536);
    let bytes = le16_bytes(v);
    assert(bytes[0] + 256 * bytes[1] == v);
}

} // verus!
