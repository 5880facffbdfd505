//! Colour formatting and text-contrast decisions shared by every platform.

use vstd::prelude::*;

use crate::text::{push_char, string_of};

verus! {

/// The colours chosen in one run of the picker.
#[derive(Clone, Copy, Debug)]
pub struct ColorPickerResult {
    /// Foreground colour, when one was picked.
    pub foreground: Option<(u8, u8, u8)>,
    /// Background colour, when one was picked.
    pub background: Option<(u8, u8, u8)>,
    /// Whether continue mode was on when the picker closed.
    pub continue_mode: bool,
}

impl Default for ColorPickerResult {
    fn default() -> (res: Self)
        ensures
            res.foreground is None,
            res.background is None,
            !res.continue_mode,
    {
        ColorPickerResult { foreground: None, background: None, continue_mode: false }
    }
}

/// Luminance of an RGB colour in thousandths: `1000 * (0.299 R + 0.587 G + 0.114 B)`.
pub open spec fn luminance_milli(r: u8, g: u8, b: u8) -> int {
    299 * r + 587 * g + 114 * b
}

/// Dark text is used on backgrounds whose luminance is above 128 (out of 255).
pub open spec fn dark_text_spec(r: u8, g: u8, b: u8) -> bool {
    luminance_milli(r, g, b) > 128000
}

/// Scaled luminance `299 R + 587 G + 114 B`, the ITU-R BT.601 weights in thousandths.
pub fn calculate_luminance_milli(r: u8, g: u8, b: u8) -> (lum: u32)
    ensures
        lum == luminance_milli(r, g, b),
        lum <= 255000,
{
    299 * (r as u32) + 587 * (g as u32) + 114 * (b as u32)
}

/// Whether text drawn on the background `(r, g, b)` should be black (`true`) or white.
pub fn should_use_dark_text(r: u8, g: u8, b: u8) -> (dark: bool)
    ensures
        dark == dark_text_spec(r, g, b),
{
    calculate_luminance_milli(r, g, b) > 128000
}

/// The upper-case hexadecimal digit for a value below 16.
pub open spec fn hex_digit(d: int) -> char {
    if d < 10 {
        ('0' as int + d) as char
    } else {
        ('A' as int + (d - 10)) as char
    }
}

/// The two upper-case hexadecimal digits of a byte, most significant first.
pub open spec fn byte_hex(x: u8) -> Seq<char> {
    seq![hex_digit(x as int / 16), hex_digit(x as int % 16)]
}

/// `#RRGGBB`: a hash followed by the two-digit upper-case hex code of each component.
pub open spec fn hex_color(r: u8, g: u8, b: u8) -> Seq<char> {
    seq!['#'] + byte_hex(r) + byte_hex(g) + byte_hex(b)
}

/// The separator between a label and its hex code.
pub open spec fn label_separator() -> Seq<char> {
    seq![' ', '-', ' ']
}

/// `Prefix - #RRGGBB`.
pub open spec fn labeled_hex_color(prefix: Seq<char>, r: u8, g: u8, b: u8) -> Seq<char> {
    prefix + label_separator() + hex_color(r, g, b)
}

/// The upper-case hexadecimal digit of a value below 16.
fn hex_digit_char(d: u8) -> (c: char)
    requires
        d < 16,
    ensures
        c == hex_digit(d as int),
{
    if d < 10 {
        ((48 + d) as char)
    } else {
        ((55 + d) as char)
    }
}

/// Appends the two hex digits of `x` to `s`.
fn push_byte_hex(s: &mut String, x: u8)
    ensures
        final(s)@ == old(s)@ + byte_hex(x),
{
    push_char(s, hex_digit_char(x / 16));
    push_char(s, hex_digit_char(x % 16));
    assert(final(s)@ =~= old(s)@ + byte_hex(x));
}

/// Appends `#RRGGBB` to `s`.
fn push_hex_color(s: &mut String, r: u8, g: u8, b: u8)
    ensures
        final(s)@ == old(s)@ + hex_color(r, g, b),
{
    push_char(s, '#');
    push_byte_hex(s, r);
    push_byte_hex(s, g);
    push_byte_hex(s, b);
    assert(final(s)@ =~= old(s)@ + hex_color(r, g, b));
}

/// Formats an RGB colour as `#RRGGBB` with upper-case hex digits.
pub fn format_hex_color(r: u8, g: u8, b: u8) -> (s: String)
    ensures
        s@ == hex_color(r, g, b),
{
    let mut s = String::new();
    push_hex_color(&mut s, r, g, b);
    assert(s@ =~= hex_color(r, g, b));
    s
}

/// Formats a colour with a label, as `Prefix - #RRGGBB`.
pub fn format_labeled_hex_color(prefix: &str, r: u8, g: u8, b: u8) -> (s: String)
    ensures
        s@ == labeled_hex_color(prefix@, r, g, b),
{
    let mut s = string_of(prefix);
    push_char(&mut s, ' ');
    push_char(&mut s, '-');
    push_char(&mut s, ' ');
    push_hex_color(&mut s, r, g, b);
    assert(s@ =~= labeled_hex_color(prefix@, r, g, b));
    s
}

/// Brighter backgrounds never switch black text back to white: raising any component
/// keeps the decision for dark text.
pub proof fn lemma_dark_text_monotone(r1: u8, g1: u8, b1: u8, r2: u8, g2: u8, b2: u8)
    requires
        r1 <= r2,
        g1 <= g2,
        b1 <= b2,
    ensures
        dark_text_spec(r1, g1, b1) ==> dark_text_spec(r2, g2, b2),
{
}

/// Distinct values below 16 have distinct hex digits, and each digit is `0`-`9` or `A`-`F`.
proof fn lemma_hex_digit_injective(d1: int, d2: int)
    requires
        0 <= d1 < 16,
        0 <= d2 < 16,
    ensures
        hex_digit(d1) == hex_digit(d2) ==> d1 == d2,
        ('0' <= hex_digit(d1) <= '9') || ('A' <= hex_digit(d1) <= 'F'),
{
}

/// Distinct bytes have distinct two-digit codes.
proof fn lemma_byte_hex_injective(x: u8, y: u8)
    ensures
        byte_hex(x) == byte_hex(y) ==> x == y,
{
    if byte_hex(x) == byte_hex(y) {
        assert(byte_hex(x)[0] == byte_hex(y)[0]);
        assert(byte_hex(x)[1] == byte_hex(y)[1]);
        lemma_hex_digit_injective(x as int / 16, y as int / 16);
        lemma_hex_digit_injective(x as int % 16, y as int % 16);
    }
}

/// `#RRGGBB` is seven characters, a hash and six upper-case hex digits, and it tells
/// colours apart: distinct colours never share a code.
pub proof fn lemma_hex_color_shape(r: u8, g: u8, b: u8, r2: u8, g2: u8, b2: u8)
    ensures
        hex_color(r, g, b).len() == 7,
        hex_color(r, g, b)[0] == '#',
        forall|i: int|
            1 <= i < 7 ==> ('0' <= #[trigger] hex_color(r, g, b)[i] <= '9') || ('A' <= hex_color(
                r,
                g,
                b,
            )[i] <= 'F'),
        hex_color(r, g, b) == hex_color(r2, g2, b2) ==> r == r2 && g == g2 && b == b2,
{
    let h = hex_color(r, g, b);
    assert forall|i: int| 1 <= i < 7 implies ('0' <= #[trigger] h[i] <= '9') || ('A' <= h[i]
        <= 'F') by {
        lemma_hex_digit_injective(r as int / 16, 0);
        lemma_hex_digit_injective(r as int % 16, 0);
        lemma_hex_digit_injective(g as int / 16, 0);
        lemma_hex_digit_injective(g as int % 16, 0);
        lemma_hex_digit_injective(b as int / 16, 0);
        lemma_hex_digit_injective(b as int % 16, 0);
    }
    if h == hex_color(r2, g2, b2) {
        let h2 = hex_color(r2, g2, b2);
        assert(byte_hex(r) =~= h.subrange(1, 3));
        assert(byte_hex(r2) =~= h2.subrange(1, 3));
        assert(byte_hex(g) =~= h.subrange(3, 5));
        assert(byte_hex(g2) =~= h2.subrange(3, 5));
        assert(byte_hex(b) =~= h.subrange(5, 7));
        assert(byte_hex(b2) =~= h2.subrange(5, 7));
        lemma_byte_hex_injective(r, r2);
        lemma_byte_hex_injective(g, g2);
        lemma_byte_hex_injective(b, b2);
    }
}

/// The value of a hexadecimal digit of either case, if `c` is one.
pub open spec fn hex_value(c: char) -> Option<int> {
    if '0' <= c <= '9' {
        Some(c as int - '0' as int)
    } else if 'a' <= c <= 'f' {
        Some(c as int - 'a' as int + 10)
    } else if 'A' <= c <= 'F' {
        Some(c as int - 'A' as int + 10)
    } else {
        None
    }
}

/// A byte written as two base-16 characters: two digits, or a `+` sign and one digit.
pub open spec fn parse_hex_pair(c1: char, c2: char) -> Option<u8> {
    if c1 == '+' {
        match hex_value(c2) {
            Some(v) => Some(v as u8),
            None => None,
        }
    } else {
        match (hex_value(c1), hex_value(c2)) {
            (Some(a), Some(b)) => Some((16 * a + b) as u8),
            _ => None,
        }
    }
}

/// A parsed component, or zero when the pair is not a base-16 byte.
pub open spec fn pair_or_zero(c1: char, c2: char) -> u8 {
    match parse_hex_pair(c1, c2) {
        Some(v) => v,
        None => 0,
    }
}

/// The components read back from a `#RRGGBB` code: the character after the first and the
/// five after it, two per component; a pair that is not a base-16 byte reads as zero.
pub open spec fn hex_components(s: Seq<char>) -> (u8, u8, u8) {
    (pair_or_zero(s[1], s[2]), pair_or_zero(s[3], s[4]), pair_or_zero(s[5], s[6]))
}

/// The value of a hexadecimal digit of either case.
fn hex_digit_value(c: char) -> (v: Option<u8>)
    ensures
        match hex_value(c) {
            Some(x) => v == Some(x as u8) && 0 <= x < 16,
            None => v is None,
        },
{
    if '0' <= c && c <= '9' {
        Some((c as u32 - '0' as u32) as u8)
    } else if 'a' <= c && c <= 'f' {
        Some((c as u32 - 'a' as u32 + 10) as u8)
    } else if 'A' <= c && c <= 'F' {
        Some((c as u32 - 'A' as u32 + 10) as u8)
    } else {
        None
    }
}

/// Reads a base-16 byte from two characters, zero when they are not one.
fn hex_pair_or_zero(c1: char, c2: char) -> (v: u8)
    ensures
        v == pair_or_zero(c1, c2),
{
    if c1 == '+' {
        match hex_digit_value(c2) {
            Some(d) => d,
            None => 0,
        }
    } else {
        match (hex_digit_value(c1), hex_digit_value(c2)) {
            (Some(a), Some(b)) => 16 * a + b,
            _ => 0,
        }
    }
}

/// Reads the components back from a `#RRGGBB` code; a pair that is not a base-16 byte
/// gives zero.
pub fn parse_hex_color(hex: &str) -> (rgb: (u8, u8, u8))
    requires
        hex@.len() >= 7,
        forall|i: int| 0 <= i < 7 ==> (hex@[i] as u32) < 128,
    ensures
        rgb == hex_components(hex@),
{
    let r = hex_pair_or_zero(hex.get_char(1), hex.get_char(2));
    let g = hex_pair_or_zero(hex.get_char(3), hex.get_char(4));
    let b = hex_pair_or_zero(hex.get_char(5), hex.get_char(6));
    (r, g, b)
}

/// Reading a digit back gives the value it was written for.
proof fn lemma_hex_digit_value(d: int)
    requires
        0 <= d < 16,
    ensures
        hex_value(hex_digit(d)) == Some(d),
        hex_digit(d) != '+',
{
}

/// Reading a `#RRGGBB` code back gives the colour it was written for.
pub proof fn lemma_hex_round_trip(r: u8, g: u8, b: u8)
    ensures
        hex_components(hex_color(r, g, b)) == (r, g, b),
{
    let h = hex_color(r, g, b);
    lemma_hex_digit_value(r as int / 16);
    lemma_hex_digit_value(r as int % 16);
    lemma_hex_digit_value(g as int / 16);
    lemma_hex_digit_value(g as int % 16);
    lemma_hex_digit_value(b as int / 16);
    lemma_hex_digit_value(b as int % 16);
    assert(h[1] == hex_digit(r as int / 16) && h[2] == hex_digit(r as int % 16));
    assert(h[3] == hex_digit(g as int / 16) && h[4] == hex_digit(g as int % 16));
    assert(h[5] == hex_digit(b as int / 16) && h[6] == hex_digit(b as int % 16));
}

/// Black text is chosen exactly when the BT.601 luminance `0.299 R + 0.587 G + 0.114 B`
/// is above 128, compared exactly in thousandths.
pub proof fn lemma_dark_text_is_luminance_above_128(r: u8, g: u8, b: u8)
    ensures
        dark_text_spec(r, g, b) <==> 299 * (r as int) + 587 * (g as int) + 114 * (b as int)
            > 128000,
{
}

/// The numeric value of an upper-case hexadecimal digit character.
proof fn lemma_hex_digit_chars(d: int)
    requires
        0 <= d < 16,
    ensures
        d < 10 ==> hex_digit(d) as int == 48 + d,
        d >= 10 ==> hex_digit(d) as int == 55 + d,
{
}

/// `#RRGGBB` spells each component in base 16, most significant digit first, with the
/// digits `0`-`9` (character codes 48-57) and `A`-`F` (65-70).
pub proof fn lemma_hex_color_digits(r: u8, g: u8, b: u8)
    ensures
        ({
            let h = hex_color(r, g, b);
            let v = |c: char| if (c as int) < 65 { c as int - 48 } else { c as int - 55 };
            &&& h.len() == 7
            &&& h[0] == '#'
            &&& v(h[1]) * 16 + v(h[2]) == r as int
            &&& v(h[3]) * 16 + v(h[4]) == g as int
            &&& v(h[5]) * 16 + v(h[6]) == b as int
            &&& forall|i: int| 1 <= i < 7 ==> 0 <= #[trigger] v(h[i]) < 16
        }),
{
    lemma_hex_digit_chars(r as int / 16);
    lemma_hex_digit_chars(r as int % 16);
    lemma_hex_digit_chars(g as int / 16);
    lemma_hex_digit_chars(g as int % 16);
    lemma_hex_digit_chars(b as int / 16);
    lemma_hex_digit_chars(b as int % 16);
    let h = hex_color(r, g, b);
    assert(h[1] == hex_digit(r as int / 16) && h[2] == hex_digit(r as int % 16));
    assert(h[3] == hex_digit(g as int / 16) && h[4] == hex_digit(g as int % 16));
    assert(h[5] == hex_digit(b as int / 16) && h[6] == hex_digit(b as int % 16));
}

/// A labelled code is the label, a space, a hyphen, a space, then the `#RRGGBB` code.
pub proof fn lemma_labeled_hex_layout(prefix: Seq<char>, r: u8, g: u8, b: u8)
    ensures
        labeled_hex_color(prefix, r, g, b).len() == prefix.len() + 10,
        labeled_hex_color(prefix, r, g, b).subrange(0, prefix.len() as int) == prefix,
        labeled_hex_color(prefix, r, g, b)[prefix.len() as int] == ' ',
        labeled_hex_color(prefix, r, g, b)[prefix.len() as int + 1] == '-',
        labeled_hex_color(prefix, r, g, b)[prefix.len() as int + 2] == ' ',
        labeled_hex_color(prefix, r, g, b).subrange(prefix.len() as int + 3, prefix.len() as int + 10)
            == hex_color(r, g, b),
{
    let l = labeled_hex_color(prefix, r, g, b);
    assert(l.subrange(0, prefix.len() as int) =~= prefix);
    assert(l.subrange(prefix.len() as int + 3, prefix.len() as int + 10) =~= hex_color(r, g, b));
}

/// A pair of base-16 characters reads as its value: digits `0`-`9`, `a`-`f` and `A`-`F`
/// count 0 to 15, the first digit sixteen times; a `+` in front of one digit reads as
/// that digit; any other pair is not a byte.
pub proof fn lemma_hex_pair_values(c1: char, c2: char)
    ensures
        ({
            let dv = |c: char| if '0' <= c <= '9' {
                c as int - 48
            } else if 'a' <= c <= 'f' {
                c as int - 87
            } else if 'A' <= c <= 'F' {
                c as int - 55
            } else {
                -1
            };
            &&& c1 != '+' && dv(c1) >= 0 && dv(c2) >= 0 ==> parse_hex_pair(c1, c2) == Some(
                (dv(c1) * 16 + dv(c2)) as u8,
            )
            &&& c1 == '+' && dv(c2) >= 0 ==> parse_hex_pair(c1, c2) == Some(dv(c2) as u8)
            &&& c1 == '+' && dv(c2) < 0 ==> parse_hex_pair(c1, c2) is None
            &&& c1 != '+' && (dv(c1) < 0 || dv(c2) < 0) ==> parse_hex_pair(c1, c2) is None
        }),
{
}

} // verus!
