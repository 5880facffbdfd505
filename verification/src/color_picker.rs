//! The stand-alone picker program: its result type, the label drawn under its magnifier,
//! and the lines it prints when it closes.

use vstd::prelude::*;

use crate::common::{
    dark_text_spec, format_hex_color, hex_color, should_use_dark_text,
    ColorPickerResult as SessionResult,
};
use crate::picker::PickerState;
use crate::text::{append_str, push_char, str_equal, string_of};

verus! {

/// The colours chosen by the stand-alone picker.
#[derive(Clone, Copy, Debug)]
pub struct ColorPickerResult {
    pub foreground: Option<(u8, u8, u8)>,
    pub background: Option<(u8, u8, u8)>,
}

/// The decimal digits of a byte, without leading zeros.
pub open spec fn decimal(x: u8) -> Seq<char> {
    if x < 10 {
        seq![digit_char(x as int)]
    } else if x < 100 {
        seq![digit_char(x as int / 10), digit_char(x as int % 10)]
    } else {
        seq![
            digit_char(x as int / 100),
            digit_char((x as int / 10) % 10),
            digit_char(x as int % 10),
        ]
    }
}

/// The character of a decimal digit.
pub open spec fn digit_char(d: int) -> char {
    ('0' as int + d) as char
}

/// `Label: RGB(r, g, b) | HEX: #RRGGBB`.
pub open spec fn report_line(label: Seq<char>, r: u8, g: u8, b: u8) -> Seq<char> {
    label + ": RGB("@ + decimal(r) + ", "@ + decimal(g) + ", "@ + decimal(b) + ") | HEX: "@
        + hex_color(r, g, b)
}

/// `FG: #RRGGBB` while choosing the foreground, `BG: #RRGGBB` otherwise.
pub open spec fn mode_label(fg_mode: bool, r: u8, g: u8, b: u8) -> Seq<char> {
    (if fg_mode {
        "FG"@
    } else {
        "BG"@
    }) + ": "@ + hex_color(r, g, b)
}

/// The lines printed for a session's result: one per chosen colour, foreground first.
pub open spec fn report_lines(result: SessionResult) -> Seq<Seq<char>> {
    (match result.foreground {
        Some((r, g, b)) => seq![report_line("Foreground"@, r, g, b)],
        None => Seq::empty(),
    }) + (match result.background {
        Some((r, g, b)) => seq![report_line("Background"@, r, g, b)],
        None => Seq::empty(),
    })
}

/// Formats an RGB colour as `#RRGGBB`.
pub fn format_color(r: u8, g: u8, b: u8) -> (s: String)
    ensures
        s@ == hex_color(r, g, b),
{
    format_hex_color(r, g, b)
}

/// The character of a decimal digit below 10.
fn digit(d: u8) -> (c: char)
    requires
        d < 10,
    ensures
        c == digit_char(d as int),
{
    ((48 + d) as char)
}

/// Appends the decimal digits of `x` to `s`.
fn push_decimal(s: &mut String, x: u8)
    ensures
        final(s)@ == old(s)@ + decimal(x),
{
    if x >= 100 {
        push_char(s, digit(x / 100));
    }
    if x >= 10 {
        push_char(s, digit((x / 10) % 10));
    }
    push_char(s, digit(x % 10));
    assert(final(s)@ =~= old(s)@ + decimal(x));
}

/// `Label: RGB(r, g, b) | HEX: #RRGGBB`, the line printed for a chosen colour.
pub fn format_report_line(label: &str, r: u8, g: u8, b: u8) -> (s: String)
    ensures
        s@ == report_line(label@, r, g, b),
{
    let mut s = string_of(label);
    append_str(&mut s, ": RGB(");
    push_decimal(&mut s, r);
    append_str(&mut s, ", ");
    push_decimal(&mut s, g);
    append_str(&mut s, ", ");
    push_decimal(&mut s, b);
    append_str(&mut s, ") | HEX: ");
    let hex = format_hex_color(r, g, b);
    append_str(&mut s, hex.as_str());
    assert(s@ =~= report_line(label@, r, g, b));
    s
}

/// The lines to print when the picker closes, one per chosen colour, foreground first.
pub fn report(result: &SessionResult) -> (lines: Vec<String>)
    ensures
        lines@.len() == report_lines(*result).len(),
        forall|i: int| 0 <= i < lines@.len() ==> #[trigger] lines@[i]@ == report_lines(*result)[i],
{
    let mut lines: Vec<String> = Vec::new();
    if let Some((r, g, b)) = result.foreground {
        lines.push(format_report_line("Foreground", r, g, b));
    }
    if let Some((r, g, b)) = result.background {
        lines.push(format_report_line("Background", r, g, b));
    }
    lines
}

/// The program fails (exit status 1) when no colour was chosen, as after Escape.
pub fn no_color_selected(result: &SessionResult) -> (failed: bool)
    ensures
        failed == (result.foreground is None && result.background is None),
{
    result.foreground.is_none() && result.background.is_none()
}

/// The label drawn under the magnifier: `FG: #RRGGBB` or `BG: #RRGGBB` for the colour
/// under the cursor, with whether it is drawn in black (`true`) or white.
pub fn mode_hex_label(state: &PickerState) -> (label: (String, bool))
    ensures
        label.0@ == mode_label(state.fg_mode, state.color.0, state.color.1, state.color.2),
        label.1 == dark_text_spec(state.color.0, state.color.1, state.color.2),
{
    let (r, g, b) = state.color;
    let mut s = if state.fg_mode {
        string_of("FG")
    } else {
        string_of("BG")
    };
    append_str(&mut s, ": ");
    let hex = format_hex_color(r, g, b);
    append_str(&mut s, hex.as_str());
    (s, should_use_dark_text(r, g, b))
}

/// The stand-alone picker's result: the chosen colours of the session.
pub fn session_result(state: &PickerState) -> (res: ColorPickerResult)
    ensures
        res.foreground == state.fg_color,
        res.background == state.bg_color,
{
    ColorPickerResult { foreground: state.fg_color, background: state.bg_color }
}

/// Whether the picker starts by choosing the foreground: unless `--bg` is among the
/// program's arguments.
pub fn foreground_mode(args: &Vec<String>) -> (fg: bool)
    ensures
        fg == !(exists|i: int| 0 <= i < args@.len() && #[trigger] args@[i]@ == "--bg"@),
{
    let mut i: usize = 0;
    while i < args.len()
        invariant
            i <= args@.len(),
            forall|j: int| 0 <= j < i ==> #[trigger] args@[j]@ != "--bg"@,
        decreases args@.len() - i,
    {
        if str_equal(args[i].as_str(), "--bg") {
            return false;
        }
        i = i + 1;
    }
    true
}

/// The decimal digits of a byte are one to three characters `0`-`9` (codes 48-57),
/// without a leading zero except for zero itself, whose values read back as the byte.
pub proof fn lemma_decimal_digits(x: u8)
    ensures
        ({
            let d = decimal(x);
            let v = |c: char| c as int - 48;
            &&& 1 <= d.len() <= 3
            &&& forall|i: int| 0 <= i < d.len() ==> 0 <= #[trigger] v(d[i]) < 10
            &&& d.len() > 1 ==> v(d[0]) != 0
            &&& d.len() == 1 ==> v(d[0]) == x
            &&& d.len() == 2 ==> v(d[0]) * 10 + v(d[1]) == x
            &&& d.len() == 3 ==> v(d[0]) * 100 + v(d[1]) * 10 + v(d[2]) == x
        }),
{
}

/// A report line is the label, `: RGB(`, the three components in decimal separated by
/// `, `, then `) | HEX: ` and the `#RRGGBB` code.
pub proof fn lemma_report_line_layout(label: Seq<char>, r: u8, g: u8, b: u8)
    ensures
        report_line(label, r, g, b) == label + seq![':', ' ', 'R', 'G', 'B', '('] + decimal(r)
            + seq![',', ' '] + decimal(g) + seq![',', ' '] + decimal(b) + seq![
            ')',
            ' ',
            '|',
            ' ',
            'H',
            'E',
            'X',
            ':',
            ' ',
        ] + hex_color(r, g, b),
{
    reveal_strlit(": RGB(");
    reveal_strlit(", ");
    reveal_strlit(") | HEX: ");
    assert(": RGB("@ =~= seq![':', ' ', 'R', 'G', 'B', '(']);
    assert(", "@ =~= seq![',', ' ']);
    assert(") | HEX: "@ =~= seq![')', ' ', '|', ' ', 'H', 'E', 'X', ':', ' ']);
}

} // verus!
