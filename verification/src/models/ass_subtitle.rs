//! The ASS subtitle document model: timed cues, caption styles, text
//! escaping, timestamp formatting, and the document builder.
//!
//! All elapsed times are non-negative durations counted in milliseconds.

use vstd::prelude::*;

use crate::textfmt::{
    dec_digits, digit_char, is_dec_digit, lemma_dec_digits_shape, push_dec, push_digit,
    push_two_dec, push_two_hex, two_dec_digits, two_hex_digits,
};

verus! {

/// One timed subtitle event. `start_time` and `end_time` are elapsed
/// milliseconds from the start of the run; a cue never ends before it
/// starts when produced by the timeline accumulator.
pub struct Subtitle {
    pub id: i32,
    pub start_time: u64,
    pub end_time: u64,
    pub text: String,
    pub style_name: Option<StyleType>,
}

/// Timestamp text `H:MM:SS.CC`: unpadded hours, two-digit minutes and
/// seconds, and a two-digit centisecond field obtained by truncating the
/// milliseconds to hundredths.
pub open spec fn time_text(millis: nat) -> Seq<char> {
    dec_digits(millis / 1000 / 3600) + seq![':'] + two_dec_digits((millis / 1000) % 3600 / 60)
        + seq![':'] + two_dec_digits((millis / 1000) % 60) + seq!['.'] + two_dec_digits(
        (millis % 1000) / 10,
    )
}

/// Formats an elapsed time in milliseconds as `H:MM:SS.CC`.
pub fn format_duration_as_time(millis: u64) -> (r: String)
    ensures
        r@ == time_text(millis as nat),
{
    let total_seconds = millis / 1000;
    let hours = total_seconds / 3600;
    let minutes = (total_seconds % 3600) / 60;
    let seconds = total_seconds % 60;
    let centis = (millis % 1000) / 10;
    let mut s = String::new();
    push_dec(&mut s, hours);
    s.append(":");
    push_two_dec(&mut s, minutes);
    s.append(":");
    push_two_dec(&mut s, seconds);
    s.append(".");
    push_two_dec(&mut s, centis);
    proof {
        reveal_strlit(":");
        reveal_strlit(".");
        assert(s@ =~= time_text(millis as nat));
    }
    s
}

/// The timestamp text always matches `H+:MM:SS.CC`: one or more hour
/// digits, then two-digit minutes below sixty, two-digit seconds below
/// sixty, and two-digit centiseconds below one hundred, every field made of
/// decimal digits only.
pub proof fn lemma_time_text_shape(millis: nat)
    ensures
        (millis / 1000) % 3600 / 60 < 60,
        (millis / 1000) % 60 < 60,
        (millis % 1000) / 10 < 100,
        dec_digits(millis / 1000 / 3600).len() >= 1,
        forall|i: int|
            0 <= i < dec_digits(millis / 1000 / 3600).len() ==> is_dec_digit(
                #[trigger] dec_digits(millis / 1000 / 3600)[i],
            ),
        forall|n: nat|
            #[trigger] two_dec_digits(n).len() == 2 && is_dec_digit(two_dec_digits(n)[0])
                && is_dec_digit(two_dec_digits(n)[1]),
{
    lemma_dec_digits_shape(millis / 1000 / 3600);
}

/// The text with an explicit line break inserted after every occurrence of
/// the sentence-ending mark.
pub open spec fn break_inserted(s: Seq<char>) -> Seq<char>
    decreases s.len(),
{
    if s.len() == 0 {
        Seq::empty()
    } else {
        break_inserted(s.drop_last()) + (if s.last() == '。' {
            seq!['。', '\n']
        } else {
            seq![s.last()]
        })
    }
}

/// The escaped cue text: a line break follows every sentence-ending mark,
/// and the single break left dangling by a mark at the very end of the text
/// is stripped again (exactly the inserted marker, nothing more).
pub open spec fn escaped_text(s: Seq<char>) -> Seq<char> {
    if s.len() > 0 && s.last() == '。' {
        break_inserted(s).drop_last()
    } else {
        break_inserted(s)
    }
}

/// Text without the sentence-ending mark is left exactly as it is.
pub proof fn lemma_escape_without_mark(s: Seq<char>)
    requires
        forall|i: int| 0 <= i < s.len() ==> s[i] != '。',
    ensures
        escaped_text(s) == s,
    decreases s.len(),
{
    if s.len() == 0 {
        assert(escaped_text(s) =~= s);
    } else {
        lemma_escape_without_mark(s.drop_last());
        assert(escaped_text(s.drop_last()) == break_inserted(s.drop_last()));
        assert(escaped_text(s) =~= s);
    }
}

/// Inserts a line break after every sentence-ending mark and strips the
/// one trailing break that a mark at the very end would leave behind.
pub fn escape_ass_text(text: &str) -> (r: String)
    ensures
        r@ == escaped_text(text@),
{
    let n = text.unicode_len();
    let mut s = String::new();
    let mut i: usize = 0;
    while i < n
        invariant
            n == text@.len(),
            i <= n,
            i < n ==> s@ == break_inserted(text@.take(i as int)),
            i == n ==> s@ == escaped_text(text@),
        decreases n - i,
    {
        let piece = text.substring_char(i, i + 1);
        let c = text.get_char(i);
        s.append(piece);
        proof {
            assert(text@.take(i + 1 as int).drop_last() =~= text@.take(i as int));
            assert(text@.take(i + 1 as int).last() == c);
        }
        if c == '。' {
            if i + 1 < n {
                s.append("\n");
                proof {
                    reveal_strlit("\n");
                    assert(s@ =~= break_inserted(text@.take(i + 1 as int)));
                }
            } else {
                proof {
                    assert(text@.take(n as int) =~= text@);
                    assert(break_inserted(text@) == break_inserted(text@.take(i as int)) + seq![
                        '。',
                        '\n',
                    ]);
                    assert(s@ =~= break_inserted(text@).drop_last());
                }
            }
        } else {
            proof {
                assert(s@ =~= break_inserted(text@.take(i + 1 as int)));
                if i + 1 == n {
                    assert(text@.take(n as int) =~= text@);
                }
            }
        }
        i = i + 1;
    }
    proof {
        if n == 0 {
            assert(text@.len() == 0);
            assert(s@ =~= escaped_text(text@));
        }
    }
    s
}

/// The closed set of caption style identifiers. Their listed order is the
/// canonical catalog order used for deterministic document emission.
#[derive(Debug, Clone, Copy, PartialEq, Eq, PartialOrd, Ord)]
pub enum StyleType {
    Default,
    Red,
    Green,
    Blue,
    Yellow,
    Orange,
    Cyan,
    Magenta,
    Brown,
    Gray,
}

/// The style chosen for a zero-based line index: index zero and every index
/// past the table wrap to the default style; indices one through nine pick
/// the remaining styles in catalog order.
pub open spec fn style_of_index(n: nat) -> StyleType {
    if n == 1 {
        StyleType::Red
    } else if n == 2 {
        StyleType::Green
    } else if n == 3 {
        StyleType::Blue
    } else if n == 4 {
        StyleType::Yellow
    } else if n == 5 {
        StyleType::Orange
    } else if n == 6 {
        StyleType::Cyan
    } else if n == 7 {
        StyleType::Magenta
    } else if n == 8 {
        StyleType::Brown
    } else if n == 9 {
        StyleType::Gray
    } else {
        StyleType::Default
    }
}

/// The style lookup is a closed total function: index zero maps to the
/// default style, and any index at or past the table size wraps back to the
/// default style instead of failing.
pub proof fn lemma_style_of_index_total(n: nat)
    ensures
        style_of_index(0) == StyleType::Default,
        n >= 10 ==> style_of_index(n) == StyleType::Default,
{
}

/// The display name of a style identifier.
pub open spec fn style_name_text(t: StyleType) -> Seq<char> {
    match t {
        StyleType::Default => "Default"@,
        StyleType::Red => "Red"@,
        StyleType::Green => "Green"@,
        StyleType::Blue => "Blue"@,
        StyleType::Yellow => "Yellow"@,
        StyleType::Orange => "Orange"@,
        StyleType::Cyan => "Cyan"@,
        StyleType::Magenta => "Magenta"@,
        StyleType::Brown => "Brown"@,
        StyleType::Gray => "Gray"@,
    }
}

impl StyleType {
    /// The default style identifier.
    pub fn new() -> (r: Self)
        ensures
            r == StyleType::Default,
    {
        StyleType::Default
    }

    /// Maps a zero-based line index to a style, wrapping any index outside
    /// the table to the default style.
    pub fn from(n: u32) -> (r: Self)
        ensures
            r == style_of_index(n as nat),
    {
        match n {
            1 => StyleType::Red,
            2 => StyleType::Green,
            3 => StyleType::Blue,
            4 => StyleType::Yellow,
            5 => StyleType::Orange,
            6 => StyleType::Cyan,
            7 => StyleType::Magenta,
            8 => StyleType::Brown,
            9 => StyleType::Gray,
            _ => StyleType::Default,
        }
    }

    /// The display name of this style identifier.
    pub fn to_string(&self) -> (r: String)
        ensures
            r@ == style_name_text(*self),
    {
        match self {
            StyleType::Default => String::from_str("Default"),
            StyleType::Red => String::from_str("Red"),
            StyleType::Green => String::from_str("Green"),
            StyleType::Blue => String::from_str("Blue"),
            StyleType::Yellow => String::from_str("Yellow"),
            StyleType::Orange => String::from_str("Orange"),
            StyleType::Cyan => String::from_str("Cyan"),
            StyleType::Magenta => String::from_str("Magenta"),
            StyleType::Brown => String::from_str("Brown"),
            StyleType::Gray => String::from_str("Gray"),
        }
    }
}

/// A caption color of the fixed palette.
pub enum Color {
    Red,
    Green,
    Blue,
    Yellow,
    Orange,
    Cyan,
    Magenta,
    White,
    Brown,
    Gray,
    Black,
}

/// The six-digit lower-case hex code of a palette color.
pub open spec fn color_hex_text(c: Color) -> Seq<char> {
    match c {
        Color::Red => "ef9a9a"@,
        Color::Green => "a5d6a7"@,
        Color::Blue => "90caf9"@,
        Color::Yellow => "fff59d"@,
        Color::Orange => "ffcc80"@,
        Color::Cyan => "80deea"@,
        Color::Magenta => "f48fb1"@,
        Color::White => "ffffff"@,
        Color::Brown => "bcaaa4"@,
        Color::Gray => "eeeeee"@,
        Color::Black => "000000"@,
    }
}

/// The ASS color field `&H` followed by the flipped two-digit alpha and the
/// six-digit color hex code.
pub open spec fn color_text(c: Color, alpha: u8) -> Seq<char> {
    "&H"@ + two_hex_digits((255 - alpha) as nat) + color_hex_text(c)
}

impl Color {
    /// The six-digit lower-case hex code of this color.
    pub fn hex_code(&self) -> (r: &str)
        ensures
            r@ == color_hex_text(*self),
    {
        match self {
            Color::Red => "ef9a9a",
            Color::Green => "a5d6a7",
            Color::Blue => "90caf9",
            Color::Yellow => "fff59d",
            Color::Orange => "ffcc80",
            Color::Cyan => "80deea",
            Color::Magenta => "f48fb1",
            Color::White => "ffffff",
            Color::Brown => "bcaaa4",
            Color::Gray => "eeeeee",
            Color::Black => "000000",
        }
    }

    /// Renders the color as an ASS color field with the given alpha; the
    /// stored alpha is flipped (255 means fully transparent in ASS).
    pub fn to_string(&self, alpha: u8) -> (r: String)
        ensures
            r@ == color_text(*self, alpha),
    {
        let mut s = String::from_str("&H");
        push_two_hex(&mut s, 255 - (alpha as u64));
        s.append(self.hex_code());
        proof {
            assert(s@ =~= color_text(*self, alpha));
        }
        s
    }
}

/// The style name carried by a cue, or the default style if it carries
/// none.
pub open spec fn cue_style(sub: Subtitle) -> StyleType {
    match sub.style_name {
        Some(t) => t,
        None => StyleType::Default,
    }
}

/// One rendered event line of the document: the fixed layer marker, the
/// formatted start and end times, the resolved style name, the fixed
/// placeholder margin and effect fields, and the escaped cue text.
pub open spec fn dialogue_text(sub: Subtitle) -> Seq<char> {
    "Dialogue:0,"@ + time_text(sub.start_time as nat) + ","@ + time_text(sub.end_time as nat)
        + ","@ + style_name_text(cue_style(sub)) + ",,0,0,0,,"@ + escaped_text(sub.text@)
}

impl Subtitle {
    /// Renders this cue as one event line of the document.
    pub fn to_string(&self) -> (r: String)
        ensures
            r@ == dialogue_text(*self),
    {
        let mut s = String::from_str("Dialogue:0,");
        let start = format_duration_as_time(self.start_time);
        s.append(start.as_str());
        s.append(",");
        let end = format_duration_as_time(self.end_time);
        s.append(end.as_str());
        s.append(",");
        let name = match self.style_name {
            Some(t) => t.to_string(),
            None => StyleType::Default.to_string(),
        };
        s.append(name.as_str());
        s.append(",,0,0,0,,");
        let esc = escape_ass_text(self.text.as_str());
        s.append(esc.as_str());
        proof {
            assert(s@ =~= dialogue_text(*self));
        }
        s
    }
}

/// One fully described caption style, rendered as one line of the style
/// table.
pub struct Style {
    pub name: StyleType,
    pub font_family: String,
    pub font_size: u32,
    pub primary_color: Color,
    pub outline_color: Color,
    pub back_color: Color,
    pub bold: bool,
    pub italic: bool,
    pub underline: bool,
    pub strike_out: bool,
    pub scale_x: u32,
    pub scale_y: u32,
    pub spacing: u32,
    pub angle: u32,
    pub border_style: u32,
    pub outline: u32,
    pub shadow: bool,
    pub alignment: u32,
    pub margin_l: u32,
    pub margin_r: u32,
    pub margin_v: u32,
    pub encoding: u32,
}

/// The single digit standing for a flag field.
pub open spec fn bool_digit(b: bool) -> Seq<char> {
    if b {
        seq!['1']
    } else {
        seq!['0']
    }
}

/// The border color paired with each style identifier in the style table.
pub open spec fn border_color_of(t: StyleType) -> Color {
    match t {
        StyleType::Default => Color::Black,
        StyleType::Red => Color::Red,
        StyleType::Green => Color::Green,
        StyleType::Blue => Color::Blue,
        StyleType::Yellow => Color::Yellow,
        StyleType::Orange => Color::Orange,
        StyleType::Cyan => Color::Cyan,
        StyleType::Magenta => Color::Magenta,
        StyleType::Brown => Color::Brown,
        StyleType::Gray => Color::Gray,
    }
}

/// One rendered line of the style table. The secondary color is a fixed
/// black, the border color is paired with the style name, and the stored
/// outline color field does not appear in the rendered line.
pub open spec fn style_text(s: Style) -> Seq<char> {
    "Style:"@ + style_name_text(s.name) + ","@ + s.font_family@ + ","@ + dec_digits(
        s.font_size as nat,
    ) + ","@ + color_text(s.primary_color, 255) + ","@ + color_text(Color::Black, 220) + ","@
        + color_text(border_color_of(s.name), 220) + ","@ + color_text(s.back_color, 220) + ","@
        + bool_digit(s.bold) + ","@ + bool_digit(s.italic) + ","@ + bool_digit(s.underline) + ","@
        + bool_digit(s.strike_out) + ","@ + dec_digits(s.scale_x as nat) + ","@ + dec_digits(
        s.scale_y as nat,
    ) + ","@ + dec_digits(s.spacing as nat) + ","@ + dec_digits(s.angle as nat) + ","@
        + dec_digits(s.border_style as nat) + ","@ + dec_digits(s.outline as nat) + ","@
        + bool_digit(s.shadow) + ","@ + dec_digits(s.alignment as nat) + ","@ + dec_digits(
        s.margin_l as nat,
    ) + ","@ + dec_digits(s.margin_r as nat) + ","@ + dec_digits(s.margin_v as nat) + ","@
        + dec_digits(s.encoding as nat)
}

/// The fields shared by every style of the fixed catalog emitted into the
/// document: the style for the given index, an Arial 48 face, white on
/// black, no flags but a shadow, and uniform margins of 20.
pub open spec fn is_catalog_style(s: Style, n: nat) -> bool {
    &&& s.name == style_of_index(n)
    &&& s.font_family@ == "Arial"@
    &&& s.font_size == 48
    &&& s.primary_color == Color::White
    &&& s.outline_color == Color::Black
    &&& s.back_color == Color::Black
    &&& !s.bold
    &&& !s.italic
    &&& !s.underline
    &&& !s.strike_out
    &&& s.scale_x == 100
    &&& s.scale_y == 100
    &&& s.spacing == 0
    &&& s.angle == 0
    &&& s.border_style == 1
    &&& s.outline == 2
    &&& s.shadow
    &&& s.alignment == 2
    &&& s.margin_l == 20
    &&& s.margin_r == 20
    &&& s.margin_v == 20
    &&& s.encoding == 1
}

/// Like the catalog styles but with the default style name and uniform
/// margins of 10.
pub open spec fn is_default_style(s: Style) -> bool {
    &&& s.name == StyleType::Default
    &&& s.font_family@ == "Arial"@
    &&& s.font_size == 48
    &&& s.primary_color == Color::White
    &&& s.outline_color == Color::Black
    &&& s.back_color == Color::Black
    &&& !s.bold
    &&& !s.italic
    &&& !s.underline
    &&& !s.strike_out
    &&& s.scale_x == 100
    &&& s.scale_y == 100
    &&& s.spacing == 0
    &&& s.angle == 0
    &&& s.border_style == 1
    &&& s.outline == 2
    &&& s.shadow
    &&& s.alignment == 2
    &&& s.margin_l == 10
    &&& s.margin_r == 10
    &&& s.margin_v == 10
    &&& s.encoding == 1
}

/// The border color paired with a style identifier.
fn border_color(t: &StyleType) -> (r: Color)
    ensures
        r == border_color_of(*t),
{
    match t {
        StyleType::Default => Color::Black,
        StyleType::Red => Color::Red,
        StyleType::Green => Color::Green,
        StyleType::Blue => Color::Blue,
        StyleType::Yellow => Color::Yellow,
        StyleType::Orange => Color::Orange,
        StyleType::Cyan => Color::Cyan,
        StyleType::Magenta => Color::Magenta,
        StyleType::Brown => Color::Brown,
        StyleType::Gray => Color::Gray,
    }
}

/// Appends a separating comma and the decimal text of a numeric field.
fn push_sep_dec(s: &mut String, n: u32)
    ensures
        final(s)@ == old(s)@ + ","@ + dec_digits(n as nat),
{
    s.append(",");
    push_dec(s, n as u64);
}

/// Appends a separating comma and the digit standing for a flag field.
fn push_sep_bool(s: &mut String, b: bool)
    ensures
        final(s)@ == old(s)@ + ","@ + bool_digit(b),
{
    s.append(",");
    if b {
        push_digit(s, 1);
    } else {
        push_digit(s, 0);
    }
    proof {
        assert(s@ =~= old(s)@ + ","@ + bool_digit(b));
    }
}

impl Style {
    /// The default caption style: Arial 48, white on black, margins of 10.
    pub fn default() -> (r: Self)
        ensures
            is_default_style(r),
    {
        Style {
            name: StyleType::Default,
            font_family: String::from_str("Arial"),
            font_size: 48,
            primary_color: Color::White,
            outline_color: Color::Black,
            back_color: Color::Black,
            bold: false,
            italic: false,
            underline: false,
            strike_out: false,
            scale_x: 100,
            scale_y: 100,
            spacing: 0,
            angle: 0,
            border_style: 1,
            outline: 2,
            shadow: true,
            alignment: 2,
            margin_l: 10,
            margin_r: 10,
            margin_v: 10,
            encoding: 1,
        }
    }

    /// The catalog style for a zero-based index: the style the index maps
    /// to, with the shared catalog fields and margins of 20.
    pub fn from(n: u32) -> (r: Self)
        ensures
            is_catalog_style(r, n as nat),
    {
        Style {
            name: StyleType::from(n),
            font_family: String::from_str("Arial"),
            font_size: 48,
            primary_color: Color::White,
            outline_color: Color::Black,
            back_color: Color::Black,
            bold: false,
            italic: false,
            underline: false,
            strike_out: false,
            scale_x: 100,
            scale_y: 100,
            spacing: 0,
            angle: 0,
            border_style: 1,
            outline: 2,
            shadow: true,
            alignment: 2,
            margin_l: 20,
            margin_r: 20,
            margin_v: 20,
            encoding: 1,
        }
    }

    /// The full fixed style catalog, one entry per style identifier in
    /// canonical order.
    pub fn all() -> (r: Vec<Self>)
        ensures
            r@.len() == 10,
            forall|i: int| 0 <= i < 10 ==> is_catalog_style(#[trigger] r@[i], i as nat),
    {
        let mut v: Vec<Style> = Vec::new();
        let mut n: u32 = 0;
        while n < 10
            invariant
                n <= 10,
                v@.len() == n,
                forall|i: int| 0 <= i < n ==> is_catalog_style(#[trigger] v@[i], i as nat),
            decreases 10 - n,
        {
            v.push(Style::from(n));
            n = n + 1;
        }
        v
    }

    /// Renders this style as one line of the style table.
    pub fn to_string(&self) -> (r: String)
        ensures
            r@ == style_text(*self),
    {
        let mut s = String::from_str("Style:");
        let name = self.name.to_string();
        s.append(name.as_str());
        s.append(",");
        s.append(self.font_family.as_str());
        push_sep_dec(&mut s, self.font_size);
        s.append(",");
        let primary = self.primary_color.to_string(255);
        s.append(primary.as_str());
        s.append(",");
        let secondary = Color::Black.to_string(220);
        s.append(secondary.as_str());
        s.append(",");
        let border = border_color(&self.name).to_string(220);
        s.append(border.as_str());
        s.append(",");
        let back = self.back_color.to_string(220);
        s.append(back.as_str());
        push_sep_bool(&mut s, self.bold);
        push_sep_bool(&mut s, self.italic);
        push_sep_bool(&mut s, self.underline);
        push_sep_bool(&mut s, self.strike_out);
        push_sep_dec(&mut s, self.scale_x);
        push_sep_dec(&mut s, self.scale_y);
        push_sep_dec(&mut s, self.spacing);
        push_sep_dec(&mut s, self.angle);
        push_sep_dec(&mut s, self.border_style);
        push_sep_dec(&mut s, self.outline);
        push_sep_bool(&mut s, self.shadow);
        push_sep_dec(&mut s, self.alignment);
        push_sep_dec(&mut s, self.margin_l);
        push_sep_dec(&mut s, self.margin_r);
        push_sep_dec(&mut s, self.margin_v);
        push_sep_dec(&mut s, self.encoding);
        proof {
            assert(s@ =~= style_text(*self));
        }
        s
    }
}

/// The rendered style-table line of the catalog entry for a zero-based
/// index.
pub open spec fn catalog_line(n: nat) -> Seq<char> {
    "Style:"@ + style_name_text(style_of_index(n)) + ","@ + "Arial"@ + ","@ + dec_digits(48)
        + ","@ + color_text(Color::White, 255) + ","@ + color_text(Color::Black, 220) + ","@
        + color_text(border_color_of(style_of_index(n)), 220) + ","@ + color_text(
        Color::Black,
        220,
    ) + ","@ + bool_digit(false) + ","@ + bool_digit(false) + ","@ + bool_digit(false) + ","@
        + bool_digit(false) + ","@ + dec_digits(100) + ","@ + dec_digits(100) + ","@ + dec_digits(
        0,
    ) + ","@ + dec_digits(0) + ","@ + dec_digits(1) + ","@ + dec_digits(2) + ","@ + bool_digit(
        true,
    ) + ","@ + dec_digits(2) + ","@ + dec_digits(20) + ","@ + dec_digits(20) + ","@ + dec_digits(
        20,
    ) + ","@ + dec_digits(1)
}

/// A style with the catalog fields renders exactly as the catalog line of
/// its index.
pub proof fn lemma_catalog_style_text(s: Style, n: nat)
    requires
        is_catalog_style(s, n),
    ensures
        style_text(s) == catalog_line(n),
{
}

/// The catalog lines of the first `n` catalog entries, each followed by a
/// line break.
pub open spec fn catalog_lines(n: nat) -> Seq<char>
    decreases n,
{
    if n == 0 {
        Seq::empty()
    } else {
        catalog_lines((n - 1) as nat) + catalog_line((n - 1) as nat) + seq!['\n']
    }
}

/// The rendered event lines of the cues, in the order they were appended,
/// each followed by a line break.
pub open spec fn dialogue_lines(subs: Seq<Subtitle>) -> Seq<char>
    decreases subs.len(),
{
    if subs.len() == 0 {
        Seq::empty()
    } else {
        dialogue_lines(subs.drop_last()) + dialogue_text(subs.last()) + seq!['\n']
    }
}

/// The fixed script-info header block of every document.
pub open spec fn script_info_text() -> Seq<char> {
    "[Script Info]\n; Script generated by Aegisub 3.2.2\n; http://www.aegisub.org/\nTitle: Default Aegisub file\nScriptType: v4.00+\nWrapStyle: 0\nCollisions: Normal\nPlayResX: 1280\nPlayResY: 720\nTimer: 100.0000\nScaledBorderAndShadow: yes\nYCbCr Matrix: None\n\n"@
}

/// The style-table section marker and its format line.
pub open spec fn styles_header_text() -> Seq<char> {
    "[V4+ Styles]\nFormat:Name,Fontname,Fontsize,PrimaryColour,SecondaryColour,OutlineColour,BackColour,Bold,Italic,Underline,StrikeOut,ScaleX,ScaleY,Spacing,Angle,BorderStyle,Outline,Shadow,Alignment,MarginL,MarginR,MarginV,Encoding\n"@
}

/// The events section marker and its format line.
pub open spec fn events_header_text() -> Seq<char> {
    "[Events]\nFormat:Layer,Start,End,Style,Name,MarginL,MarginR,MarginV,Effect,Text\n"@
}

/// The whole document: the script-info header, the style table with the
/// full fixed catalog, and the events section with one line per cue in
/// appended order. An empty cue sequence still yields the full header and
/// an events section with its header line only.
pub open spec fn ass_document_text(subs: Seq<Subtitle>) -> Seq<char> {
    script_info_text() + styles_header_text() + catalog_lines(10) + "\n\n"@ + events_header_text()
        + dialogue_lines(subs)
}

/// Builder purity: the document text is a function of the cue sequence
/// alone, so building a document twice from the same cues yields
/// byte-identical output.
pub proof fn lemma_document_deterministic(a: Seq<Subtitle>, b: Seq<Subtitle>)
    requires
        a == b,
    ensures
        ass_document_text(a) == ass_document_text(b),
{
}

/// Builds the subtitle document for the given cues: a pure projection of
/// the cue sequence, byte for byte determined by it.
pub fn create_ass_file(subtitles: &[Subtitle]) -> (r: String)
    ensures
        r@ == ass_document_text(subtitles@),
{
    let styles = Style::all();
    let mut content = String::new();
    content.append(
        "[Script Info]\n; Script generated by Aegisub 3.2.2\n; http://www.aegisub.org/\nTitle: Default Aegisub file\nScriptType: v4.00+\nWrapStyle: 0\nCollisions: Normal\nPlayResX: 1280\nPlayResY: 720\nTimer: 100.0000\nScaledBorderAndShadow: yes\nYCbCr Matrix: None\n\n",
    );
    content.append(
        "[V4+ Styles]\nFormat:Name,Fontname,Fontsize,PrimaryColour,SecondaryColour,OutlineColour,BackColour,Bold,Italic,Underline,StrikeOut,ScaleX,ScaleY,Spacing,Angle,BorderStyle,Outline,Shadow,Alignment,MarginL,MarginR,MarginV,Encoding\n",
    );
    let mut i: usize = 0;
    while i < styles.len()
        invariant
            styles@.len() == 10,
            forall|k: int| 0 <= k < 10 ==> is_catalog_style(#[trigger] styles@[k], k as nat),
            i <= 10,
            content@ == script_info_text() + styles_header_text() + catalog_lines(i as nat),
        decreases 10 - i,
    {
        let line = styles[i].to_string();
        proof {
            lemma_catalog_style_text(styles@[i as int], i as nat);
        }
        content.append(line.as_str());
        content.append("\n");
        proof {
            reveal_strlit("\n");
            assert(content@ =~= script_info_text() + styles_header_text() + catalog_lines(
                (i + 1) as nat,
            ));
        }
        i = i + 1;
    }
    content.append("\n\n");
    content.append(
        "[Events]\nFormat:Layer,Start,End,Style,Name,MarginL,MarginR,MarginV,Effect,Text\n",
    );
    let mut j: usize = 0;
    while j < subtitles.len()
        invariant
            j <= subtitles@.len(),
            content@ == script_info_text() + styles_header_text() + catalog_lines(10) + "\n\n"@
                + events_header_text() + dialogue_lines(subtitles@.take(j as int)),
        decreases subtitles@.len() - j,
    {
        let line = vstd::slice::slice_index_get(subtitles, j).to_string();
        content.append(line.as_str());
        content.append("\n");
        proof {
            reveal_strlit("\n");
            assert(subtitles@.take(j + 1 as int).drop_last() =~= subtitles@.take(j as int));
            assert(subtitles@.take(j + 1 as int).last() == subtitles@[j as int]);
            assert(content@ =~= script_info_text() + styles_header_text() + catalog_lines(10)
                + "\n\n"@ + events_header_text() + dialogue_lines(subtitles@.take(j + 1 as int)));
        }
        j = j + 1;
    }
    proof {
        assert(subtitles@.take(subtitles@.len() as int) =~= subtitles@);
        assert(content@ =~= ass_document_text(subtitles@));
    }
    content
}

} // verus!
