//! The SRT subtitle entry model and the force-style helpers handed to the
//! video compositor.
//!
//! All elapsed times are non-negative durations counted in milliseconds.

use vstd::prelude::*;

use crate::textfmt::{
    dec_digits, int_text, min_two_dec_digits, push_dec, push_min_two_dec, push_signed_dec,
    push_three_dec, push_two_dec, push_two_hex, three_dec_digits, two_dec_digits, two_hex_digits,
};

verus! {

/// One timed subtitle entry in SRT form. `start_time` and `end_time` are
/// elapsed milliseconds from the start of the run.
pub struct Subtitle {
    pub id: i32,
    pub start_time: u64,
    pub end_time: u64,
    pub text: String,
    pub style: Option<Style>,
}

/// Timestamp text `HH:MM:SS,mmm`: two-digit (or wider) hours, two-digit
/// minutes and seconds, and the full three-digit millisecond remainder.
pub open spec fn srt_time_text(millis: nat) -> Seq<char> {
    min_two_dec_digits(millis / 1000 / 3600) + seq![':'] + two_dec_digits(
        (millis / 1000) % 3600 / 60,
    ) + seq![':'] + two_dec_digits((millis / 1000) % 60) + seq![','] + three_dec_digits(
        millis % 1000,
    )
}

/// Formats an elapsed time in milliseconds as `HH:MM:SS,mmm`.
pub fn format_duration_as_srt_time(millis: u64) -> (r: String)
    ensures
        r@ == srt_time_text(millis as nat),
{
    let total_seconds = millis / 1000;
    let hours = total_seconds / 3600;
    let minutes = (total_seconds % 3600) / 60;
    let seconds = total_seconds % 60;
    let subsec_millis = millis % 1000;
    let mut s = String::new();
    push_min_two_dec(&mut s, hours);
    s.append(":");
    push_two_dec(&mut s, minutes);
    s.append(":");
    push_two_dec(&mut s, seconds);
    s.append(",");
    push_three_dec(&mut s, subsec_millis);
    proof {
        reveal_strlit(":");
        reveal_strlit(",");
        assert(s@ =~= srt_time_text(millis as nat));
    }
    s
}

/// One rendered SRT entry: the numeric id, the start and end timestamps
/// joined by an arrow, the raw entry text, and a blank separator line.
pub open spec fn srt_entry_text(sub: Subtitle) -> Seq<char> {
    int_text(sub.id as int) + seq!['\n'] + srt_time_text(sub.start_time as nat) + " --> "@
        + srt_time_text(sub.end_time as nat) + seq!['\n'] + sub.text@ + "\n\n"@
}

impl Subtitle {
    /// Renders this entry in SRT form.
    pub fn to_string(&self) -> (r: String)
        ensures
            r@ == srt_entry_text(*self),
    {
        let mut s = String::new();
        push_signed_dec(&mut s, self.id as i64);
        s.append("\n");
        let start = format_duration_as_srt_time(self.start_time);
        s.append(start.as_str());
        s.append(" --> ");
        let end = format_duration_as_srt_time(self.end_time);
        s.append(end.as_str());
        s.append("\n");
        s.append(self.text.as_str());
        s.append("\n\n");
        proof {
            reveal_strlit("\n");
            assert(s@ =~= srt_entry_text(*self));
        }
        s
    }
}

/// A caption style handed to the video compositor's force-style option.
pub struct Style {
    pub font_family: String,
    pub font_size: u32,
    pub font_color: Color,
    pub font_alpha: u8,
    pub border_style: u32,
    pub border_color: Color,
    pub border_alpha: u8,
    pub outline_style: u32,
    pub shadow_style: u32,
    pub background_color: Color,
    pub background_alpha: u8,
    pub x1: u32,
    pub y1: u32,
    pub x2: u32,
    pub y2: u32,
}

/// The force-style text of a style: the comma-separated `key=value` fields
/// accepted by the compositor, with `x1` used as the left margin and `y1`
/// as the vertical margin.
pub open spec fn force_style_text(s: Style) -> Seq<char> {
    "Fontname="@ + s.font_family@ + ",Fontsize="@ + dec_digits(s.font_size as nat)
        + ",PrimaryColour="@ + color_text(s.font_color, s.font_alpha) + ",BorderStyle="@
        + dec_digits(s.border_style as nat) + ",BorderColour="@ + color_text(
        s.border_color,
        s.border_alpha,
    ) + ",Outline="@ + dec_digits(s.outline_style as nat) + ",Shadow="@ + dec_digits(
        s.shadow_style as nat,
    ) + ",BackColour="@ + color_text(s.background_color, s.background_alpha) + ",MarginL="@
        + dec_digits(s.x1 as nat) + ",MarginV="@ + dec_digits(s.y1 as nat)
}

impl Style {
    /// Generates the style string for the compositor's force-style option.
    pub fn to_style(&self) -> (r: String)
        ensures
            r@ == force_style_text(*self),
    {
        let mut s = String::from_str("Fontname=");
        s.append(self.font_family.as_str());
        s.append(",Fontsize=");
        push_dec(&mut s, self.font_size as u64);
        s.append(",PrimaryColour=");
        let font_color = self.font_color.to_string(self.font_alpha);
        s.append(font_color.as_str());
        s.append(",BorderStyle=");
        push_dec(&mut s, self.border_style as u64);
        s.append(",BorderColour=");
        let border_color = self.border_color.to_string(self.border_alpha);
        s.append(border_color.as_str());
        s.append(",Outline=");
        push_dec(&mut s, self.outline_style as u64);
        s.append(",Shadow=");
        push_dec(&mut s, self.shadow_style as u64);
        s.append(",BackColour=");
        let background_color = self.background_color.to_string(self.background_alpha);
        s.append(background_color.as_str());
        s.append(",MarginL=");
        push_dec(&mut s, self.x1 as u64);
        s.append(",MarginV=");
        push_dec(&mut s, self.y1 as u64);
        proof {
            assert(s@ =~= force_style_text(*self));
        }
        s
    }
}

/// A caption color of the fixed palette.
pub enum Color {
    Red,
    Green,
    Blue,
    Yellow,
    Orange,
    Cyan,
    Magenta,
    White,
    Brown,
    Gray,
    Black,
}

/// The six-digit lower-case hex code of a palette color.
pub open spec fn color_hex_text(c: Color) -> Seq<char> {
    match c {
        Color::Red => "ef9a9a"@,
        Color::Green => "a5d6a7"@,
        Color::Blue => "90caf9"@,
        Color::Yellow => "fff59d"@,
        Color::Orange => "ffcc80"@,
        Color::Cyan => "80deea"@,
        Color::Magenta => "f48fb1"@,
        Color::White => "ffffff"@,
        Color::Brown => "bcaaa4"@,
        Color::Gray => "eeeeee"@,
        Color::Black => "000000"@,
    }
}

/// The ASS color field `&H` followed by the flipped two-digit alpha and the
/// six-digit color hex code.
pub open spec fn color_text(c: Color, alpha: u8) -> Seq<char> {
    "&H"@ + two_hex_digits((255 - alpha) as nat) + color_hex_text(c)
}

impl Color {
    /// The six-digit lower-case hex code of this color.
    pub fn hex_code(&self) -> (r: &str)
        ensures
            r@ == color_hex_text(*self),
    {
        match self {
            Color::Red => "ef9a9a",
            Color::Green => "a5d6a7",
            Color::Blue => "90caf9",
            Color::Yellow => "fff59d",
            Color::Orange => "ffcc80",
            Color::Cyan => "80deea",
            Color::Magenta => "f48fb1",
            Color::White => "ffffff",
            Color::Brown => "bcaaa4",
            Color::Gray => "eeeeee",
            Color::Black => "000000",
        }
    }

    /// Renders the color as an ASS color field with the given alpha; the
    /// stored alpha is flipped (255 means fully transparent in ASS).
    pub fn to_string(&self, alpha: u8) -> (r: String)
        ensures
            r@ == color_text(*self, alpha),
    {
        let mut s = String::from_str("&H");
        push_two_hex(&mut s, 255 - (alpha as u64));
        s.append(self.hex_code());
        proof {
            assert(s@ =~= color_text(*self, alpha));
        }
        s
    }
}

} // verus!
