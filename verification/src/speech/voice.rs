//! The closed tables of supported language codes and synthesis voices, and
//! the index-based voice selection policy.

use vstd::prelude::*;

verus! {

/// A supported language code.
#[derive(Debug, Clone, Copy, PartialEq, Eq, PartialOrd, Ord, Hash)]
pub enum Code {
    JaJP,
}

/// The wire text of a language code.
pub open spec fn code_text(c: Code) -> Seq<char> {
    match c {
        Code::JaJP => "ja-JP"@,
    }
}

impl Code {
    /// The default language code.
    pub fn new() -> (r: Self)
        ensures
            r == Code::JaJP,
    {
        Code::JaJP
    }

    /// The wire text of this language code.
    pub fn to_string(&self) -> (r: String)
        ensures
            r@ == code_text(*self),
    {
        match self {
            Code::JaJP => String::from_str("ja-JP"),
        }
    }
}

/// A synthesis voice of the closed per-language table.
#[derive(Debug, Clone, Copy, PartialEq, Eq, PartialOrd, Ord, Hash)]
pub enum Name {
    JaJPStandardA,
    JaJPStandardB,
    JaJPStandardC,
    JaJPStandardD,
    JaJPNeural2B,
    JaJPNeural2C,
    JaJPNeural2D,
    JaJPWavenetA,
    JaJPWavenetB,
    JaJPWavenetC,
    JaJPWavenetD,
}

/// The wire name of a synthesis voice.
pub open spec fn voice_name_text(n: Name) -> Seq<char> {
    match n {
        Name::JaJPStandardA => "ja-JP-Standard-A"@,
        Name::JaJPStandardB => "ja-JP-Standard-B"@,
        Name::JaJPStandardC => "ja-JP-Standard-C"@,
        Name::JaJPStandardD => "ja-JP-Standard-D"@,
        Name::JaJPNeural2B => "ja-JP-Neural2-B"@,
        Name::JaJPNeural2C => "ja-JP-Neural2-C"@,
        Name::JaJPNeural2D => "ja-JP-Neural2-D"@,
        Name::JaJPWavenetA => "ja-JP-Wavenet-A"@,
        Name::JaJPWavenetB => "ja-JP-Wavenet-B"@,
        Name::JaJPWavenetC => "ja-JP-Wavenet-C"@,
        Name::JaJPWavenetD => "ja-JP-Wavenet-D"@,
    }
}

/// The voice chosen for a zero-based line index: the eleven table entries
/// in order, and every index past the table falls back to the first entry.
pub open spec fn name_of_index(code: Code, n: nat) -> Name {
    match code {
        Code::JaJP => {
            if n == 0 {
                Name::JaJPStandardA
            } else if n == 1 {
                Name::JaJPStandardB
            } else if n == 2 {
                Name::JaJPStandardC
            } else if n == 3 {
                Name::JaJPStandardD
            } else if n == 4 {
                Name::JaJPNeural2B
            } else if n == 5 {
                Name::JaJPNeural2C
            } else if n == 6 {
                Name::JaJPNeural2D
            } else if n == 7 {
                Name::JaJPWavenetA
            } else if n == 8 {
                Name::JaJPWavenetB
            } else if n == 9 {
                Name::JaJPWavenetC
            } else if n == 10 {
                Name::JaJPWavenetD
            } else {
                Name::JaJPStandardA
            }
        },
    }
}

/// The voice selection policy is a closed total function: every index past
/// the table wraps to the default voice, the table's first entry.
pub proof fn lemma_name_of_index_total(code: Code, n: nat)
    ensures
        name_of_index(code, 0) == Name::JaJPStandardA,
        n >= 11 ==> name_of_index(code, n) == Name::JaJPStandardA,
{
}

impl Name {
    /// The default synthesis voice.
    fn new() -> (r: Self)
        ensures
            r == Name::JaJPStandardA,
    {
        Name::JaJPStandardA
    }

    /// Picks the voice for a zero-based line index. Every index is served:
    /// indices past the table fall back to the default voice, so the lookup
    /// always succeeds.
    pub fn from(code: Code, n: u32) -> (r: Option<Self>)
        ensures
            r == Some(name_of_index(code, n as nat)),
    {
        match code {
            Code::JaJP => match n {
                0 => Some(Name::JaJPStandardA),
                1 => Some(Name::JaJPStandardB),
                2 => Some(Name::JaJPStandardC),
                3 => Some(Name::JaJPStandardD),
                4 => Some(Name::JaJPNeural2B),
                5 => Some(Name::JaJPNeural2C),
                6 => Some(Name::JaJPNeural2D),
                7 => Some(Name::JaJPWavenetA),
                8 => Some(Name::JaJPWavenetB),
                9 => Some(Name::JaJPWavenetC),
                10 => Some(Name::JaJPWavenetD),
                _ => Some(Name::new()),
            },
        }
    }

    /// The wire name of this synthesis voice.
    pub fn to_string(&self) -> (r: String)
        ensures
            r@ == voice_name_text(*self),
    {
        match self {
            Name::JaJPStandardA => String::from_str("ja-JP-Standard-A"),
            Name::JaJPStandardB => String::from_str("ja-JP-Standard-B"),
            Name::JaJPStandardC => String::from_str("ja-JP-Standard-C"),
            Name::JaJPStandardD => String::from_str("ja-JP-Standard-D"),
            Name::JaJPNeural2B => String::from_str("ja-JP-Neural2-B"),
            Name::JaJPNeural2C => String::from_str("ja-JP-Neural2-C"),
            Name::JaJPNeural2D => String::from_str("ja-JP-Neural2-D"),
            Name::JaJPWavenetA => String::from_str("ja-JP-Wavenet-A"),
            Name::JaJPWavenetB => String::from_str("ja-JP-Wavenet-B"),
            Name::JaJPWavenetC => String::from_str("ja-JP-Wavenet-C"),
            Name::JaJPWavenetD => String::from_str("ja-JP-Wavenet-D"),
        }
    }
}

} // verus!
