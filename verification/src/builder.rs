//! The shared shapes of request bodies: the closed wire-token enumerations
//! and the prompt-key layout that every text-prompt endpoint uses.

use vstd::prelude::*;

use crate::json::ScalarValue;

verus! {

/// The aspect ratio a generation endpoint accepts.
#[derive(Clone, Copy, Debug, PartialEq, Eq, Structural)]
pub enum Proportion {
    Landscape,
    Portrait,
    Square,
    Wide,
}

/// The wire token of a proportion.
pub open spec fn proportion_token(p: Proportion) -> Seq<char> {
    match p {
        Proportion::Landscape => "landscape"@,
        Proportion::Portrait => "portrait"@,
        Proportion::Square => "square"@,
        Proportion::Wide => "wide"@,
    }
}

impl Proportion {
    /// The string form sent on the wire.
    pub fn as_str(&self) -> (r: &'static str)
        ensures
            r@ == proportion_token(*self),
    {
        match self {
            Proportion::Landscape => "landscape",
            Proportion::Portrait => "portrait",
            Proportion::Square => "square",
            Proportion::Wide => "wide",
        }
    }
}

/// The magnification an upscaling endpoint accepts.
#[derive(Clone, Copy, Debug, PartialEq, Eq, Structural)]
pub enum UpscalingFactor {
    Two,
    Four,
    Eight,
}

/// The numeric wire value of an upscaling factor.
pub open spec fn factor_value(f: UpscalingFactor) -> u64 {
    match f {
        UpscalingFactor::Two => 2,
        UpscalingFactor::Four => 4,
        UpscalingFactor::Eight => 8,
    }
}

impl UpscalingFactor {
    /// The number sent on the wire.
    pub fn value(&self) -> (r: u64)
        ensures
            r == factor_value(*self),
    {
        match self {
            UpscalingFactor::Two => 2,
            UpscalingFactor::Four => 4,
            UpscalingFactor::Eight => 8,
        }
    }
}

/// The view of an optional string argument.
pub open spec fn opt_str_view(s: Option<&str>) -> Option<Seq<char>> {
    match s {
        Some(s) => Some(s@),
        None => None,
    }
}

/// The negative prompt actually sent: the caller's, or the empty string —
/// the key is always present on the wire.
pub open spec fn negative_or_empty(neg: Option<Seq<char>>) -> Seq<char> {
    match neg {
        Some(s) => s,
        None => Seq::empty(),
    }
}

/// A body map extended with the two prompt keys that every text-prompt
/// endpoint manages. The prompts are written last: they overwrite whatever
/// the extra parameters bound to those keys.
pub open spec fn with_prompts(
    m: Map<Seq<char>, ScalarValue>,
    prompt: Seq<char>,
    neg: Option<Seq<char>>,
) -> Map<Seq<char>, ScalarValue> {
    m.insert("positive_prompt"@, ScalarValue::Str(prompt)).insert(
        "negative_prompt"@,
        ScalarValue::Str(negative_or_empty(neg)),
    )
}

} // verus!
