use vstd::prelude::*;
use crate::model::{PokemonInfo, TranslationStyle};
use crate::status::{is_success_status, spec_is_success_status};
use crate::text::{eq_ignore_ascii_case, spec_lower};

verus! {

/// A habitat names the cave category when it equals "cave" up to ASCII case.
pub open spec fn spec_is_cave(habitat: Seq<char>) -> bool {
    spec_lower(habitat) == seq!['c', 'a', 'v', 'e']
}

/// The translation style a creature selects: `Mystic` when its habitat is
/// the cave category or it is legendary, `Formal` in every other case. The
/// legendary condition is a deliberate part of the rule: a legendary
/// creature translates mystically even outside a cave.
pub open spec fn spec_style(habitat: Seq<char>, is_legendary: bool) -> TranslationStyle {
    if spec_is_cave(habitat) || is_legendary {
        TranslationStyle::Mystic
    } else {
        TranslationStyle::Formal
    }
}

/// Selects the translation style from a creature's habitat and legendary
/// flag; a pure function of those two values alone.
pub fn select_style(habitat: &str, is_legendary: bool) -> (r: TranslationStyle)
    ensures
        r == spec_style(habitat@, is_legendary),
{
    proof {
        reveal_strlit("cave");
        assert(spec_lower("cave"@) =~= seq!['c', 'a', 'v', 'e']);
    }
    if is_legendary || eq_ignore_ascii_case(habitat, "cave") {
        TranslationStyle::Mystic
    } else {
        TranslationStyle::Formal
    }
}

/// The path suffix of the translation endpoint a style maps to.
pub open spec fn spec_style_suffix(style: TranslationStyle) -> Seq<char> {
    match style {
        TranslationStyle::Mystic => "yoda.json"@,
        TranslationStyle::Formal => "shakespeare.json"@,
    }
}

/// Maps a style to the path suffix of its translation endpoint.
pub fn style_suffix(style: TranslationStyle) -> (r: &'static str)
    ensures
        r@ == spec_style_suffix(style),
{
    match style {
        TranslationStyle::Mystic => "yoda.json",
        TranslationStyle::Formal => "shakespeare.json",
    }
}

/// What came back from one call of the translation upstream: either the
/// transport failed before a response arrived, or a response arrived with
/// its status code and, where the body decoded into the expected shape, the
/// translated text it carried (`None` marks a malformed body).
pub enum TranslationOutcome {
    TransportFailure,
    Response { status: u16, translated: Option<String> },
}

/// The description after the translation step: the translated text when the
/// upstream answered a 2xx status with a well-formed body, and the original
/// text unchanged on transport failure, a non-2xx status, or a malformed
/// body.
pub open spec fn spec_translated_description(
    original: Seq<char>,
    outcome: TranslationOutcome,
) -> Seq<char> {
    match outcome {
        TranslationOutcome::TransportFailure => original,
        TranslationOutcome::Response { status, translated } => {
            if !spec_is_success_status(status) {
                original
            } else {
                match translated {
                    Some(t) => t@,
                    None => original,
                }
            }
        },
    }
}

/// Applies one translation outcome to a record: replaces the description
/// where the upstream succeeded and leaves it unchanged otherwise. Never
/// fails, and every other field passes through untouched.
pub fn apply_translation(info: &mut PokemonInfo, outcome: TranslationOutcome)
    ensures
        final(info).description@ == spec_translated_description(
            old(info).description@,
            outcome,
        ),
        final(info).name == old(info).name,
        final(info).habitat == old(info).habitat,
        final(info).is_legendary == old(info).is_legendary,
{
    match outcome {
        TranslationOutcome::TransportFailure => {},
        TranslationOutcome::Response { status, translated } => {
            if is_success_status(status) {
                match translated {
                    Some(t) => {
                        info.description = t;
                    },
                    None => {},
                }
            }
        },
    }
}

} // verus!
