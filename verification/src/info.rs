use vstd::prelude::*;
use crate::lookup::{lookup_result, spec_lookup_post, LookupOutcome};
use crate::model::{LookupError, PokemonInfo};
use crate::translate::{select_style, spec_style, spec_style_suffix, style_suffix};

verus! {

/// What the translated path must POST to the translation upstream once the
/// lookup has succeeded: the path suffix of the endpoint the selected style
/// maps to, and the text to translate, sent as the single form field `text`.
pub struct TranslationRequest {
    pub path_suffix: String,
    pub text: String,
}

/// The plain info path: delegates to the species lookup decision and does
/// nothing more.
pub fn get_info(outcome: LookupOutcome) -> (r: Result<PokemonInfo, LookupError>)
    ensures
        spec_lookup_post(outcome, r),
{
    lookup_result(outcome)
}

/// What `start_translated_info` returns: exactly the lookup decision, and on
/// success also the translation request the program must now send — its path
/// suffix selected by the looked-up habitat and legendary flag, its text the
/// looked-up description. On lookup failure no request exists, so the
/// translation upstream is never called for a failed lookup.
pub open spec fn spec_start_translated_post(
    outcome: LookupOutcome,
    r: Result<(PokemonInfo, TranslationRequest), LookupError>,
) -> bool {
    match r {
        Ok((info, req)) => {
            &&& spec_lookup_post(outcome, Ok(info))
            &&& req.path_suffix@ == spec_style_suffix(
                spec_style(info.habitat@, info.is_legendary),
            )
            &&& req.text@ == info.description@
        },
        Err(e) => spec_lookup_post(outcome, Err(e)),
    }
}

/// Begins the translated path: makes the lookup decision and, on success,
/// computes the translation request for the looked-up record. A lookup
/// failure is returned untouched; translation is never attempted for it.
pub fn start_translated_info(outcome: LookupOutcome) -> (r: Result<
    (PokemonInfo, TranslationRequest),
    LookupError,
>)
    ensures
        spec_start_translated_post(outcome, r),
{
    match lookup_result(outcome) {
        Ok(info) => {
            let style = select_style(info.habitat.as_str(), info.is_legendary);
            let path_suffix = style_suffix(style).to_owned();
            let text = info.description.clone();
            Ok((info, TranslationRequest { path_suffix, text }))
        },
        Err(e) => Err(e),
    }
}

} // verus!
