use vstd::prelude::*;
use crate::info::{spec_start_translated_post, TranslationRequest};
use crate::lookup::{spec_first_english_text, spec_lookup_post, LookupOutcome};
use crate::model::{LookupError, NoPokemonFoundError, PokemonInfo};
use crate::status::spec_is_success_status;
use crate::text::spec_lower;
use crate::translate::{spec_style, spec_translated_description, TranslationOutcome};

verus! {

/// Law: when the species upstream answers 404 — the looked-up name does not
/// exist — the lookup fails with the distinguished not-found error, never
/// with an upstream or decode error, whatever the response body held.
pub proof fn lemma_lookup_404_is_not_found(
    outcome: LookupOutcome,
    r: Result<PokemonInfo, LookupError>,
)
    requires
        spec_lookup_post(outcome, r),
        outcome matches LookupOutcome::Response { status, .. } && status == 404,
    ensures
        r == Err::<PokemonInfo, LookupError>(LookupError::NotFound(NoPokemonFoundError {})),
{
}

/// Law: when the species upstream answers success but its record holds no
/// English flavor-text entry, the lookup fails with a decode error — a
/// failure distinct from not-found, since the creature itself was found.
pub proof fn lemma_no_english_is_decode_error(
    outcome: LookupOutcome,
    r: Result<PokemonInfo, LookupError>,
)
    requires
        spec_lookup_post(outcome, r),
        outcome matches LookupOutcome::Response { status, body: Some(record) }
            && spec_is_success_status(status) && spec_first_english_text(
            record.flavor_text_entries@,
        ) is None,
    ensures
        r == Err::<PokemonInfo, LookupError>(LookupError::DecodeError),
        !(r matches Err(LookupError::NotFound(_))),
{
}

/// Law: style selection reads the habitat only up to ASCII case — two
/// habitats with the same lowered form select the same style.
pub proof fn lemma_style_ignores_ascii_case(
    habitat_a: Seq<char>,
    habitat_b: Seq<char>,
    is_legendary: bool,
)
    requires
        spec_lower(habitat_a) == spec_lower(habitat_b),
    ensures
        spec_style(habitat_a, is_legendary) == spec_style(habitat_b, is_legendary),
{
}

/// Law: when the translation upstream fails — the transport broke, the
/// status was not 2xx, or the body was malformed — the description stays
/// exactly the original text; with `apply_translation`, whose remaining
/// fields always pass through, the whole record is then unchanged.
pub proof fn lemma_failed_translation_keeps_original(
    original: Seq<char>,
    outcome: TranslationOutcome,
)
    requires
        !(outcome matches TranslationOutcome::Response { status, translated: Some(_) }
            && spec_is_success_status(status)),
    ensures
        spec_translated_description(original, outcome) == original,
{
}

/// Law: when the translation upstream answers success with a well-formed
/// body, the description becomes exactly the translated text it carried.
pub proof fn lemma_successful_translation_replaces_description(
    original: Seq<char>,
    status: u16,
    translated: String,
)
    requires
        spec_is_success_status(status),
    ensures
        spec_translated_description(
            original,
            TranslationOutcome::Response { status, translated: Some(translated) },
        ) == translated@,
{
}

/// Law: whenever the plain path fails, the translated path fails with the
/// very same error — the lookup outcome alone decides the error, and a
/// failed lookup yields no translation request.
pub proof fn lemma_translated_failure_matches_lookup(
    outcome: LookupOutcome,
    r: Result<(PokemonInfo, TranslationRequest), LookupError>,
    plain: Result<PokemonInfo, LookupError>,
    e: LookupError,
)
    requires
        spec_start_translated_post(outcome, r),
        spec_lookup_post(outcome, plain),
        plain == Err::<PokemonInfo, LookupError>(e),
    ensures
        r == Err::<(PokemonInfo, TranslationRequest), LookupError>(e),
{
}

/// Law: when the species upstream answers 404, the translated path fails
/// with the same not-found error as the plain path, and it yields no
/// translation request — the translation upstream receives zero calls.
pub proof fn lemma_404_never_translates(
    outcome: LookupOutcome,
    r: Result<(PokemonInfo, TranslationRequest), LookupError>,
)
    requires
        spec_start_translated_post(outcome, r),
        outcome matches LookupOutcome::Response { status, .. } && status == 404,
    ensures
        r == Err::<(PokemonInfo, TranslationRequest), LookupError>(
            LookupError::NotFound(NoPokemonFoundError {}),
        ),
{
}

} // verus!
