use vstd::prelude::*;
use crate::model::{FlavorTextEntry, LookupError, NoPokemonFoundError, PokemonInfo, SpeciesRecord};
use crate::status::{is_success_status, spec_is_success_status};
use crate::text::{eq_ignore_ascii_case, normalize_description, spec_lower, spec_normalized};

verus! {

/// A language code names English when it equals "en" up to ASCII case.
pub open spec fn spec_is_english(lang: Seq<char>) -> bool {
    spec_lower(lang) == seq!['e', 'n']
}

/// Executable check that a language code names English.
pub fn is_english_code(lang: &str) -> (r: bool)
    ensures
        r == spec_is_english(lang@),
{
    proof {
        reveal_strlit("en");
        assert(spec_lower("en"@) =~= seq!['e', 'n']);
    }
    eq_ignore_ascii_case(lang, "en")
}

/// The flavor text of the first entry, in upstream order, whose language
/// code names English; `None` when no entry does.
pub open spec fn spec_first_english_text(entries: Seq<FlavorTextEntry>) -> Option<Seq<char>>
    decreases entries.len(),
{
    if entries.len() == 0 {
        None
    } else if spec_is_english(entries[0].language@) {
        Some(entries[0].flavor_text@)
    } else {
        spec_first_english_text(entries.skip(1))
    }
}

/// The description a species record yields: its first English flavor text,
/// normalized; `None` when the record holds no English entry.
pub open spec fn spec_species_description(entries: Seq<FlavorTextEntry>) -> Option<Seq<char>> {
    match spec_first_english_text(entries) {
        Some(t) => Some(spec_normalized(t)),
        None => None,
    }
}

/// What `species_to_info` returns for a given record: on success, a record
/// whose name, habitat and legendary flag are copied verbatim and whose
/// description is the normalized first English flavor text; a decode error
/// exactly when the record holds no English entry.
pub open spec fn spec_species_to_info_post(
    record: SpeciesRecord,
    r: Result<PokemonInfo, LookupError>,
) -> bool {
    match r {
        Ok(info) => {
            &&& Some(info.description@) == spec_species_description(record.flavor_text_entries@)
            &&& info.name@ == record.name@
            &&& info.habitat@ == record.habitat@
            &&& info.is_legendary == record.is_legendary
        },
        Err(e) => {
            &&& spec_species_description(record.flavor_text_entries@) is None
            &&& e == LookupError::DecodeError
        },
    }
}

/// Maps a decoded species record to the caller-facing record, selecting the
/// first English flavor text and normalizing it; fails with a decode error
/// when no entry is English.
pub fn species_to_info(record: SpeciesRecord) -> (r: Result<PokemonInfo, LookupError>)
    ensures
        spec_species_to_info_post(record, r),
{
    let n = record.flavor_text_entries.len();
    let ghost entries = record.flavor_text_entries@;
    proof {
        assert(entries.skip(0) =~= entries);
    }
    let mut j: usize = 0;
    while j < n
        invariant
            0 <= j <= n,
            n == entries.len(),
            entries == record.flavor_text_entries@,
            spec_first_english_text(entries.skip(j as int)) == spec_first_english_text(entries),
        decreases n - j,
    {
        proof {
            assert(entries.skip(j as int)[0] == entries[j as int]);
        }
        if is_english_code(record.flavor_text_entries[j].language.as_str()) {
            let description = normalize_description(record.flavor_text_entries[j].flavor_text.as_str());
            return Ok(PokemonInfo {
                name: record.name,
                description,
                habitat: record.habitat,
                is_legendary: record.is_legendary,
            });
        }
        proof {
            assert(entries.skip(j as int).skip(1) =~= entries.skip(j as int + 1));
        }
        j = j + 1;
    }
    proof {
        assert(entries.skip(n as int) =~= Seq::<FlavorTextEntry>::empty());
    }
    Err(LookupError::DecodeError)
}

/// What came back from one call of the species upstream, as the surrounding
/// program hands it in: either the transport failed before a response
/// arrived, or a response arrived with its status code and, where the body
/// decoded into the expected shape, the decoded record (`None` marks a
/// malformed body).
pub enum LookupOutcome {
    TransportFailure,
    Response { status: u16, body: Option<SpeciesRecord> },
}

/// What `lookup_result` returns for a given upstream outcome: transport
/// failure and non-2xx statuses other than 404 become upstream errors, 404
/// becomes the distinguished not-found error, a malformed 2xx body becomes a
/// decode error, and a decoded record is mapped as `species_to_info` maps it.
pub open spec fn spec_lookup_post(
    outcome: LookupOutcome,
    r: Result<PokemonInfo, LookupError>,
) -> bool {
    match outcome {
        LookupOutcome::TransportFailure => r == Err::<PokemonInfo, LookupError>(
            LookupError::UpstreamError { status: None },
        ),
        LookupOutcome::Response { status, body } => {
            if status == 404 {
                r == Err::<PokemonInfo, LookupError>(
                    LookupError::NotFound(NoPokemonFoundError {}),
                )
            } else if !spec_is_success_status(status) {
                r == Err::<PokemonInfo, LookupError>(
                    LookupError::UpstreamError { status: Some(status) },
                )
            } else {
                match body {
                    None => r == Err::<PokemonInfo, LookupError>(LookupError::DecodeError),
                    Some(record) => spec_species_to_info_post(record, r),
                }
            }
        },
    }
}

/// Classifies one outcome of the species upstream and maps its record, as
/// the species-lookup contract demands. This is the whole per-request
/// decision of a plain lookup: the surrounding program only performs the
/// request and hands the outcome in.
pub fn lookup_result(outcome: LookupOutcome) -> (r: Result<PokemonInfo, LookupError>)
    ensures
        spec_lookup_post(outcome, r),
{
    match outcome {
        LookupOutcome::TransportFailure => Err(LookupError::UpstreamError { status: None }),
        LookupOutcome::Response { status, body } => {
            if status == 404 {
                Err(LookupError::NotFound(NoPokemonFoundError {}))
            } else if !is_success_status(status) {
                Err(LookupError::UpstreamError { status: Some(status) })
            } else {
                match body {
                    None => Err(LookupError::DecodeError),
                    Some(record) => species_to_info(record),
                }
            }
        },
    }
}

} // verus!
