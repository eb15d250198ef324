use vstd::prelude::*;

verus! {

/// The caller-facing record for one creature. Its `description` holds the
/// first English flavor text of the upstream record, normalized so that no
/// line-break or form-feed character remains.
#[derive(Clone, Debug, PartialEq, Eq)]
pub struct PokemonInfo {
    pub name: String,
    pub description: String,
    pub habitat: String,
    pub is_legendary: bool,
}

/// One flavor-text entry of an upstream species record: a short descriptive
/// text together with the code of the language it is written in.
#[derive(Clone, Debug)]
pub struct FlavorTextEntry {
    pub flavor_text: String,
    pub language: String,
}

/// The raw shape of an upstream species record: name, habitat name,
/// legendary flag, and the flavor-text entries in upstream order.
#[derive(Clone, Debug)]
pub struct SpeciesRecord {
    pub name: String,
    pub habitat: String,
    pub is_legendary: bool,
    pub flavor_text_entries: Vec<FlavorTextEntry>,
}

/// The distinguished "species does not exist upstream" error, which callers
/// detect by its tag rather than by any message text.
#[derive(Clone, Copy, Debug, PartialEq, Eq, Structural)]
pub struct NoPokemonFoundError {}

/// The closed set of lookup failures. `NotFound` means the species upstream
/// answered 404; `UpstreamError` means it answered some other non-2xx status
/// (carried in `status`) or was unreachable (`status` is `None`);
/// `DecodeError` means the body was malformed or held no English flavor text.
#[derive(Clone, Copy, Debug, PartialEq, Eq)]
pub enum LookupError {
    NotFound(NoPokemonFoundError),
    UpstreamError { status: Option<u16> },
    DecodeError,
}

/// The style a description is translated into: `Mystic` for cave or
/// legendary creatures, `Formal` for all others.
#[derive(Clone, Copy, Debug, PartialEq, Eq, Structural)]
pub enum TranslationStyle {
    Formal,
    Mystic,
}

} // verus!
