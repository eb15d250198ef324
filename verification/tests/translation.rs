use pokedex::info::{get_info, start_translated_info};
use pokedex::lookup::LookupOutcome;
use pokedex::model::{
    FlavorTextEntry, LookupError, NoPokemonFoundError, PokemonInfo, SpeciesRecord,
    TranslationStyle,
};
use pokedex::translate::{apply_translation, select_style, style_suffix, TranslationOutcome};

fn pokemon(name: &str, habitat: &str, description: &str, is_legendary: bool) -> PokemonInfo {
    PokemonInfo {
        name: name.to_string(),
        description: description.to_string(),
        habitat: habitat.to_string(),
        is_legendary,
    }
}

/// Checks the whole translated step for one creature: the endpoint the style
/// selects, and the description after a successful upstream answer.
fn perform_translation_test(
    pokemon_info: PokemonInfo,
    new_description: String,
    translation_type: String,
) {
    let style = select_style(&pokemon_info.habitat, pokemon_info.is_legendary);
    assert_eq!(style_suffix(style), translation_type);

    let mut translated = pokemon_info.clone();
    apply_translation(
        &mut translated,
        TranslationOutcome::Response {
            status: 200,
            translated: Some(new_description.clone()),
        },
    );

    let expected = PokemonInfo {
        description: new_description,
        ..pokemon_info
    };
    assert_eq!(expected, translated);
}

#[test]
fn shakespeare_translate() {
    perform_translation_test(
        pokemon("pikachu", "forest", "pikachu description ...", false),
        "shakespeare pikachu translation".to_string(),
        "shakespeare.json".to_string(),
    );
}

#[test]
fn cave_yoda_translate() {
    perform_translation_test(
        pokemon("zubat", "cave", "zubat description", false),
        "zubat yoda translation".to_string(),
        "yoda.json".to_string(),
    );
}

#[test]
fn legendary_yoda_translate() {
    perform_translation_test(
        pokemon("mewtwo", "rare", "mewtwo description", true),
        "mewtwo yoda translation".to_string(),
        "yoda.json".to_string(),
    );
}

#[test]
fn failed_translation() {
    let mut pokemon_info = pokemon("pikachu", "forest", "pikachu description ...", false);
    let expected = pokemon_info.clone();
    apply_translation(
        &mut pokemon_info,
        TranslationOutcome::Response {
            status: 429,
            translated: None,
        },
    );
    assert_eq!(expected, pokemon_info);
}

#[test]
fn failed_translation_ignores_decoded_body() {
    // A non-2xx answer keeps the original text even when a body decoded.
    let mut info = pokemon("pikachu", "forest", "pikachu description ...", false);
    let expected = info.clone();
    apply_translation(
        &mut info,
        TranslationOutcome::Response {
            status: 429,
            translated: Some("should be ignored".to_string()),
        },
    );
    assert_eq!(expected, info);
}

#[test]
fn transport_failure_keeps_description() {
    let mut info = pokemon("zubat", "cave", "zubat description", false);
    let expected = info.clone();
    apply_translation(&mut info, TranslationOutcome::TransportFailure);
    assert_eq!(expected, info);
}

#[test]
fn malformed_translation_body_keeps_description() {
    let mut info = pokemon("zubat", "cave", "zubat description", false);
    let expected = info.clone();
    apply_translation(
        &mut info,
        TranslationOutcome::Response {
            status: 200,
            translated: None,
        },
    );
    assert_eq!(expected, info);
}

#[test]
fn style_selection_table() {
    assert_eq!(select_style("cave", false), TranslationStyle::Mystic);
    assert_eq!(select_style("rare", true), TranslationStyle::Mystic);
    assert_eq!(select_style("forest", false), TranslationStyle::Formal);
    assert_eq!(select_style("CAVE", false), TranslationStyle::Mystic);
}

#[test]
fn get_info_maps_lookup_outcome() {
    let record = SpeciesRecord {
        name: "pikachu".to_string(),
        habitat: "forest".to_string(),
        is_legendary: false,
        flavor_text_entries: vec![FlavorTextEntry {
            flavor_text: "pikachu description ...".to_string(),
            language: "en".to_string(),
        }],
    };
    let info = get_info(LookupOutcome::Response {
        status: 200,
        body: Some(record),
    })
    .unwrap();
    assert_eq!(
        info,
        pokemon("pikachu", "forest", "pikachu description ...", false)
    );
}

#[test]
fn start_translated_info_builds_request() {
    let record = SpeciesRecord {
        name: "zubat".to_string(),
        habitat: "cave".to_string(),
        is_legendary: false,
        flavor_text_entries: vec![FlavorTextEntry {
            flavor_text: "zubat description".to_string(),
            language: "en".to_string(),
        }],
    };
    let (info, req) = start_translated_info(LookupOutcome::Response {
        status: 200,
        body: Some(record),
    })
    .unwrap();
    assert_eq!(info, pokemon("zubat", "cave", "zubat description", false));
    assert_eq!(req.path_suffix, "yoda.json");
    assert_eq!(req.text, "zubat description");
}

#[test]
fn start_translated_info_never_translates_on_404() {
    let r = start_translated_info(LookupOutcome::Response {
        status: 404,
        body: None,
    });
    assert!(matches!(
        r,
        Err(LookupError::NotFound(NoPokemonFoundError {}))
    ));
}
