use openclips::config::Language;
use openclips::i18n::{load_catalog, tr, translate, Catalogs, Translator};

fn catalogs(spanish: &str) -> Catalogs {
    Catalogs {
        spanish: load_catalog(spanish),
        french: load_catalog("{}"),
        german: load_catalog("not json"),
        russian: load_catalog("[1]"),
        portuguese: load_catalog("{\"Settings\":5}"),
        italian: load_catalog("{}"),
    }
}

#[test]
fn english_is_identity() {
    let c = catalogs("{\"Settings\":\"Ajustes\"}");
    assert_eq!(translate(&c, Language::English, "Settings"), "Settings");
}

#[test]
fn missing_key_falls_back_to_english() {
    let c = catalogs("{\"Settings\":\"Ajustes\"}");
    assert_eq!(
        translate(&c, Language::Spanish, "\u{1}not a real key\u{1}"),
        "\u{1}not a real key\u{1}"
    );
}

#[test]
fn a_catalog_translates() {
    let c = catalogs("{\"Settings\":\"Ajustes\",\"Clips\":\"Clips \\u00a1ya!\"}");
    assert_eq!(translate(&c, Language::Spanish, "Settings"), "Ajustes");
    assert_eq!(translate(&c, Language::Spanish, "Clips"), "Clips \u{a1}ya!");
    assert_eq!(translate(&c, Language::French, "Settings"), "Settings");
}

#[test]
fn a_malformed_catalog_degrades_to_english() {
    let c = catalogs("{}");
    assert_eq!(translate(&c, Language::German, "Settings"), "Settings");
    assert_eq!(translate(&c, Language::Russian, "Settings"), "Settings");
    assert_eq!(translate(&c, Language::Portuguese, "Settings"), "Settings");
}

#[test]
fn the_language_can_be_changed() {
    let mut t = Translator::new(catalogs("{\"Settings\":\"Ajustes\"}"));
    assert_eq!(t.language(), Language::English);
    assert_eq!(tr(&t, "Settings"), "Settings");
    t.set_language(Language::Spanish);
    assert_eq!(tr(&t, "Settings"), "Ajustes");
}
