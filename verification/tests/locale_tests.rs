use askme::locale::language_code;

#[test]
fn the_language_is_the_part_before_the_first_separator() {
    assert_eq!(language_code(Some("es-ES")), "es");
    assert_eq!(language_code(Some("fr_FR")), "fr");
    assert_eq!(language_code(Some("zh-Hans-CN")), "zh");
    assert_eq!(language_code(Some("de_DE.UTF-8")), "de");
    assert_eq!(language_code(Some("it")), "it");
    assert_eq!(language_code(Some("en-US")), "en");
}

#[test]
fn a_language_that_is_not_supported_gives_english() {
    assert_eq!(language_code(Some("pt-BR")), "en");
    assert_eq!(language_code(Some("ja")), "en");
    assert_eq!(language_code(Some("ES-es")), "en");
    assert_eq!(language_code(Some("esp")), "en");
    assert_eq!(language_code(Some("e")), "en");
}

#[test]
fn an_empty_or_unknown_locale_gives_english() {
    assert_eq!(language_code(None), "en");
    assert_eq!(language_code(Some("")), "en");
    assert_eq!(language_code(Some("-es")), "en");
    assert_eq!(language_code(Some("_")), "en");
}
