use messenger_desktop::spellcheck::SpellcheckManager;

#[test]
fn test_spellcheck_default_language() {
    let manager = SpellcheckManager::new();
    assert_eq!(manager.language, "en-US");
}

#[test]
fn test_spellcheck_get_available_languages() {
    let languages = SpellcheckManager::get_available_languages();
    assert!(languages.contains(&"en-US".to_string()));
    assert!(languages.contains(&"fr-FR".to_string()));
}

#[test]
fn test_spellcheck_language_codes_valid() {
    let languages = SpellcheckManager::get_available_languages();
    assert!(!languages.is_empty(), "Should have at least one language");
    for lang in &languages {
        assert!(!lang.is_empty(), "Language code should not be empty");
    }
}

#[test]
fn test_spellcheck_state() {
    let mut manager = SpellcheckManager::new();
    assert!(!manager.enabled);
    manager.enable();
    assert!(manager.enabled);
    manager.set_language("de".to_string());
    assert_eq!(manager.language, "de");
    manager.disable();
    assert!(!manager.enabled);
    assert!(!manager.is_misspelled("wrod"));
    assert!(manager.get_suggestions("wrod").is_empty());
}
