//! Spellcheck state: the enabled flag, the chosen language, and the fixed
//! list of available languages. The dictionary backend is disabled, so no
//! word is ever reported as misspelled; the state handling is still exact.

use vstd::prelude::*;

verus! {

use vstd::string::StringExecFns;

/// Owns the spellcheck state.
pub struct SpellcheckManager {
    pub enabled: bool,
    pub language: String,
}

impl SpellcheckManager {
    /// A manager that starts disabled, on the default language "en-US".
    pub fn new() -> (r: Self)
        ensures
            !r.enabled,
            r.language@ == "en-US"@,
    {
        SpellcheckManager { enabled: false, language: String::from_str("en-US") }
    }

    /// Turns spellchecking on.
    pub fn enable(&mut self)
        ensures
            final(self).enabled,
            final(self).language == old(self).language,
    {
        self.enabled = true;
    }

    /// Turns spellchecking off.
    pub fn disable(&mut self)
        ensures
            !final(self).enabled,
            final(self).language == old(self).language,
    {
        self.enabled = false;
    }

    /// Switches the spellcheck language.
    pub fn set_language(&mut self, lang: String)
        ensures
            final(self).language == lang,
            final(self).enabled == old(self).enabled,
    {
        self.language = lang;
    }

    /// The fixed list of available languages, in its fixed order.
    pub fn get_available_languages() -> (r: Vec<String>)
        ensures
            r@.len() == 6,
            r@[0]@ == "en-US"@,
            r@[1]@ == "en-GB"@,
            r@[2]@ == "fr-FR"@,
            r@[3]@ == "ar"@,
            r@[4]@ == "de"@,
            r@[5]@ == "es"@,
    {
        let mut v: Vec<String> = Vec::new();
        v.push(String::from_str("en-US"));
        v.push(String::from_str("en-GB"));
        v.push(String::from_str("fr-FR"));
        v.push(String::from_str("ar"));
        v.push(String::from_str("de"));
        v.push(String::from_str("es"));
        v
    }

    /// Whether a word is misspelled; with the dictionary backend disabled,
    /// never.
    pub fn is_misspelled(&self, _word: &str) -> (r: bool)
        ensures
            r == false,
    {
        false
    }

    /// Suggestions for a misspelled word; with the dictionary backend
    /// disabled, none.
    pub fn get_suggestions(&self, _word: &str) -> (r: Vec<String>)
        ensures
            r@.len() == 0,
    {
        Vec::new()
    }

    /// The misspelled ranges of a text; since no word is ever reported as
    /// misspelled, always empty.
    pub fn check_text(&self, _text: &str) -> (r: Vec<(usize, usize, String)>)
        ensures
            r@.len() == 0,
    {
        Vec::new()
    }
}

} // verus!
