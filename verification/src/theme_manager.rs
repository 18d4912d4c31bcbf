//! Theme selection and the CSS injected for each theme. The manager owns the
//! current theme; the host injects the (name, css) payload that the mutators
//! hand back.

use vstd::prelude::*;

verus! {

use crate::strutil;
use vstd::string::StringExecFns;

/// The available themes; `Custom` carries its own CSS.
#[derive(Clone, Debug, PartialEq, Eq)]
pub enum Theme {
    Light,
    Dark,
    Darker,
    OledBlack,
    Custom(String),
}

/// The CSS injected for a theme: nothing for `Light`, the fixed dark
/// stylesheets for the three dark themes, and a custom theme's own CSS.
pub open spec fn css_spec(t: Theme) -> Seq<char> {
    match t {
        Theme::Light => Seq::<char>::empty(),
        Theme::Dark => "body{background:#1a1a2e!important;color:#e0e0e0!important;} [role=\"main\"]{background:#1a1a2e!important;} [role=\"navigation\"]{background:#16213e!important;border-color:#0f3460!important;} div[role=\"button\"]{background:#16213e!important;color:#e0e0e0!important;} input,textarea{background:#16213e!important;color:#e0e0e0!important;border-color:#0f3460!important;} [role=\"banner\"]{background:#16213e!important;border-color:#0f3460!important;} [role=\"heading\"]{color:#ffffff!important;} [role=\"listitem\"]{background:#16213e!important;border-color:#0f3460!important;} ::-webkit-scrollbar{background:#1a1a2e!important;} ::-webkit-scrollbar-thumb{background:#0f3460!important;}"@,
        Theme::Darker => "body{background:#0d0d1a!important;color:#e0e0e0!important;} [role=\"main\"]{background:#0d0d1a!important;} [role=\"navigation\"]{background:#0a0a14!important;border-color:#1a1a2e!important;} div[role=\"button\"]{background:#0a0a14!important;color:#e0e0e0!important;} input,textarea{background:#0a0a14!important;color:#e0e0e0!important;border-color:#1a1a2e!important;} [role=\"banner\"]{background:#0a0a14!important;border-color:#1a1a2e!important;} [role=\"heading\"]{color:#ffffff!important;} [role=\"listitem\"]{background:#0a0a14!important;border-color:#1a1a2e!important;} ::-webkit-scrollbar{background:#0d0d1a!important;} ::-webkit-scrollbar-thumb{background:#1a1a2e!important;}"@,
        Theme::OledBlack => "body{background:#000000!important;color:#e0e0e0!important;} [role=\"main\"]{background:#000000!important;} [role=\"navigation\"]{background:#0a0a0a!important;border-color:#1a1a1a!important;} div[role=\"button\"]{background:#0a0a0a!important;color:#e0e0e0!important;} input,textarea{background:#0a0a0a!important;color:#e0e0e0!important;border-color:#1a1a1a!important;} [role=\"banner\"]{background:#0a0a0a!important;border-color:#1a1a1a!important;} [role=\"heading\"]{color:#ffffff!important;} [role=\"listitem\"]{background:#0a0a0a!important;border-color:#1a1a1a!important;} ::-webkit-scrollbar{background:#000000!important;} ::-webkit-scrollbar-thumb{background:#1a1a1a!important;}"@,
        Theme::Custom(css) => css@,
    }
}

/// The theme chosen for a user-supplied name; any unknown name falls back to
/// `Light`, and "custom" starts with empty CSS.
pub open spec fn names_theme(name: Seq<char>, t: Theme) -> bool {
    if name == "light"@ {
        t == Theme::Light
    } else if name == "dark"@ {
        t == Theme::Dark
    } else if name == "darker"@ {
        t == Theme::Darker
    } else if name == "oled-black"@ {
        t == Theme::OledBlack
    } else if name == "custom"@ {
        t matches Theme::Custom(css) && css@ == Seq::<char>::empty()
    } else {
        t == Theme::Light
    }
}

/// The canonical name of a theme.
pub open spec fn theme_name_spec(t: Theme) -> Seq<char> {
    match t {
        Theme::Light => "light"@,
        Theme::Dark => "dark"@,
        Theme::Darker => "darker"@,
        Theme::OledBlack => "oled-black"@,
        Theme::Custom(_) => "custom"@,
    }
}

/// The (name, css) payload the host injects into the webview.
pub struct ThemePayload {
    pub name: String,
    pub css: String,
}

/// Owns the current theme.
pub struct ThemeManager {
    pub current: Theme,
}

impl ThemeManager {
    /// A manager starting on the light theme.
    pub fn new() -> (r: Self)
        ensures
            r.current == Theme::Light,
    {
        ThemeManager { current: Theme::Light }
    }

    /// The CSS injected for a theme.
    pub fn get_css(theme: &Theme) -> (r: String)
        ensures
            r@ == css_spec(*theme),
    {
        match theme {
            Theme::Light => String::new(),
            Theme::Dark => String::from_str(
                "body{background:#1a1a2e!important;color:#e0e0e0!important;} [role=\"main\"]{background:#1a1a2e!important;} [role=\"navigation\"]{background:#16213e!important;border-color:#0f3460!important;} div[role=\"button\"]{background:#16213e!important;color:#e0e0e0!important;} input,textarea{background:#16213e!important;color:#e0e0e0!important;border-color:#0f3460!important;} [role=\"banner\"]{background:#16213e!important;border-color:#0f3460!important;} [role=\"heading\"]{color:#ffffff!important;} [role=\"listitem\"]{background:#16213e!important;border-color:#0f3460!important;} ::-webkit-scrollbar{background:#1a1a2e!important;} ::-webkit-scrollbar-thumb{background:#0f3460!important;}",
            ),
            Theme::Darker => String::from_str(
                "body{background:#0d0d1a!important;color:#e0e0e0!important;} [role=\"main\"]{background:#0d0d1a!important;} [role=\"navigation\"]{background:#0a0a14!important;border-color:#1a1a2e!important;} div[role=\"button\"]{background:#0a0a14!important;color:#e0e0e0!important;} input,textarea{background:#0a0a14!important;color:#e0e0e0!important;border-color:#1a1a2e!important;} [role=\"banner\"]{background:#0a0a14!important;border-color:#1a1a2e!important;} [role=\"heading\"]{color:#ffffff!important;} [role=\"listitem\"]{background:#0a0a14!important;border-color:#1a1a2e!important;} ::-webkit-scrollbar{background:#0d0d1a!important;} ::-webkit-scrollbar-thumb{background:#1a1a2e!important;}",
            ),
            Theme::OledBlack => String::from_str(
                "body{background:#000000!important;color:#e0e0e0!important;} [role=\"main\"]{background:#000000!important;} [role=\"navigation\"]{background:#0a0a0a!important;border-color:#1a1a1a!important;} div[role=\"button\"]{background:#0a0a0a!important;color:#e0e0e0!important;} input,textarea{background:#0a0a0a!important;color:#e0e0e0!important;border-color:#1a1a1a!important;} [role=\"banner\"]{background:#0a0a0a!important;border-color:#1a1a1a!important;} [role=\"heading\"]{color:#ffffff!important;} [role=\"listitem\"]{background:#0a0a0a!important;border-color:#1a1a1a!important;} ::-webkit-scrollbar{background:#000000!important;} ::-webkit-scrollbar-thumb{background:#1a1a1a!important;}",
            ),
            Theme::Custom(css) => css.clone(),
        }
    }

    /// Makes the theme named `name` current (unknown names fall back to
    /// light) and hands back the payload to inject.
    pub fn set_theme(&mut self, name: &str) -> (r: ThemePayload)
        ensures
            names_theme(name@, final(self).current),
            r.name@ == name@,
            r.css@ == css_spec(final(self).current),
    {
        let theme = if strutil::str_eq(name, "light") {
            Theme::Light
        } else if strutil::str_eq(name, "dark") {
            Theme::Dark
        } else if strutil::str_eq(name, "darker") {
            Theme::Darker
        } else if strutil::str_eq(name, "oled-black") {
            Theme::OledBlack
        } else if strutil::str_eq(name, "custom") {
            Theme::Custom(String::new())
        } else {
            Theme::Light
        };
        let css = Self::get_css(&theme);
        self.current = theme;
        ThemePayload { name: String::from_str(name), css }
    }

    /// Makes a custom theme with the given CSS current and hands back the
    /// payload to inject.
    pub fn set_custom_css(&mut self, css: String) -> (r: ThemePayload)
        ensures
            final(self).current == Theme::Custom(css),
            r.name@ == "custom"@,
            r.css == css,
    {
        self.current = Theme::Custom(css.clone());
        ThemePayload { name: String::from_str("custom"), css }
    }

    /// The names of the available themes, in their fixed order.
    pub fn get_themes() -> (r: Vec<String>)
        ensures
            r@.len() == 5,
            r@[0]@ == "light"@,
            r@[1]@ == "dark"@,
            r@[2]@ == "darker"@,
            r@[3]@ == "oled-black"@,
            r@[4]@ == "custom"@,
    {
        let mut v: Vec<String> = Vec::new();
        v.push(String::from_str("light"));
        v.push(String::from_str("dark"));
        v.push(String::from_str("darker"));
        v.push(String::from_str("oled-black"));
        v.push(String::from_str("custom"));
        v
    }

    /// The current theme.
    pub fn current_theme(&self) -> (r: &Theme)
        ensures
            r == self.current,
    {
        &self.current
    }

    /// The canonical name of the current theme.
    pub fn current_theme_name(&self) -> (r: String)
        ensures
            r@ == theme_name_spec(self.current),
    {
        match &self.current {
            Theme::Light => String::from_str("light"),
            Theme::Dark => String::from_str("dark"),
            Theme::Darker => String::from_str("darker"),
            Theme::OledBlack => String::from_str("oled-black"),
            Theme::Custom(_) => String::from_str("custom"),
        }
    }
}

} // verus!
