//! The user's configuration: the API token and the chosen theme.  Reading
//! and parsing the file is left to the application.

use vstd::prelude::*;

use crate::theme::{slug_position, slug_position_from, theme_label_at, theme_slug_at, ThemeId};

verus! {

/// The settings read from the configuration file.
pub struct Config {
    pub api_token: String,
    pub theme: Option<String>,
}

/// What is wrong with a configuration.
#[derive(Clone, Copy, Debug, PartialEq, Eq, Structural)]
pub enum ConfigError {
    /// The token is the empty string.
    EmptyToken,
}

/// The slug of the theme used when none is configured or the configured
/// one is unknown.
pub open spec fn fallback_slug() -> Seq<char> {
    "tokyo-night"@
}

/// The theme used when none is configured or the configured one is
/// unknown: Tokyo Night (the first position if the list had none).
pub open spec fn fallback_theme() -> int {
    match slug_position(fallback_slug()) {
        Some(i) => i,
        None => 0,
    }
}

/// The theme that a configured slug selects.
pub open spec fn configured_theme(theme: Option<String>) -> int {
    match theme {
        Some(s) => match slug_position(s@) {
            Some(i) => i,
            None => fallback_theme(),
        },
        None => fallback_theme(),
    }
}

/// The position of Tokyo Night in the list of themes.
pub const TOKYO_NIGHT: usize = 7;

/// The theme used when none is configured or the configured one is
/// unknown is Tokyo Night.
pub proof fn lemma_fallback_is_tokyo_night()
    ensures
        fallback_theme() == TOKYO_NIGHT,
        theme_label_at(TOKYO_NIGHT as int) == "Tokyo Night"@,
{
    reveal_strlit("tokyo-night");
    reveal_strlit("dracula");
    reveal_strlit("one-dark-pro");
    reveal_strlit("nord");
    reveal_strlit("catppuccin-mocha");
    reveal_strlit("catppuccin-latte");
    reveal_strlit("gruvbox-dark");
    reveal_strlit("gruvbox-light");
    assert(theme_slug_at(0)[0] != fallback_slug()[0]);
    assert(theme_slug_at(1)[0] != fallback_slug()[0]);
    assert(theme_slug_at(0) != fallback_slug());
    assert(theme_slug_at(1) != fallback_slug());
    assert(theme_slug_at(2) != fallback_slug());
    assert(theme_slug_at(3) != fallback_slug());
    assert(theme_slug_at(4) != fallback_slug());
    assert(theme_slug_at(5) != fallback_slug());
    assert(theme_slug_at(6) != fallback_slug());
    assert(theme_slug_at(7) == fallback_slug());
    reveal_with_fuel(slug_position_from, 9);
}

impl Config {
    /// The configured theme: the theme whose slug is the configured text,
    /// else Tokyo Night.
    pub fn theme_name(&self) -> (t: ThemeId)
        ensures
            t.valid(),
            t.index == configured_theme(self.theme),
            match self.theme {
                Some(s) => slug_position(s@) is None ==> t.index == TOKYO_NIGHT,
                None => t.index == TOKYO_NIGHT,
            },
    {
        proof {
            lemma_fallback_is_tokyo_night();
        }
        let fallback = match ThemeId::from_slug("tokyo-night") {
            Some(t) => t,
            None => ThemeId { index: 0 },
        };
        match &self.theme {
            Some(slug) => match ThemeId::from_slug(slug.as_str()) {
                Some(t) => t,
                None => fallback,
            },
            None => fallback,
        }
    }

    /// Accepts the configuration unless its token is empty.
    pub fn validate(&self) -> (r: Result<(), ConfigError>)
        ensures
            r is Err <==> self.api_token@.len() == 0,
    {
        if self.api_token.as_str().is_empty() {
            Err(ConfigError::EmptyToken)
        } else {
            Ok(())
        }
    }
}

} // verus!
