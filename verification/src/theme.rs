//! Colour themes, identified by their position in the list that
//! `ratatui_themes` offers.

use vstd::prelude::*;

use ratatui_themes::ThemeName;

verus! {

/// How many themes `ratatui_themes` offers.
pub const THEME_COUNT: usize = 16;

/// The slug of the theme at a position of `ThemeName::all()`, as
/// `ThemeName::slug` gives it (the last entry stands for every position
/// from fifteen on).
pub open spec fn theme_slug_at(index: int) -> Seq<char> {
    if index == 0 {
        "dracula"@
    } else if index == 1 {
        "one-dark-pro"@
    } else if index == 2 {
        "nord"@
    } else if index == 3 {
        "catppuccin-mocha"@
    } else if index == 4 {
        "catppuccin-latte"@
    } else if index == 5 {
        "gruvbox-dark"@
    } else if index == 6 {
        "gruvbox-light"@
    } else if index == 7 {
        "tokyo-night"@
    } else if index == 8 {
        "solarized-dark"@
    } else if index == 9 {
        "solarized-light"@
    } else if index == 10 {
        "monokai-pro"@
    } else if index == 11 {
        "rose-pine"@
    } else if index == 12 {
        "kanagawa"@
    } else if index == 13 {
        "everforest"@
    } else if index == 14 {
        "cyberpunk"@
    } else {
        "midnight-commander"@
    }
}

/// The display name of the theme at a position of `ThemeName::all()`, as
/// `ThemeName::display_name` gives it (the last entry stands for every
/// position from fifteen on).
pub open spec fn theme_label_at(index: int) -> Seq<char> {
    if index == 0 {
        "Dracula"@
    } else if index == 1 {
        "One Dark Pro"@
    } else if index == 2 {
        "Nord"@
    } else if index == 3 {
        "Catppuccin Mocha"@
    } else if index == 4 {
        "Catppuccin Latte"@
    } else if index == 5 {
        "Gruvbox Dark"@
    } else if index == 6 {
        "Gruvbox Light"@
    } else if index == 7 {
        "Tokyo Night"@
    } else if index == 8 {
        "Solarized Dark"@
    } else if index == 9 {
        "Solarized Light"@
    } else if index == 10 {
        "Monokai Pro"@
    } else if index == 11 {
        "Rosé Pine"@
    } else if index == 12 {
        "Kanagawa"@
    } else if index == 13 {
        "Everforest"@
    } else if index == 14 {
        "Cyberpunk"@
    } else {
        "Midnight Commander"@
    }
}

/// How many themes there are.
/// Trusted: `ThemeName::all().len()`, which the crate documents as 16.
#[verifier::external_body]
fn theme_count() -> (n: usize)
    ensures
        n == THEME_COUNT,
{
    ThemeName::all().len()
}

/// The slug of the theme at `index`.
/// Trusted: `ThemeName::slug` of `ThemeName::all()[index]`, which the
/// crate's source gives as the table `theme_slug_at`.
#[verifier::external_body]
fn theme_slug(index: usize) -> (s: String)
    requires
        index < THEME_COUNT,
    ensures
        s@ == theme_slug_at(index as int),
{
    ThemeName::all()[index].slug().to_string()
}

/// The display name of the theme at `index`.
/// Trusted: `ThemeName::display_name` of `ThemeName::all()[index]`, which
/// the crate's source gives as the table `theme_label_at`.
#[verifier::external_body]
fn theme_label(index: usize) -> (s: String)
    requires
        index < THEME_COUNT,
    ensures
        s@ == theme_label_at(index as int),
{
    ThemeName::all()[index].display_name().to_string()
}

/// A theme, by its position in `ThemeName::all()`.
#[derive(Clone, Copy, Debug, PartialEq, Eq, Structural)]
pub struct ThemeId {
    pub index: usize,
}

/// The position after `i` in a cyclic list of `n` items.
pub open spec fn cycle_next(i: int, n: int) -> int {
    (i + 1) % n
}

/// The position before `i` in a cyclic list of `n` items.
pub open spec fn cycle_prev(i: int, n: int) -> int {
    (i + n - 1) % n
}

/// The first position at or after `from` whose slug is `slug`, if any.
pub open spec fn slug_position_from(slug: Seq<char>, from: int) -> Option<int>
    decreases THEME_COUNT - from,
{
    if from < 0 || from >= THEME_COUNT {
        None
    } else if theme_slug_at(from) == slug {
        Some(from)
    } else {
        slug_position_from(slug, from + 1)
    }
}

/// The first position whose slug is `slug`, if any.
pub open spec fn slug_position(slug: Seq<char>) -> Option<int> {
    slug_position_from(slug, 0)
}

impl ThemeId {
    /// Whether the position names a theme.
    pub open spec fn valid(self) -> bool {
        self.index < THEME_COUNT
    }

    /// The theme that follows, wrapping around at the end of the list, as
    /// `ThemeName::next` does.
    pub fn next(self) -> (t: ThemeId)
        requires
            self.valid(),
        ensures
            t.valid(),
            t.index == cycle_next(self.index as int, THEME_COUNT as int),
    {
        let n = theme_count();
        ThemeId { index: (self.index + 1) % n }
    }

    /// The theme before, wrapping around at the start of the list, as
    /// `ThemeName::prev` does.
    pub fn prev(self) -> (t: ThemeId)
        requires
            self.valid(),
        ensures
            t.valid(),
            t.index == cycle_prev(self.index as int, THEME_COUNT as int),
    {
        let n = theme_count();
        ThemeId { index: (self.index + n - 1) % n }
    }

    /// The human-readable name of the theme.
    pub fn display_name(&self) -> (s: String)
        requires
            self.valid(),
        ensures
            s@ == theme_label_at(self.index as int),
    {
        theme_label(self.index)
    }

    /// The slug of the theme, as used in configuration files.
    pub fn slug(&self) -> (s: String)
        requires
            self.valid(),
        ensures
            s@ == theme_slug_at(self.index as int),
    {
        theme_slug(self.index)
    }

    /// The first theme whose slug is `slug`, if any.
    pub fn from_slug(slug: &str) -> (t: Option<ThemeId>)
        ensures
            t is None <==> slug_position(slug@) is None,
            t matches Some(id) ==> id.valid() && slug_position(slug@) == Some(id.index as int),
    {
        let n = theme_count();
        let target = String::from_str(slug);
        let mut i: usize = 0;
        while i < n
            invariant
                n == THEME_COUNT,
                target@ == slug@,
                i <= n,
                slug_position(slug@) == slug_position_from(slug@, i as int),
            decreases n - i,
        {
            let candidate = theme_slug(i);
            if candidate == target {
                return Some(ThemeId { index: i });
            }
            i = i + 1;
        }
        None
    }
}

} // verus!
