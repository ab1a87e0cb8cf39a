//! The settings a user can give: where the library is, how to sort it and
//! what to repeat.

use crate::ui::Repeat;
use vstd::prelude::*;

verus! {

/// The orders the catalog can be put in.
#[derive(Debug, Copy, Clone, PartialEq, Eq, Structural)]
pub enum Sorting {
    ByTitleAscending,
    ByTitleDescending,
    ByDurationAscending,
    ByDurationDescending,
    Shuffle,
}

impl Default for Sorting {
    fn default() -> (r: Self)
        ensures
            r == Sorting::ByTitleAscending,
    {
        Sorting::ByTitleAscending
    }
}

impl Sorting {
    /// The order that follows `self` when the user cycles forward.
    pub open spec fn following(self) -> Sorting {
        match self {
            Sorting::ByTitleAscending => Sorting::ByTitleDescending,
            Sorting::ByTitleDescending => Sorting::ByDurationAscending,
            Sorting::ByDurationAscending => Sorting::ByDurationDescending,
            Sorting::ByDurationDescending => Sorting::Shuffle,
            Sorting::Shuffle => Sorting::ByTitleAscending,
        }
    }

    /// The order that comes before `self` in the cycle.
    pub open spec fn preceding(self) -> Sorting {
        match self {
            Sorting::ByTitleAscending => Sorting::Shuffle,
            Sorting::ByTitleDescending => Sorting::ByTitleAscending,
            Sorting::ByDurationAscending => Sorting::ByTitleDescending,
            Sorting::ByDurationDescending => Sorting::ByDurationAscending,
            Sorting::Shuffle => Sorting::ByDurationDescending,
        }
    }

    pub fn next(self) -> (r: Sorting)
        ensures
            r == self.following(),
    {
        match self {
            Sorting::ByTitleAscending => Sorting::ByTitleDescending,
            Sorting::ByTitleDescending => Sorting::ByDurationAscending,
            Sorting::ByDurationAscending => Sorting::ByDurationDescending,
            Sorting::ByDurationDescending => Sorting::Shuffle,
            Sorting::Shuffle => Sorting::ByTitleAscending,
        }
    }

    pub fn previous(self) -> (r: Sorting)
        ensures
            r == self.preceding(),
    {
        match self {
            Sorting::ByTitleAscending => Sorting::Shuffle,
            Sorting::ByTitleDescending => Sorting::ByTitleAscending,
            Sorting::ByDurationAscending => Sorting::ByTitleDescending,
            Sorting::ByDurationDescending => Sorting::ByDurationAscending,
            Sorting::Shuffle => Sorting::ByDurationDescending,
        }
    }
}

/// The settings of one user.
#[derive(Debug)]
pub struct Config {
    /// The directory that holds the library.
    pub path: Option<String>,
    pub sorting: Option<Sorting>,
    pub repeat: Option<Repeat>,
}

/// A settings file: it may hold the settings, or not.
#[derive(Debug)]
pub struct Wrapper {
    pub config: Option<Config>,
}

impl Config {
    /// The order to sort by: the one given, or by title ascending.
    pub open spec fn order(&self) -> Sorting {
        match self.sorting {
            Some(o) => o,
            None => Sorting::ByTitleAscending,
        }
    }

    /// What to repeat: what is given, or nothing.
    pub open spec fn repeating(&self) -> Repeat {
        match self.repeat {
            Some(r) => r,
            None => Repeat::Dont,
        }
    }
}

} // verus!
