//! A track of the library and the orders tracks can be put in.

use crate::order::Precedence;
use crate::parser::Sorting;
use crate::text::{lemma_lex_less_order, str_less, text_less};
use crate::utils::StringFeatures;
use rand::Rng;
use vstd::prelude::*;
use vstd::string::StringExecFns;
use vstd::utf8::encode_utf8;

verus! {

/// A playing time: whole seconds and the nanoseconds beyond them.
#[derive(Debug, Copy, Clone, PartialEq, Eq, Structural)]
pub struct Length {
    pub secs: u64,
    pub nanos: u32,
}

impl Length {
    /// The time in nanoseconds.
    pub open spec fn total(self) -> int {
        self.secs * 1_000_000_000 + self.nanos
    }

    /// No time at all.
    pub open spec fn zero_spec() -> Length {
        Length { secs: 0, nanos: 0 }
    }

    pub fn zero() -> (r: Length)
        ensures
            r == Length::zero_spec(),
    {
        Length { secs: 0, nanos: 0 }
    }

    pub fn from_secs(secs: u64) -> (r: Length)
        ensures
            r.secs == secs,
            r.nanos == 0,
    {
        Length { secs, nanos: 0 }
    }

    pub fn as_secs(&self) -> (r: u64)
        ensures
            r == self.secs,
    {
        self.secs
    }

    /// The time in nanoseconds.
    pub fn total_nanos(&self) -> (r: u128)
        ensures
            r == self.total(),
            r < 0x1_0000_0000_0000_0000 * 1_000_000_001,
    {
        (self.secs as u128) * 1_000_000_000u128 + (self.nanos as u128)
    }

    /// Whether `self` is the shorter time.
    pub fn shorter_than(&self, other: &Length) -> (r: bool)
        ensures
            r == (self.total() < other.total()),
    {
        self.total_nanos() < other.total_nanos()
    }
}

/// What a track is: its texts as sequences of characters, and its length.
pub struct TrackView {
    pub title: Seq<char>,
    pub length: Length,
    pub path: Seq<char>,
    pub artist: Seq<char>,
    pub genre: Seq<char>,
}

/// The metadata of one track. The path tells tracks apart.
#[derive(Debug)]
pub struct Music {
    pub title: String,
    pub length: Length,
    pub path: String,
    pub artist: String,
    pub genre: String,
}

impl View for Music {
    type V = TrackView;

    open spec fn view(&self) -> TrackView {
        TrackView {
            title: self.title@,
            length: self.length,
            path: self.path@,
            artist: self.artist@,
            genre: self.genre@,
        }
    }
}

impl Clone for Music {
    fn clone(&self) -> (r: Self)
        ensures
            r == *self,
    {
        Music {
            title: self.title.clone(),
            length: self.length,
            path: self.path.clone(),
            artist: self.artist.clone(),
            genre: self.genre.clone(),
        }
    }
}

impl PartialEq for Music {
    fn eq(&self, other: &Self) -> (r: bool) {
        self.title == other.title && self.length == other.length && self.path == other.path
            && self.artist == other.artist && self.genre == other.genre
    }
}

impl vstd::std_specs::cmp::PartialEqSpecImpl for Music {
    open spec fn obeys_eq_spec() -> bool {
        true
    }

    open spec fn eq_spec(&self, other: &Self) -> bool {
        self@ == other@
    }
}

/// What reading a file's tags gave.
#[derive(Debug, PartialEq)]
pub enum Probe {
    /// The file could not be read as audio.
    Unreadable,
    /// Audio without tags: only the length is known.
    Untagged { length: Length },
    /// Tagged audio. A text the tags lack is empty.
    Tagged { length: Length, title: String, artist: String, genre: String },
}

/// The text that stands for a missing title, artist or genre.
pub open spec fn unknown() -> Seq<char> {
    "Unknown"@
}

/// `s`, or `unknown()` in place of an empty text.
pub open spec fn or_unknown(s: Seq<char>) -> Seq<char> {
    if s.len() == 0 {
        unknown()
    } else {
        s
    }
}

impl Music {
    /// The track with no text and no length, which stands for "no track".
    pub fn empty() -> (r: Self)
        ensures
            r@.title.len() == 0,
            r@.path.len() == 0,
            r@.artist.len() == 0,
            r@.genre.len() == 0,
            r.length == Length::zero_spec(),
    {
        Music {
            title: String::new(),
            length: Length::zero(),
            path: String::new(),
            artist: String::new(),
            genre: String::new(),
        }
    }

    pub fn new(title: String, path: String, length: Length, artist: String, genre: String) -> (r:
        Self)
        ensures
            r.title == title,
            r.path == path,
            r.length == length,
            r.artist == artist,
            r.genre == genre,
    {
        Self { title, path, length, artist, genre }
    }

    /// The track of a file of which nothing but a title is known.
    pub fn default(path: String, title: String) -> (r: Self)
        ensures
            r.title == title,
            r.path == path,
            r.length == Length::zero_spec(),
            r@.artist == unknown(),
            r@.genre == unknown(),
    {
        Self {
            title,
            path,
            length: Length::zero(),
            artist: String::from_str("Unknown"),
            genre: String::from_str("Unknown"),
        }
    }

    /// What `probe` makes of the track at `path`, if the file is audio.
    pub open spec fn probed(path: Seq<char>, probe: Probe) -> Option<TrackView> {
        match probe {
            Probe::Unreadable => None,
            Probe::Untagged { length } => Some(
                TrackView { title: unknown(), length, path, artist: unknown(), genre: unknown() },
            ),
            Probe::Tagged { length, title, artist, genre } => Some(
                TrackView {
                    title: or_unknown(title@),
                    length,
                    path,
                    artist: or_unknown(artist@),
                    genre: or_unknown(genre@),
                },
            ),
        }
    }

    /// The track that the tags read from `path` describe; none for a file
    /// that is no audio.
    pub fn simple_new(path: String, probe: Probe) -> (r: Option<Self>)
        ensures
            r is Some <==> !(probe is Unreadable),
            r is Some ==> Some(r->0@) == Music::probed(path@, probe),
    {
        match probe {
            Probe::Unreadable => None,
            Probe::Untagged { length } => Some(
                Self {
                    path,
                    length,
                    title: String::from_str("Unknown"),
                    artist: String::from_str("Unknown"),
                    genre: String::from_str("Unknown"),
                },
            ),
            Probe::Tagged { length, title, artist, genre } => {
                let mut title = title;
                let mut artist = artist;
                let mut genre = genre;
                title.insert_if_empty("Unknown");
                artist.insert_if_empty("Unknown");
                genre.insert_if_empty("Unknown");
                Some(Self { title, length, path, artist, genre })
            },
        }
    }

    /// As `simple_new`, but a file that is no audio becomes a track with
    /// the title `fallback_title` and nothing else known.
    pub fn unchecked_new(path: String, probe: Probe, fallback_title: String) -> (r: Self)
        ensures
            match Music::probed(path@, probe) {
                Some(t) => r@ == t,
                None => r@ == (TrackView {
                    title: fallback_title@,
                    length: Length::zero_spec(),
                    path: path@,
                    artist: unknown(),
                    genre: unknown(),
                }),
            },
    {
        match probe {
            Probe::Unreadable => Music::default(path, fallback_title),
            _ => {
                let ghost want = Music::probed(path@, probe);
                match Music::simple_new(path, probe) {
                    Some(m) => m,
                    None => Music::default(String::new(), fallback_title),
                }
            },
        }
    }
}

/// `Rng::gen_range` over `0..3` on the generator that `rand::thread_rng`
/// hands out: one of 0, 1 and 2, drawn anew at each call. Which one is not
/// told; two calls may differ.
#[verifier::external_body]
pub(crate) fn draw_of_three() -> (n: u8)
    ensures
        n < 3,
{
    rand::thread_rng().gen_range(0..3)
}

/// Whether a lot puts the first track of a pair after the second: of the
/// three lots, 0 does.
pub fn lot_puts_after(lot: u8) -> (r: bool)
    ensures
        r == (lot == 0),
{
    lot == 0
}

/// The catalog's orders as a rule on tracks. The four orders by title and
/// by length decide; `Shuffle` draws one of three lots for each pair it is
/// asked about and lets the first stand after the second on one of them.
pub struct TrackOrder {
    pub sorting: Sorting,
}

impl Precedence<Music> for TrackOrder {
    open spec fn decides(&self) -> bool {
        self.sorting != Sorting::Shuffle
    }

    open spec fn after(&self, a: Music, b: Music) -> bool {
        match self.sorting {
            Sorting::ByTitleAscending => text_less(b@.title, a@.title),
            Sorting::ByTitleDescending => text_less(a@.title, b@.title),
            Sorting::ByDurationAscending => b.length.total() < a.length.total(),
            Sorting::ByDurationDescending => a.length.total() < b.length.total(),
            Sorting::Shuffle => false,
        }
    }

    fn comes_after(&self, a: &Music, b: &Music) -> (r: bool) {
        match self.sorting {
            Sorting::ByTitleAscending => str_less(b.title.as_str(), a.title.as_str()),
            Sorting::ByTitleDescending => str_less(a.title.as_str(), b.title.as_str()),
            Sorting::ByDurationAscending => b.length.shorter_than(&a.length),
            Sorting::ByDurationDescending => a.length.shorter_than(&b.length),
            Sorting::Shuffle => lot_puts_after(draw_of_three()),
        }
    }

    proof fn lemma_weak_order(&self, a: Music, b: Music, c: Music) {
        lemma_lex_less_order(encode_utf8(a@.title), encode_utf8(b@.title), encode_utf8(c@.title));
        lemma_lex_less_order(encode_utf8(c@.title), encode_utf8(b@.title), encode_utf8(a@.title));
    }
}

} // verus!
