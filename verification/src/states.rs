//! What the client last learned from the player.

use crate::catalog::{find_track, first_match};
use crate::text::{
    after_colon, chars_of, contains_text, find_char, find_line, line, occurs_in, trim_of, trimmed,
};
use crate::track::{Length, Music};
use vstd::string::StringExecFns;
use vstd::prelude::*;

verus! {

/// What the player does.
#[derive(Debug, Copy, Clone, PartialEq, Eq, Structural)]
pub enum Status {
    Playing,
    Pausing,
    Stopping,
}

impl Default for Status {
    fn default() -> (r: Self)
        ensures
            r == Status::Stopping,
    {
        Status::Stopping
    }
}

/// The two cursors of a music list.
#[derive(Debug, Copy, Clone, PartialEq, Eq, Structural)]
pub struct MusicListState {
    pub selected_music: usize,
    pub playing_music: usize,
}

/// A cover picture.
#[derive(Debug)]
pub struct Picture {
    pub data: Vec<u8>,
    pub typ: String,
}

/// The tags of the playing track as the player reports them.
#[derive(Debug)]
pub struct Metadata {
    pub title: String,
    pub artis: String,
    pub genre: String,
    pub cover: Picture,
}

impl Metadata {
    pub fn empty() -> (r: Metadata)
        ensures
            r.title@.len() == 0,
            r.artis@.len() == 0,
            r.genre@.len() == 0,
            r.cover.data@.len() == 0,
            r.cover.typ@.len() == 0,
    {
        Metadata {
            title: String::new(),
            artis: String::new(),
            genre: String::new(),
            cover: Picture { data: Vec::new(), typ: String::new() },
        }
    }
}

/// One round of answers from the player.
#[derive(Debug)]
pub struct Batch {
    /// How much of the track has played.
    pub played_duration: Length,
    /// How long the track is.
    pub music_duration: Length,
    /// The track that plays; the empty track if none.
    pub playing_music: Music,
    /// Whether the file of that track is there.
    pub playing_on_disk: bool,
    pub status: Status,
    /// The path of the track that plays.
    pub music_path: String,
    pub metadata: Metadata,
}

impl Batch {
    /// The answers of a player that has not been asked yet.
    pub fn empty() -> (r: Batch)
        ensures
            r.played_duration == Length::zero_spec(),
            r.music_duration == Length::zero_spec(),
            r.status == Status::Stopping,
            !r.playing_on_disk,
            r.playing_music@.path.len() == 0,
            r.music_path@.len() == 0,
    {
        Batch {
            played_duration: Length::zero(),
            music_duration: Length::zero(),
            playing_music: Music::empty(),
            playing_on_disk: false,
            status: Status::Stopping,
            music_path: String::new(),
            metadata: Metadata::empty(),
        }
    }
}

/// What a status line says the player does: it stops if the line holds
/// `Stopped`, else it pauses if the line holds `Pausing`, else it plays.
pub open spec fn status_in(line: Seq<char>) -> Status {
    if occurs_in("Stopped"@, line) {
        Status::Stopping
    } else if occurs_in("Pausing"@, line) {
        Status::Pausing
    } else {
        Status::Playing
    }
}

/// The value of a line `name: value`, without the white space around it.
/// A line without a colon has the empty value.
pub open spec fn value_in(line: Seq<char>) -> Seq<char> {
    trimmed(after_colon(line))
}

/// The volume that a line `name: value` gives, as it is written. A line
/// without a colon gives `0.5`.
pub open spec fn volume_in(line: Seq<char>) -> Seq<char> {
    if crate::text::first_of(line, ':', 0) < line.len() {
        value_in(line)
    } else {
        "0.5"@
    }
}

/// What the player's status answer says: what the player does, from the
/// first line; the path of the track, from the second; the volume as it
/// is written, from the third. A missing line counts as a stopped
/// player, an empty path and the volume `0.5`.
pub open spec fn status_answer(answer: Seq<char>) -> (Status, Seq<char>, Seq<char>) {
    (
        match line(answer, 0) {
            Some(l) => status_in(l),
            None => Status::Stopping,
        },
        match line(answer, 1) {
            Some(l) => value_in(l),
            None => Seq::empty(),
        },
        match line(answer, 2) {
            Some(l) => volume_in(l),
            None => "0.5"@,
        },
    )
}

fn status_between(chars: &Vec<char>, from: usize, to: usize) -> (r: Status)
    requires
        from <= to <= chars.len(),
    ensures
        r == status_in(chars@.subrange(from as int, to as int)),
{
    if contains_text(chars, from, to, "Stopped") {
        Status::Stopping
    } else if contains_text(chars, from, to, "Pausing") {
        Status::Pausing
    } else {
        Status::Playing
    }
}

fn value_between(chars: &Vec<char>, from: usize, to: usize) -> (r: Option<String>)
    requires
        from <= to <= chars.len(),
    ensures
        match r {
            Some(v) => crate::text::first_of(chars@.subrange(from as int, to as int), ':', 0) < to
                - from && v@ == value_in(chars@.subrange(from as int, to as int)),
            None => crate::text::first_of(chars@.subrange(from as int, to as int), ':', 0) >= to
                - from,
        },
{
    let colon = find_char(chars, from, to, ':');
    if colon < to {
        let v = trim_of(chars, colon + 1, to);
        assert(chars@.subrange(colon + 1, to as int) =~= after_colon(
            chars@.subrange(from as int, to as int),
        ));
        Some(v)
    } else {
        None
    }
}

/// The player's state as the client knows it.
#[derive(Debug)]
pub struct State {
    pub batch: Batch,
}

impl State {
    pub fn new() -> (r: State)
        ensures
            r.batch.status == Status::Stopping,
            r.batch.played_duration == Length::zero_spec(),
            r.batch.music_duration == Length::zero_spec(),
            !r.batch.playing_on_disk,
    {
        State { batch: Batch::empty() }
    }

    /// What a status line says the player does.
    pub fn handle_state(input: &str) -> (r: Status)
        ensures
            r == status_in(input@),
    {
        let chars = chars_of(input);
        assert(chars@.subrange(0, chars@.len() as int) =~= input@);
        status_between(&chars, 0, chars.len())
    }

    /// The path that a line `name: path` gives.
    pub fn handle_path(input: &str) -> (r: String)
        ensures
            r@ == value_in(input@),
    {
        let chars = chars_of(input);
        assert(chars@.subrange(0, chars@.len() as int) =~= input@);
        match value_between(&chars, 0, chars.len()) {
            Some(v) => v,
            None => {
                let v = String::new();
                assert(v@ =~= value_in(input@));
                v
            },
        }
    }

    /// The volume that a line `name: volume` gives, as it is written.
    pub fn handle_volume(input: &str) -> (r: String)
        ensures
            r@ == volume_in(input@),
    {
        let chars = chars_of(input);
        assert(chars@.subrange(0, chars@.len() as int) =~= input@);
        match value_between(&chars, 0, chars.len()) {
            Some(v) => v,
            None => String::from_str("0.5"),
        }
    }

    /// Reads the player's status answer.
    pub fn hande_status_call(answer: &str) -> (r: (Status, String, String))
        ensures
            (r.0, r.1@, r.2@) == status_answer(answer@),
    {
        let chars = chars_of(answer);
        let status = match find_line(&chars, 0) {
            Some((from, to)) => status_between(&chars, from, to),
            None => Status::Stopping,
        };
        let path = match find_line(&chars, 1) {
            Some((from, to)) => match value_between(&chars, from, to) {
                Some(v) => v,
                None => {
                    let v = String::new();
                    assert(v@ =~= value_in(chars@.subrange(from as int, to as int)));
                    v
                },
            },
            None => String::new(),
        };
        let volume = match find_line(&chars, 2) {
            Some((from, to)) => match value_between(&chars, from, to) {
                Some(v) => v,
                None => String::from_str("0.5"),
            },
            None => String::from_str("0.5"),
        };
        (status, path, volume)
    }

    /// The two numbers of a timer answer `length/played`, as they are
    /// written: the text before the first slash and the text behind it.
    /// None for an answer without a slash.
    pub fn timer_parts(answer: &str) -> (r: Option<(String, String)>)
        ensures
            match r {
                Some((length, played)) => {
                    let k = crate::text::first_of(answer@, '/', 0);
                    &&& k < answer@.len()
                    &&& length@ == answer@.take(k)
                    &&& played@ == answer@.skip(k + 1)
                },
                None => crate::text::first_of(answer@, '/', 0) >= answer@.len(),
            },
    {
        let chars = chars_of(answer);
        let n = chars.len();
        assert(chars@.subrange(0, n as int) =~= answer@);
        let slash = find_char(&chars, 0, n, '/');
        if slash < n {
            let length = crate::text::string_of(&chars, 0, slash);
            let played = crate::text::string_of(&chars, slash + 1, n);
            assert(length@ =~= answer@.take(slash as int));
            assert(played@ =~= answer@.skip(slash + 1));
            Some((length, played))
        } else {
            None
        }
    }

    /// Takes in a new round of answers.
    pub fn batch_calls(&mut self, batch: Batch)
        ensures
            final(self).batch == batch,
    {
        self.batch = batch;
    }

    /// Where the playing track stands in `musics`, if it is there.
    pub fn get_playing_index(&self, musics: &Vec<Music>) -> (r: Option<usize>)
        ensures
            match r {
                Some(i) => first_match(musics@, self.batch.playing_music@) == Some(i as int),
                None => first_match(musics@, self.batch.playing_music@) is None,
            },
    {
        find_track(musics, &self.batch.playing_music)
    }

    pub fn played_duration(&self) -> (r: Length)
        ensures
            r == self.batch.played_duration,
    {
        self.batch.played_duration
    }

    pub fn playing_music_duration(&self) -> (r: Length)
        ensures
            r == self.batch.music_duration,
    {
        self.batch.music_duration
    }

    pub fn playing_music(&self) -> (r: Music)
        ensures
            r == self.batch.playing_music,
    {
        self.batch.playing_music.clone()
    }

    pub fn status(&self) -> (r: Status)
        ensures
            r == self.batch.status,
    {
        self.batch.status
    }

    pub fn music_path(&self) -> (r: String)
        ensures
            r == self.batch.music_path,
    {
        self.batch.music_path.clone()
    }

    pub fn metadata(&self) -> (r: &Metadata)
        ensures
            *r == self.batch.metadata,
    {
        &self.batch.metadata
    }
}

} // verus!
