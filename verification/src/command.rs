//! What the state machine asks of the layer around it, and the calls that
//! layer makes on the player.

use crate::states::Status;
use crate::track::Music;
use vstd::prelude::*;

verus! {

/// A transport command that a key event gives rise to.
#[derive(Debug, Clone, PartialEq)]
pub enum Command {
    /// Play this track.
    Play(Music),
    /// Move the playing position by so many seconds.
    SeekRelative(i64),
    /// Turn the volume up or down by so many steps.
    VolumeDelta(i8),
    TogglePlay,
    Stop,
    NextTrack,
    PreviousTrack,
    ToggleMute,
}

/// One call on the player.
#[derive(Debug, Clone, PartialEq)]
pub enum PlayerCall {
    /// Start the track at this track's path.
    Play(Music),
    End,
    Resume,
    Pause,
    /// Move the playing position by so many seconds.
    Seek(i64),
    /// Turn the volume up or down by so many steps.
    Volume(i8),
    ToggleMute,
}

/// What a key event leads to besides the change of state.
#[derive(Debug, Clone, PartialEq)]
pub struct Reaction {
    /// The user asked to leave.
    pub quit: bool,
    pub command: Option<Command>,
}

impl Reaction {
    pub open spec fn nothing() -> Reaction {
        Reaction { quit: false, command: None }
    }

    pub open spec fn leaving() -> Reaction {
        Reaction { quit: true, command: None }
    }

    pub open spec fn asking(command: Option<Command>) -> Reaction {
        Reaction { quit: false, command }
    }

    pub fn none() -> (r: Reaction)
        ensures
            r == Reaction::nothing(),
    {
        Reaction { quit: false, command: None }
    }

    pub fn leave() -> (r: Reaction)
        ensures
            r == Reaction::leaving(),
    {
        Reaction { quit: true, command: None }
    }

    pub fn ask(command: Option<Command>) -> (r: Reaction)
        ensures
            r == Reaction::asking(command),
    {
        Reaction { quit: false, command }
    }
}

/// The calls that start `track`, given what the player does now: a player
/// that plays or pauses is ended first, and one that pauses is resumed.
pub open spec fn play_calls(status: Status, track: Music) -> Seq<PlayerCall> {
    match status {
        Status::Playing => seq![PlayerCall::End, PlayerCall::Play(track)],
        Status::Pausing => seq![PlayerCall::End, PlayerCall::Resume, PlayerCall::Play(track)],
        Status::Stopping => seq![PlayerCall::Play(track)],
    }
}

/// As `play_calls`, but a stopped player is resumed after the start.
pub open spec fn play_calls_known(status: Status, track: Music) -> Seq<PlayerCall> {
    match status {
        Status::Playing => seq![PlayerCall::End, PlayerCall::Play(track)],
        Status::Pausing => seq![PlayerCall::End, PlayerCall::Resume, PlayerCall::Play(track)],
        Status::Stopping => seq![PlayerCall::Play(track), PlayerCall::Resume],
    }
}

} // verus!
