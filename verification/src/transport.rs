//! From commands to calls on the player: what starting a track, toggling
//! play and the end of a track ask of the player, and what they do to the
//! playing cursor.

use crate::catalog::CatalogView;
use crate::command::{play_calls, play_calls_known, Command, PlayerCall};
use crate::states::Status;
use crate::track::Music;
use crate::ui::{Repeat, UIView, UI};
use vstd::prelude::*;

verus! {

/// The calls that start `track` on a player in the state `status`.
pub fn calls_to_play(status: Status, track: &Music) -> (r: Vec<PlayerCall>)
    ensures
        r@ == play_calls(status, *track),
{
    let mut r: Vec<PlayerCall> = Vec::new();
    match status {
        Status::Playing => {
            r.push(PlayerCall::End);
        },
        Status::Pausing => {
            r.push(PlayerCall::End);
            r.push(PlayerCall::Resume);
        },
        Status::Stopping => {},
    }
    r.push(PlayerCall::Play(track.clone()));
    assert(r@ =~= play_calls(status, *track));
    r
}

impl UI {
    /// Starts `toplay` and sets the playing cursor on it.
    pub fn play_this_music(&mut self, toplay: &Music) -> (r: Vec<PlayerCall>)
        requires
            old(self).wf(),
        ensures
            final(self).wf(),
            (final(self)@, r@) == old(self)@.playing(*toplay),
    {
        self.music_list.mark_playing(toplay);
        calls_to_play(self.state.status(), toplay)
    }

    /// Starts `toplay`, which stands at `playing_index` in the collection.
    /// A stopped player is resumed after the start.
    pub fn o1_play_this_music(&mut self, toplay: &Music, playing_index: usize) -> (r: Vec<
        PlayerCall,
    >)
        requires
            old(self).wf(),
            playing_index < old(self)@.catalog.full.len(),
        ensures
            final(self).wf(),
            final(self)@ == old(self)@.with_catalog(
                CatalogView { playing: Some(playing_index as int), ..old(self)@.catalog },
            ),
            r@ == play_calls_known(old(self)@.state.batch.status, *toplay),
    {
        self.music_list.playing_index = Some(playing_index);
        let mut r: Vec<PlayerCall> = Vec::new();
        match self.state.status() {
            Status::Playing => {
                r.push(PlayerCall::End);
                r.push(PlayerCall::Play(toplay.clone()));
            },
            Status::Pausing => {
                r.push(PlayerCall::End);
                r.push(PlayerCall::Resume);
                r.push(PlayerCall::Play(toplay.clone()));
            },
            Status::Stopping => {
                r.push(PlayerCall::Play(toplay.clone()));
                r.push(PlayerCall::Resume);
            },
        }
        assert(r@ =~= play_calls_known(self.state.batch.status, *toplay));
        r
    }

    /// Starts the selected track. Does nothing where nothing is shown.
    pub fn play_selected_music(&mut self) -> (r: Vec<PlayerCall>)
        requires
            old(self).wf(),
        ensures
            final(self).wf(),
            (final(self)@, r@) == old(self)@.playing_if(old(self)@.catalog.selection()),
    {
        match self.music_list.current_selection() {
            Ok(toplay) => self.play_this_music(&toplay),
            Err(_) => Vec::new(),
        }
    }

    /// Starts the track after the playing one. Does nothing in an empty
    /// catalog.
    pub fn play_next(&mut self) -> (r: Vec<PlayerCall>)
        requires
            old(self).wf(),
        ensures
            final(self).wf(),
            (final(self)@, r@) == old(self)@.playing_if(old(self)@.catalog.next_track()),
    {
        let next = match self.music_list.next_song() {
            Some(m) => Some(m.clone()),
            None => None,
        };
        match next {
            Some(m) => self.play_this_music(&m),
            None => Vec::new(),
        }
    }

    /// Starts the track before the playing one. Does nothing in an empty
    /// catalog.
    pub fn play_preivous(&mut self) -> (r: Vec<PlayerCall>)
        requires
            old(self).wf(),
        ensures
            final(self).wf(),
            (final(self)@, r@) == old(self)@.playing_if(old(self)@.catalog.previous_track()),
    {
        let previous = match self.music_list.previous_song() {
            Some(m) => Some(m.clone()),
            None => None,
        };
        match previous {
            Some(m) => self.play_this_music(&m),
            None => Vec::new(),
        }
    }

    /// Starts the track that the player has once more.
    pub fn restart_playing_music(&mut self) -> (r: Vec<PlayerCall>)
        requires
            old(self).wf(),
        ensures
            final(self).wf(),
            (final(self)@, r@) == old(self)@.playing(old(self)@.state.batch.playing_music),
    {
        let playing = self.state.playing_music();
        self.play_this_music(&playing)
    }

    /// Toggles play.
    pub fn toggle_play(&mut self) -> (r: Vec<PlayerCall>)
        requires
            old(self).wf(),
        ensures
            final(self).wf(),
            (final(self)@, r@) == old(self)@.toggled(),
    {
        match self.state.status() {
            Status::Playing => self.pause(),
            Status::Pausing => self.resume(),
            Status::Stopping => {
                if self.state.batch.playing_on_disk {
                    self.restart_playing_music()
                } else {
                    self.play_selected_music()
                }
            },
        }
    }

    pub fn pause(&self) -> (r: Vec<PlayerCall>)
        ensures
            r@ == seq![PlayerCall::Pause],
    {
        let mut r: Vec<PlayerCall> = Vec::new();
        r.push(PlayerCall::Pause);
        assert(r@ =~= seq![PlayerCall::Pause]);
        r
    }

    pub fn resume(&self) -> (r: Vec<PlayerCall>)
        ensures
            r@ == seq![PlayerCall::Resume],
    {
        let mut r: Vec<PlayerCall> = Vec::new();
        r.push(PlayerCall::Resume);
        assert(r@ =~= seq![PlayerCall::Resume]);
        r
    }

    pub fn stop(&self) -> (r: Vec<PlayerCall>)
        ensures
            r@ == seq![PlayerCall::End],
    {
        let mut r: Vec<PlayerCall> = Vec::new();
        r.push(PlayerCall::End);
        assert(r@ =~= seq![PlayerCall::End]);
        r
    }

    pub fn toggle_mute(&self) -> (r: Vec<PlayerCall>)
        ensures
            r@ == seq![PlayerCall::ToggleMute],
    {
        let mut r: Vec<PlayerCall> = Vec::new();
        r.push(PlayerCall::ToggleMute);
        assert(r@ =~= seq![PlayerCall::ToggleMute]);
        r
    }

    /// Carries out `command`: changes the state as it asks and returns
    /// the calls to make on the player, in order.
    pub fn perform(&mut self, command: Command) -> (r: Vec<PlayerCall>)
        requires
            old(self).wf(),
        ensures
            final(self).wf(),
            (final(self)@, r@) == old(self)@.performed(command),
    {
        match command {
            Command::Play(track) => self.play_this_music(&track),
            Command::NextTrack => self.play_next(),
            Command::PreviousTrack => self.play_preivous(),
            Command::TogglePlay => self.toggle_play(),
            Command::Stop => self.stop(),
            Command::ToggleMute => self.toggle_mute(),
            Command::SeekRelative(by) => {
                let mut r: Vec<PlayerCall> = Vec::new();
                r.push(PlayerCall::Seek(by));
                assert(r@ =~= seq![PlayerCall::Seek(by)]);
                r
            },
            Command::VolumeDelta(by) => {
                let mut r: Vec<PlayerCall> = Vec::new();
                r.push(PlayerCall::Volume(by));
                assert(r@ =~= seq![PlayerCall::Volume(by)]);
                r
            },
        }
    }

    /// Looks at the end of the playing track and repeats as was asked.
    pub fn handle_repeat(&mut self) -> (r: Vec<PlayerCall>)
        requires
            old(self).wf(),
        ensures
            final(self).wf(),
            (final(self)@, r@) == old(self)@.repeated(),
    {
        if self.state.status() != Status::Playing {
            return Vec::new();
        }
        let played = self.state.played_duration();
        let length = self.state.playing_music_duration();
        match self.repeat {
            Repeat::ThisMusic => {
                if played.as_secs() == length.as_secs() {
                    self.restart_playing_music()
                } else {
                    Vec::new()
                }
            },
            Repeat::AllMusics => {
                let reached: u128 = played.total_nanos() + 200_000_000u128;
                let end: u128 = (length.as_secs() as u128) * 1_000_000_000u128;
                if reached >= end {
                    self.play_next()
                } else {
                    Vec::new()
                }
            },
            Repeat::Dont => Vec::new(),
        }
    }

    /// Sets the playing cursor on the track that the player has.
    pub fn restore_state(&mut self)
        requires
            old(self).wf(),
        ensures
            final(self).wf(),
            final(self)@ == old(self)@.with_catalog(
                old(self)@.catalog.marked(old(self)@.state.batch.playing_music@),
            ),
    {
        self.music_list.playing_index = self.state.get_playing_index(&self.music_list.full_que);
    }
}

} // verus!
