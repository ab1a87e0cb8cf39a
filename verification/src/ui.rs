//! The interface state and the keyboard state machine: which region and
//! mode a key event is read in, what it does to the catalog, and which
//! transport command it gives rise to.

use crate::catalog::{CatalogView, Musics};
use crate::command::{play_calls, play_calls_known, Command, PlayerCall, Reaction};
use crate::keys::{Key, KeyCode, Modifiers};
use crate::parser::{Config, Sorting};
use crate::states::{State, Status};
use crate::text::{pop_char, push_char, render_duration, rendered_duration};
use crate::track::{Length, Music};
use vstd::prelude::*;

verus! {

/// How many tracks a scroll moves the selection.
pub const SCROLL_STEP: usize = 7;

/// How many seconds a seek moves the playing position.
pub const SEEK_STEP: i64 = 5;

/// A seek backward, in seconds.
pub const SEEK_BACK: i64 = -5;

/// One step up in volume.
pub const VOLUME_UP: i8 = 1;

/// One step down in volume.
pub const VOLUME_DOWN: i8 = -1;

/// What the list region reads keys as.
#[derive(Debug, Copy, Clone, PartialEq, Eq, Structural)]
pub enum ListMode {
    /// Keys go into the search text.
    Search,
    /// Keys move the selection.
    Select,
    /// Keys move the selection over the result of a search.
    AfterSearch,
}

impl Default for ListMode {
    fn default() -> (r: Self)
        ensures
            r == ListMode::Select,
    {
        ListMode::Select
    }
}

/// The first key of a two-key binding, while the second is awaited.
#[derive(Debug, Copy, Clone, PartialEq, Eq, Structural)]
pub enum AncitipationMode {
    /// No key is awaited.
    Normal,
    /// This key was pressed and its partner is awaited.
    Char(char),
}

impl Default for AncitipationMode {
    fn default() -> (r: Self)
        ensures
            r == AncitipationMode::Normal,
    {
        AncitipationMode::Normal
    }
}

/// What is played when a track ends.
#[derive(Debug, Copy, Clone, PartialEq, Eq, Structural)]
pub enum Repeat {
    /// The same track again.
    ThisMusic,
    /// The next track of the collection.
    AllMusics,
    /// Nothing.
    Dont,
}

impl Default for Repeat {
    fn default() -> (r: Self)
        ensures
            r == Repeat::Dont,
    {
        Repeat::Dont
    }
}

impl Repeat {
    pub open spec fn following(self) -> Repeat {
        match self {
            Repeat::ThisMusic => Repeat::AllMusics,
            Repeat::AllMusics => Repeat::Dont,
            Repeat::Dont => Repeat::ThisMusic,
        }
    }

    pub open spec fn preceding(self) -> Repeat {
        match self {
            Repeat::ThisMusic => Repeat::Dont,
            Repeat::AllMusics => Repeat::ThisMusic,
            Repeat::Dont => Repeat::AllMusics,
        }
    }

    pub fn next(self) -> (r: Repeat)
        ensures
            r == self.following(),
    {
        match self {
            Repeat::ThisMusic => Repeat::AllMusics,
            Repeat::AllMusics => Repeat::Dont,
            Repeat::Dont => Repeat::ThisMusic,
        }
    }

    pub fn previous(self) -> (r: Repeat)
        ensures
            r == self.preceding(),
    {
        match self {
            Repeat::ThisMusic => Repeat::Dont,
            Repeat::AllMusics => Repeat::ThisMusic,
            Repeat::Dont => Repeat::AllMusics,
        }
    }
}

/// The regions of the screen that can have the focus.
#[derive(Debug, Copy, Clone, PartialEq, Eq, Structural)]
pub enum Region {
    List,
    Action,
    Seeker,
    Volume,
}

impl Default for Region {
    fn default() -> (r: Self)
        ensures
            r == Region::List,
    {
        Region::List
    }
}

/// The buttons of the action region, in the order
/// `BackwardSkip, TogglePlay, ForwardSkip, Stop, Repeat, Sort`.
#[derive(Debug, Copy, Clone, PartialEq, Eq, Structural)]
pub enum PowerActions {
    TogglePlay,
    ForwardSkip,
    BackwardSkip,
    Repeat,
    Sort,
    Stop,
}

impl PowerActions {
    /// The button to the right, from the last going to the first.
    pub open spec fn following(self) -> PowerActions {
        match self {
            PowerActions::BackwardSkip => PowerActions::TogglePlay,
            PowerActions::TogglePlay => PowerActions::ForwardSkip,
            PowerActions::ForwardSkip => PowerActions::Stop,
            PowerActions::Stop => PowerActions::Repeat,
            PowerActions::Repeat => PowerActions::Sort,
            PowerActions::Sort => PowerActions::BackwardSkip,
        }
    }

    /// The button to the left, from the first going to the last.
    pub open spec fn preceding(self) -> PowerActions {
        match self {
            PowerActions::Sort => PowerActions::Repeat,
            PowerActions::Repeat => PowerActions::Stop,
            PowerActions::Stop => PowerActions::ForwardSkip,
            PowerActions::ForwardSkip => PowerActions::TogglePlay,
            PowerActions::TogglePlay => PowerActions::BackwardSkip,
            PowerActions::BackwardSkip => PowerActions::Sort,
        }
    }

    /// The command that pressing the button gives, for the four buttons
    /// that give one.
    pub open spec fn command(self) -> Option<Command> {
        match self {
            PowerActions::TogglePlay => Some(Command::TogglePlay),
            PowerActions::ForwardSkip => Some(Command::NextTrack),
            PowerActions::BackwardSkip => Some(Command::PreviousTrack),
            PowerActions::Stop => Some(Command::Stop),
            PowerActions::Repeat => None,
            PowerActions::Sort => None,
        }
    }

    /// The place of the button in its row, from 0.
    pub open spec fn place(self) -> nat {
        match self {
            PowerActions::BackwardSkip => 0,
            PowerActions::TogglePlay => 1,
            PowerActions::ForwardSkip => 2,
            PowerActions::Stop => 3,
            PowerActions::Repeat => 4,
            PowerActions::Sort => 5,
        }
    }
}

/// The interface state.
#[derive(Debug)]
pub struct UI {
    /// The catalog.
    pub music_list: Musics,
    /// The selected button of the action region.
    pub action: PowerActions,
    /// The region that has the focus.
    pub region: Region,
    /// What the list region reads keys as.
    pub mode: ListMode,
    /// The search text.
    pub search_bufr: String,
    pub anticipation_mode: AncitipationMode,
    pub repeat: Repeat,
    pub order: Sorting,
    /// What was last learned from the player.
    pub state: State,
}

/// What the interface state holds.
pub struct UIView {
    pub catalog: CatalogView,
    pub action: PowerActions,
    pub region: Region,
    pub mode: ListMode,
    pub buffer: Seq<char>,
    pub anticipation: AncitipationMode,
    pub repeat: Repeat,
    pub order: Sorting,
    pub state: State,
}

impl View for UI {
    type V = UIView;

    open spec fn view(&self) -> UIView {
        UIView {
            catalog: self.music_list@,
            action: self.action,
            region: self.region,
            mode: self.mode,
            buffer: self.search_bufr@,
            anticipation: self.anticipation_mode,
            repeat: self.repeat,
            order: self.order,
            state: self.state,
        }
    }
}

/// The region that a key event moves the focus to from `region`, if it is
/// one of the bindings that do: Alt with a direction key.
pub open spec fn region_binding(region: Region, key: Key) -> Option<Region> {
    match key.char_with(Modifiers::Alt) {
        Some(c) => match region {
            Region::List => if c == 'k' {
                Some(Region::Seeker)
            } else if c == 'j' {
                Some(Region::Action)
            } else {
                None
            },
            Region::Action => if c == 'j' {
                Some(Region::Seeker)
            } else if c == 'k' {
                Some(Region::List)
            } else {
                None
            },
            Region::Seeker => if c == 'j' {
                Some(Region::List)
            } else if c == 'k' {
                Some(Region::Action)
            } else if c == 'y' || c == 'l' {
                Some(Region::Volume)
            } else {
                None
            },
            Region::Volume => if c == 'j' {
                Some(Region::List)
            } else if c == 'k' {
                Some(Region::Action)
            } else if c == 'l' || c == 'h' {
                Some(Region::Seeker)
            } else {
                None
            },
        },
        None => None,
    }
}

impl UIView {
    pub open spec fn wf(self) -> bool {
        self.catalog.wf()
    }

    /// The state with another catalog.
    pub open spec fn with_catalog(self, catalog: CatalogView) -> UIView {
        UIView { catalog, ..self }
    }

    /// The state with no key awaited.
    pub open spec fn settled(self) -> UIView {
        UIView { anticipation: AncitipationMode::Normal, ..self }
    }

    /// Keys are read as search text.
    pub open spec fn searching(self) -> bool {
        self.region == Region::List && self.mode == ListMode::Search
    }

    /// The command to play the selected track, if there is one.
    pub open spec fn play_selected(self) -> Option<Command> {
        match self.catalog.selection() {
            Some(t) => Some(Command::Play(t)),
            None => None,
        }
    }

    /// The state after a search is over: the text empty, the whole
    /// collection shown, the list back in `Select`.
    pub open spec fn search_left(self) -> UIView {
        UIView {
            catalog: self.catalog.unfiltered(),
            buffer: Seq::empty(),
            mode: ListMode::Select,
            ..self
        }
    }

    /// The selection moved by a scroll down, where it can move.
    pub open spec fn scrolled_down(self) -> UIView {
        let c = self.catalog;
        if c.shown.len() == 0 || c.selected == c.shown.len() - 1 {
            self.with_catalog(c.at_top())
        } else if c.selected + SCROLL_STEP < c.shown.len() {
            self.with_catalog(c.selecting(c.selected + SCROLL_STEP))
        } else {
            self
        }
    }

    /// The selection moved by a scroll up, where it can move.
    pub open spec fn scrolled_up(self) -> UIView {
        let c = self.catalog;
        if c.selected == 0 {
            self.with_catalog(c.at_bottom())
        } else if c.selected >= SCROLL_STEP {
            self.with_catalog(c.selecting(c.selected - SCROLL_STEP))
        } else {
            self
        }
    }

    /// The command of a global binding: `m` mutes, `p` toggles play, `n`
    /// skips forward and `N` backward, whatever the modifiers. While keys
    /// are read as search text there is none.
    pub open spec fn global_command(self, key: Key) -> Option<Command> {
        if self.searching() {
            None
        } else {
            match key.code {
                KeyCode::Char(c) => if c == 'm' {
                    Some(Command::ToggleMute)
                } else if c == 'p' {
                    Some(Command::TogglePlay)
                } else if c == 'n' {
                    Some(Command::NextTrack)
                } else if c == 'N' {
                    Some(Command::PreviousTrack)
                } else {
                    None
                },
                _ => None,
            }
        }
    }

    /// `List`/`Select`: the state after `key`.
    ///
    /// An awaited key is resolved first: `g` after `g` selects the first
    /// track and every other event does nothing. Else `j` and `k` move
    /// the selection, `/` opens an empty search, `s` selects the playing
    /// track, `g` awaits its partner, `G` selects the last track, and
    /// Control with `d` or `u` scrolls.
    pub open spec fn select_next(self, key: Key) -> UIView {
        let calm = self.settled();
        let c = self.catalog;
        match self.anticipation {
            AncitipationMode::Char(a) => if a == 'g' && key.is_char(Modifiers::Plain, 'g') {
                calm.with_catalog(c.at_top())
            } else {
                calm
            },
            AncitipationMode::Normal => if !key.pressed {
                calm
            } else {
                match key.modifiers {
                    Modifiers::Plain => match key.code {
                        KeyCode::Char(k) => if k == 'j' {
                            calm.with_catalog(c.moved_down())
                        } else if k == 'k' {
                            calm.with_catalog(c.moved_up())
                        } else if k == '/' {
                            UIView { mode: ListMode::Search, buffer: Seq::empty(), ..calm }
                        } else if k == 's' {
                            calm.with_catalog(c.at_playing())
                        } else if k == 'g' {
                            UIView { anticipation: AncitipationMode::Char('g'), ..self }
                        } else if k == 'G' {
                            calm.with_catalog(c.at_bottom())
                        } else {
                            calm
                        },
                        _ => calm,
                    },
                    Modifiers::Shift => if key.code == KeyCode::Char('G') {
                        calm.with_catalog(c.at_bottom())
                    } else {
                        calm
                    },
                    Modifiers::Control => if key.code == KeyCode::Char('d') {
                        calm.scrolled_down()
                    } else if key.code == KeyCode::Char('u') {
                        calm.scrolled_up()
                    } else {
                        calm
                    },
                    _ => calm,
                }
            },
        }
    }

    /// `List`/`Select`: what `key` leads to. With no key awaited, Enter
    /// and Space play the selected track and `q` leaves.
    pub open spec fn select_reaction(self, key: Key) -> Reaction {
        if self.anticipation != AncitipationMode::Normal {
            Reaction::nothing()
        } else if key.is_key(Modifiers::Plain, KeyCode::Enter) || key.is_char(
            Modifiers::Plain,
            ' ',
        ) {
            Reaction::asking(self.play_selected())
        } else if key.is_char(Modifiers::Plain, 'q') {
            Reaction::leaving()
        } else {
            Reaction::nothing()
        }
    }

    /// `List`/`Search`: `post` is a state after `key`. An unmodified
    /// character goes into the search text and Backspace takes the last
    /// one out, and the catalog shows what the new text asks for; Enter
    /// ends the search; Esc keeps the result and goes to `AfterSearch`.
    pub open spec fn search_moves(self, key: Key, post: UIView) -> bool {
        let calm = self.settled();
        if key.pressed && key.modifiers == Modifiers::Plain {
            match key.code {
                KeyCode::Char(c) => self.typed(self.buffer.push(c), post),
                KeyCode::Backspace => self.typed(
                    if self.buffer.len() > 0 {
                        self.buffer.drop_last()
                    } else {
                        self.buffer
                    },
                    post,
                ),
                KeyCode::Enter => post == calm.search_left(),
                KeyCode::Esc => post == (UIView { mode: ListMode::AfterSearch, ..calm }),
                _ => post == calm,
            }
        } else {
            post == calm
        }
    }

    /// `post` is this state with the search text `buffer` and the catalog
    /// showing what it asks for.
    pub open spec fn typed(self, buffer: Seq<char>, post: UIView) -> bool {
        &&& post == (UIView { catalog: post.catalog, buffer, ..self.settled() })
        &&& self.catalog.searched_into(buffer, post.catalog)
    }

    /// `List`/`Search`: what `key` leads to. Enter plays the selected
    /// track.
    pub open spec fn search_reaction(self, key: Key) -> Reaction {
        if key.is_key(Modifiers::Plain, KeyCode::Enter) {
            Reaction::asking(self.play_selected())
        } else {
            Reaction::nothing()
        }
    }

    /// `List`/`AfterSearch`: the state after `key`. `j` and `k` move the
    /// selection and `/` takes the search up again, with or without Alt;
    /// `q`, Esc, Enter and Space end the search.
    pub open spec fn after_search_next(self, key: Key) -> UIView {
        let calm = self.settled();
        let c = self.catalog;
        if !key.pressed {
            calm
        } else {
            match key.modifiers {
                Modifiers::Plain => match key.code {
                    KeyCode::Char(k) => if k == 'j' {
                        calm.with_catalog(c.moved_down())
                    } else if k == 'k' {
                        calm.with_catalog(c.moved_up())
                    } else if k == '/' {
                        UIView { mode: ListMode::Search, ..calm }
                    } else if k == 'q' || k == ' ' {
                        calm.search_left()
                    } else {
                        calm
                    },
                    KeyCode::Enter => calm.search_left(),
                    KeyCode::Esc => calm.search_left(),
                    _ => calm,
                },
                Modifiers::Alt => match key.code {
                    KeyCode::Char(k) => if k == 'j' {
                        calm.with_catalog(c.moved_down())
                    } else if k == 'k' {
                        calm.with_catalog(c.moved_up())
                    } else if k == '/' {
                        UIView { mode: ListMode::Search, ..calm }
                    } else {
                        calm
                    },
                    _ => calm,
                },
                _ => calm,
            }
        }
    }

    /// `List`/`AfterSearch`: what `key` leads to. Enter and Space play
    /// the selected track.
    pub open spec fn after_search_reaction(self, key: Key) -> Reaction {
        if key.is_key(Modifiers::Plain, KeyCode::Enter) || key.is_char(Modifiers::Plain, ' ') {
            Reaction::asking(self.play_selected())
        } else {
            Reaction::nothing()
        }
    }

    /// The state with the focus on `region` and no key awaited.
    pub open spec fn focused(self, region: Region) -> UIView {
        UIView { region, ..self.settled() }
    }

    /// The list region: `post` is a state after `key`. A region binding
    /// moves the focus and leaves the mode; every other key is read by
    /// the mode.
    pub open spec fn list_moves(self, key: Key, post: UIView) -> bool {
        match region_binding(Region::List, key) {
            Some(region) => post == self.focused(region),
            None => match self.mode {
                ListMode::Search => self.search_moves(key, post),
                ListMode::AfterSearch => post == self.after_search_next(key),
                ListMode::Select => post == self.select_next(key),
            },
        }
    }

    /// The list region: what `key` leads to.
    pub open spec fn list_reaction(self, key: Key) -> Reaction {
        match region_binding(Region::List, key) {
            Some(region) => Reaction::nothing(),
            None => match self.mode {
                ListMode::Search => self.search_reaction(key),
                ListMode::AfterSearch => self.after_search_reaction(key),
                ListMode::Select => self.select_reaction(key),
            },
        }
    }

    /// `post` is this state after the selected button was pressed: `Sort`
    /// takes the next order and sorts the catalog by it, `Repeat` takes
    /// the next repeat, the others change nothing.
    pub open spec fn pressed_into(self, post: UIView) -> bool {
        match self.action {
            PowerActions::Sort => {
                &&& post == (UIView { catalog: post.catalog, order: self.order.following(), ..self })
                &&& self.catalog.sorted_into(Some(self.order.following()), post.catalog)
            },
            PowerActions::Repeat => post == (UIView { repeat: self.repeat.following(), ..self }),
            _ => post == self,
        }
    }

    /// `post` is this state after the selected button was turned back:
    /// `Sort` takes the order before and sorts by it, `Repeat` the repeat
    /// before, the others change nothing.
    pub open spec fn turned_back_into(self, post: UIView) -> bool {
        match self.action {
            PowerActions::Sort => {
                &&& post == (UIView { catalog: post.catalog, order: self.order.preceding(), ..self })
                &&& self.catalog.sorted_into(Some(self.order.preceding()), post.catalog)
            },
            PowerActions::Repeat => post == (UIView { repeat: self.repeat.preceding(), ..self }),
            _ => post == self,
        }
    }

    /// The action region: `post` is a state after `key`. `l` and `h` go
    /// to the next and the previous button, Enter and Space press the
    /// selected one, Alt with Enter turns it back.
    pub open spec fn action_moves(self, key: Key, post: UIView) -> bool {
        let calm = self.settled();
        match region_binding(Region::Action, key) {
            Some(region) => post == self.focused(region),
            None => if key.is_char(Modifiers::Plain, 'l') {
                post == (UIView { action: self.action.following(), ..calm })
            } else if key.is_char(Modifiers::Plain, 'h') {
                post == (UIView { action: self.action.preceding(), ..calm })
            } else if key.is_key(Modifiers::Plain, KeyCode::Enter) || key.is_char(
                Modifiers::Plain,
                ' ',
            ) {
                calm.pressed_into(post)
            } else if key.is_key(Modifiers::Alt, KeyCode::Enter) {
                calm.turned_back_into(post)
            } else {
                post == calm
            },
        }
    }

    /// The action region: what `key` leads to. `q` leaves; Enter and
    /// Space give the command of the selected button.
    pub open spec fn action_reaction(self, key: Key) -> Reaction {
        if key.is_char(Modifiers::Plain, 'q') {
            Reaction::leaving()
        } else if key.is_key(Modifiers::Plain, KeyCode::Enter) || key.is_char(
            Modifiers::Plain,
            ' ',
        ) {
            Reaction::asking(self.action.command())
        } else {
            Reaction::nothing()
        }
    }

    /// The command of a seek forward: a seek by `SEEK_STEP` seconds where
    /// that stays before the end of the track, else a skip forward.
    pub open spec fn forward_command(self) -> Command {
        if self.state.batch.played_duration.total() + SEEK_STEP * 1_000_000_000
            < self.state.batch.music_duration.total() {
            Command::SeekRelative(SEEK_STEP)
        } else {
            Command::NextTrack
        }
    }

    /// The command of a seek backward: a seek back by `SEEK_STEP` seconds
    /// where so much has played, else a skip backward.
    pub open spec fn backward_command(self) -> Command {
        if self.state.batch.played_duration.total() >= SEEK_STEP * 1_000_000_000 {
            Command::SeekRelative(SEEK_BACK)
        } else {
            Command::PreviousTrack
        }
    }

    /// The seeker and the volume region: the state after `key` in
    /// `region`. Only a region binding changes it.
    pub open spec fn bar_next(self, region: Region, key: Key) -> UIView {
        match region_binding(region, key) {
            Some(to) => self.focused(to),
            None => self.settled(),
        }
    }

    /// The seeker region: what `key` leads to. `l` and `h` seek, `k`
    /// toggles play, `q` leaves.
    pub open spec fn seeker_reaction(self, key: Key) -> Reaction {
        match key.char_with(Modifiers::Plain) {
            Some(c) => if c == 'l' {
                Reaction::asking(Some(self.forward_command()))
            } else if c == 'h' {
                Reaction::asking(Some(self.backward_command()))
            } else if c == 'k' {
                Reaction::asking(Some(Command::TogglePlay))
            } else if c == 'q' {
                Reaction::leaving()
            } else {
                Reaction::nothing()
            },
            None => Reaction::nothing(),
        }
    }

    /// The volume region: what `key` leads to. Unmodified `k` and `l`
    /// turn the volume up and `h` and `j` down; with Shift it is the
    /// other way round; `q` leaves.
    pub open spec fn volume_reaction(self, key: Key) -> Reaction {
        match key.char_with(Modifiers::Plain) {
            Some(c) => if c == 'k' || c == 'l' {
                Reaction::asking(Some(Command::VolumeDelta(VOLUME_UP)))
            } else if c == 'h' || c == 'j' {
                Reaction::asking(Some(Command::VolumeDelta(VOLUME_DOWN)))
            } else if c == 'q' {
                Reaction::leaving()
            } else {
                Reaction::nothing()
            },
            None => match key.char_with(Modifiers::Shift) {
                Some(c) => if c == 'j' || c == 'h' {
                    Reaction::asking(Some(Command::VolumeDelta(VOLUME_UP)))
                } else if c == 'k' || c == 'l' {
                    Reaction::asking(Some(Command::VolumeDelta(VOLUME_DOWN)))
                } else {
                    Reaction::nothing()
                },
                None => Reaction::nothing(),
            },
        }
    }

    /// `post` is a state after `key`, read in the region that has the
    /// focus.
    pub open spec fn moves_to(self, key: Key, post: UIView) -> bool {
        match self.region {
            Region::List => self.list_moves(key, post),
            Region::Action => self.action_moves(key, post),
            Region::Seeker => post == self.bar_next(Region::Seeker, key),
            Region::Volume => post == self.bar_next(Region::Volume, key),
        }
    }

    /// What `key` leads to in the region that has the focus.
    pub open spec fn region_reaction(self, key: Key) -> Reaction {
        match self.region {
            Region::List => self.list_reaction(key),
            Region::Action => self.action_reaction(key),
            Region::Seeker => self.seeker_reaction(key),
            Region::Volume => self.volume_reaction(key),
        }
    }

    /// What `key` leads to: the command of a global binding, or what the
    /// region makes of the key.
    pub open spec fn reaction_to(self, key: Key) -> Reaction {
        let local = self.region_reaction(key);
        match self.global_command(key) {
            Some(command) => Reaction { quit: local.quit, command: Some(command) },
            None => local,
        }
    }

    /// The state in which `track` plays, and the calls that start it.
    pub open spec fn playing(self, track: Music) -> (UIView, Seq<PlayerCall>) {
        (
            self.with_catalog(self.catalog.marked(track@)),
            play_calls(self.state.batch.status, track),
        )
    }

    /// As `playing`, for a track that may be missing.
    pub open spec fn playing_if(self, track: Option<Music>) -> (UIView, Seq<PlayerCall>) {
        match track {
            Some(t) => self.playing(t),
            None => (self, Seq::empty()),
        }
    }

    /// Play toggled: a playing player pauses, a pausing one resumes, and
    /// a stopped one starts the track it had, if its file is there, and
    /// else the selected track.
    pub open spec fn toggled(self) -> (UIView, Seq<PlayerCall>) {
        match self.state.batch.status {
            Status::Playing => (self, seq![PlayerCall::Pause]),
            Status::Pausing => (self, seq![PlayerCall::Resume]),
            Status::Stopping => if self.state.batch.playing_on_disk {
                self.playing(self.state.batch.playing_music)
            } else {
                self.playing_if(self.catalog.selection())
            },
        }
    }

    /// The state after `command` and the calls it makes on the player.
    pub open spec fn performed(self, command: Command) -> (UIView, Seq<PlayerCall>) {
        match command {
            Command::Play(track) => self.playing(track),
            Command::NextTrack => self.playing_if(self.catalog.next_track()),
            Command::PreviousTrack => self.playing_if(self.catalog.previous_track()),
            Command::TogglePlay => self.toggled(),
            Command::Stop => (self, seq![PlayerCall::End]),
            Command::ToggleMute => (self, seq![PlayerCall::ToggleMute]),
            Command::SeekRelative(by) => (self, seq![PlayerCall::Seek(by)]),
            Command::VolumeDelta(by) => (self, seq![PlayerCall::Volume(by)]),
        }
    }

    /// What the end of a track leads to while the player plays: with
    /// `ThisMusic`, the same track again once the whole seconds played
    /// are those of its length; with `AllMusics`, the next track once the
    /// time played and a fifth of a second reach them.
    pub open spec fn repeated(self) -> (UIView, Seq<PlayerCall>) {
        let b = self.state.batch;
        if b.status != Status::Playing {
            (self, Seq::empty())
        } else {
            match self.repeat {
                Repeat::ThisMusic => if b.played_duration.secs == b.music_duration.secs {
                    self.playing(b.playing_music)
                } else {
                    (self, Seq::empty())
                },
                Repeat::AllMusics => if b.played_duration.total() + 200_000_000
                    >= b.music_duration.secs * 1_000_000_000 {
                    self.playing_if(self.catalog.next_track())
                } else {
                    (self, Seq::empty())
                },
                Repeat::Dont => (self, Seq::empty()),
            }
        }
    }
}

impl UI {
    pub open spec fn wf(&self) -> bool {
        self@.wf()
    }

    /// Whether the state is well formed.
    pub fn well_formed(&self) -> (r: bool)
        ensures
            r == self.wf(),
    {
        self.music_list.well_formed()
    }

    /// The interface at its start: an empty catalog, the focus on the
    /// list in `Select`, no key awaited, nothing repeated.
    pub fn default() -> (r: UI)
        ensures
            r.wf(),
            r@.catalog == (CatalogView {
                full: Seq::empty(),
                shown: Seq::empty(),
                selected: 0,
                playing: None,
            }),
            r@.region == Region::List,
            r@.mode == ListMode::Select,
            r@.anticipation == AncitipationMode::Normal,
            r@.action == PowerActions::BackwardSkip,
            r@.buffer == Seq::<char>::empty(),
            r@.repeat == Repeat::Dont,
            r@.order == Sorting::ByTitleAscending,
            r@.state.batch.status == Status::Stopping,
    {
        UI {
            music_list: Musics::new(Vec::new()),
            action: PowerActions::BackwardSkip,
            region: Region::List,
            mode: ListMode::Select,
            search_bufr: String::new(),
            anticipation_mode: AncitipationMode::Normal,
            repeat: Repeat::Dont,
            order: Sorting::ByTitleAscending,
            state: State::new(),
        }
    }

    /// Takes the order and the repeat from the settings.
    pub fn update_from_config(&mut self, config: &Config)
        ensures
            final(self)@ == (UIView {
                repeat: config.repeating(),
                order: config.order(),
                ..old(self)@
            }),
    {
        self.repeat = match config.repeat {
            Some(r) => r,
            None => Repeat::Dont,
        };
        self.order = match config.sorting {
            Some(o) => o,
            None => Sorting::ByTitleAscending,
        };
    }

    /// Takes `musics` as the catalog.
    pub fn musics(&mut self, musics: Musics)
        requires
            musics.wf(),
        ensures
            final(self).wf(),
            final(self)@ == old(self)@.with_catalog(musics@),
    {
        self.music_list = musics;
    }

    pub fn previous_action(&mut self)
        ensures
            final(self)@ == (UIView { action: old(self)@.action.preceding(), ..old(self)@ }),
    {
        self.action = match self.action {
            PowerActions::Sort => PowerActions::Repeat,
            PowerActions::Repeat => PowerActions::Stop,
            PowerActions::Stop => PowerActions::ForwardSkip,
            PowerActions::ForwardSkip => PowerActions::TogglePlay,
            PowerActions::TogglePlay => PowerActions::BackwardSkip,
            PowerActions::BackwardSkip => PowerActions::Sort,
        }
    }

    pub fn next_action(&mut self)
        ensures
            final(self)@ == (UIView { action: old(self)@.action.following(), ..old(self)@ }),
    {
        self.action = match self.action {
            PowerActions::BackwardSkip => PowerActions::TogglePlay,
            PowerActions::TogglePlay => PowerActions::ForwardSkip,
            PowerActions::ForwardSkip => PowerActions::Stop,
            PowerActions::Stop => PowerActions::Repeat,
            PowerActions::Repeat => PowerActions::Sort,
            PowerActions::Sort => PowerActions::BackwardSkip,
        }
    }

    /// The place of the selected button in its row.
    pub fn get_action_index(&self) -> (r: usize)
        ensures
            r == self.action.place(),
    {
        match self.action {
            PowerActions::BackwardSkip => 0,
            PowerActions::TogglePlay => 1,
            PowerActions::ForwardSkip => 2,
            PowerActions::Stop => 3,
            PowerActions::Repeat => 4,
            PowerActions::Sort => 5,
        }
    }

    pub fn select_list_region(&mut self)
        ensures
            final(self)@ == (UIView { region: Region::List, ..old(self)@ }),
    {
        self.region = Region::List;
    }

    pub fn select_bar_region(&mut self)
        ensures
            final(self)@ == (UIView { region: Region::Seeker, ..old(self)@ }),
    {
        self.region = Region::Seeker;
    }

    pub fn select_action_region(&mut self)
        ensures
            final(self)@ == (UIView { region: Region::Action, ..old(self)@ }),
    {
        self.region = Region::Action;
    }

    pub fn select_volume_region(&mut self)
        ensures
            final(self)@ == (UIView { region: Region::Volume, ..old(self)@ }),
    {
        self.region = Region::Volume;
    }

    /// Renders a playing time of `time` seconds as `mm:ss`.
    pub fn duration_to_string(time: u64) -> (r: String)
        ensures
            r@ == rendered_duration(time as nat),
    {
        render_duration(time)
    }

    /// The time played and the length of the track, as `mm:ss/mm:ss`.
    pub fn timer(&self) -> (r: String)
        ensures
            r@ == rendered_duration(self.state.batch.played_duration.secs as nat) + seq!['/']
                + rendered_duration(self.state.batch.playing_music.length.secs as nat),
    {
        let mut r = render_duration(self.state.batch.played_duration.as_secs());
        push_char(&mut r, '/');
        let total = render_duration(self.state.batch.playing_music.length.as_secs());
        vstd::string::StringExecFns::append(&mut r, total.as_str());
        r
    }

    /// Selects the track above, from the first going to the last.
    pub fn list_up(&mut self)
        requires
            old(self).wf(),
        ensures
            final(self).wf(),
            final(self)@ == old(self)@.with_catalog(old(self)@.catalog.moved_up()),
    {
        self.music_list.move_up();
    }

    /// Selects the track below, from the last going to the first.
    pub fn list_down(&mut self)
        requires
            old(self).wf(),
        ensures
            final(self).wf(),
            final(self)@ == old(self)@.with_catalog(old(self)@.catalog.moved_down()),
    {
        self.music_list.move_down();
    }

    /// Selects the first shown track.
    pub fn goto_top(&mut self)
        requires
            old(self).wf(),
        ensures
            final(self).wf(),
            final(self)@ == old(self)@.with_catalog(old(self)@.catalog.at_top()),
    {
        self.music_list.jump_top();
    }

    /// Selects the playing track where it is shown, else the first track.
    pub fn goto_playing(&mut self)
        requires
            old(self).wf(),
        ensures
            final(self).wf(),
            final(self)@ == old(self)@.with_catalog(old(self)@.catalog.at_playing()),
    {
        self.music_list.jump_to_playing();
    }

    /// Selects the last shown track.
    pub fn goto_bottom(&mut self)
        requires
            old(self).wf(),
        ensures
            final(self).wf(),
            final(self)@ == old(self)@.with_catalog(old(self)@.catalog.at_bottom()),
    {
        self.music_list.jump_bottom();
    }

    /// Moves the selection `SCROLL_STEP` tracks up, and from the first
    /// track to the last.
    pub fn scroll_list_up(&mut self)
        requires
            old(self).wf(),
            old(self).music_list.can_scroll_up(SCROLL_STEP),
        ensures
            final(self).wf(),
            final(self)@ == old(self)@.scrolled_up(),
    {
        self.music_list.scroll_up(SCROLL_STEP);
    }

    /// Moves the selection `SCROLL_STEP` tracks down, and from the last
    /// track to the first.
    pub fn scroll_list_down(&mut self)
        requires
            old(self).wf(),
            old(self).music_list.can_scroll_down(SCROLL_STEP),
        ensures
            final(self).wf(),
            final(self)@ == old(self)@.scrolled_down(),
    {
        self.music_list.scroll_down(SCROLL_STEP);
    }

    /// Scrolls up where the selection can move so far, and does nothing
    /// where it cannot.
    pub fn try_scroll_list_up(&mut self)
        requires
            old(self).wf(),
        ensures
            final(self).wf(),
            final(self)@ == old(self)@.scrolled_up(),
    {
        if self.music_list.scrolls_up(SCROLL_STEP) {
            self.scroll_list_up();
        }
    }

    /// Scrolls down where the selection can move so far, and does nothing
    /// where it cannot.
    pub fn try_scroll_list_down(&mut self)
        requires
            old(self).wf(),
        ensures
            final(self).wf(),
            final(self)@ == old(self)@.scrolled_down(),
    {
        if self.music_list.scrolls_down(SCROLL_STEP) {
            self.scroll_list_down();
        }
    }

    /// Puts `c` at the end of the search text and shows what the text
    /// asks for.
    pub fn register_querry(&mut self, c: char)
        requires
            old(self).wf(),
        ensures
            final(self).wf(),
            final(self)@ == (UIView {
                catalog: final(self)@.catalog,
                buffer: old(self)@.buffer.push(c),
                ..old(self)@
            }),
            old(self)@.catalog.searched_into(old(self)@.buffer.push(c), final(self)@.catalog),
    {
        push_char(&mut self.search_bufr, c);
        self.music_list.search(self.search_bufr.clone());
    }

    /// Takes the last character out of the search text and shows what
    /// the text asks for.
    pub fn delete_char_querry(&mut self)
        requires
            old(self).wf(),
        ensures
            final(self).wf(),
            final(self)@ == (UIView {
                catalog: final(self)@.catalog,
                buffer: final(self)@.buffer,
                ..old(self)@
            }),
            final(self)@.buffer == if old(self)@.buffer.len() > 0 {
                old(self)@.buffer.drop_last()
            } else {
                old(self)@.buffer
            },
            old(self)@.catalog.searched_into(final(self)@.buffer, final(self)@.catalog),
    {
        pop_char(&mut self.search_bufr);
        self.music_list.search(self.search_bufr.clone());
    }

    /// Empties the search text and shows the whole collection.
    pub fn reset_querry(&mut self)
        requires
            old(self).wf(),
        ensures
            final(self).wf(),
            final(self)@ == (UIView {
                catalog: old(self)@.catalog.unfiltered(),
                buffer: Seq::empty(),
                ..old(self)@
            }),
    {
        self.search_bufr = String::new();
        self.music_list.reset_search();
    }

    /// Goes to `mode`. Going to `Select` ends the search.
    pub fn change_list_mode(&mut self, mode: ListMode)
        requires
            old(self).wf(),
        ensures
            final(self).wf(),
            final(self)@ == if mode == ListMode::Select {
                old(self)@.search_left()
            } else {
                UIView { mode, ..old(self)@ }
            },
    {
        match mode {
            ListMode::Select => self.reset_querry(),
            _ => {},
        }
        self.mode = mode;
    }

    /// Awaits the partner of `arg`.
    pub fn anticipate(&mut self, arg: char)
        ensures
            final(self)@ == (UIView { anticipation: AncitipationMode::Char(arg), ..old(self)@ }),
    {
        self.anticipation_mode = AncitipationMode::Char(arg);
    }

    /// The command to play the selected track, if anything is shown.
    pub fn selected_command(&self) -> (r: Option<Command>)
        requires
            self.wf(),
        ensures
            r == self@.play_selected(),
    {
        match self.music_list.current_selection() {
            Ok(track) => Some(Command::Play(track)),
            Err(_) => None,
        }
    }

    /// Ends the search with the selected track to play.
    pub fn play_after_search(&mut self) -> (r: Option<Command>)
        requires
            old(self).wf(),
        ensures
            final(self).wf(),
            final(self)@ == old(self)@.search_left(),
            r == old(self)@.play_selected(),
    {
        let r = self.selected_command();
        self.reset_querry();
        self.mode = ListMode::Select;
        r
    }
}

} // verus!
