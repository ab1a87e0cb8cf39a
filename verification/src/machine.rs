//! The keyboard state machine: one key event in, the next state and what
//! the event leads to out.

use crate::command::{Command, Reaction};
use crate::keys::{Key, KeyCode, Modifiers};
use crate::ui::{
    region_binding, AncitipationMode, ListMode, PowerActions, Region, UIView, SEEK_BACK,
    SEEK_STEP, UI, VOLUME_DOWN, VOLUME_UP,
};
use vstd::prelude::*;

verus! {

impl ListMode {
    /// Reads `key` as search text.
    pub fn handle_search(ui: &mut UI, key: &Key) -> (r: Reaction)
        requires
            old(ui).wf(),
        ensures
            final(ui).wf(),
            old(ui)@.search_moves(*key, final(ui)@),
            r == old(ui)@.search_reaction(*key),
    {
        ui.anticipation_mode = AncitipationMode::Normal;
        if key.pressed && key.modifiers == Modifiers::Plain {
            match key.code {
                KeyCode::Char(c) => {
                    ui.register_querry(c);
                    Reaction::none()
                },
                KeyCode::Backspace => {
                    ui.delete_char_querry();
                    Reaction::none()
                },
                KeyCode::Enter => {
                    let command = ui.play_after_search();
                    Reaction::ask(command)
                },
                KeyCode::Esc => {
                    ui.mode = ListMode::AfterSearch;
                    Reaction::none()
                },
                _ => Reaction::none(),
            }
        } else {
            Reaction::none()
        }
    }

    /// Reads `key` over the result of a search.
    pub fn handle_after_search(ui: &mut UI, key: &Key) -> (r: Reaction)
        requires
            old(ui).wf(),
        ensures
            final(ui).wf(),
            final(ui)@ == old(ui)@.after_search_next(*key),
            r == old(ui)@.after_search_reaction(*key),
    {
        ui.anticipation_mode = AncitipationMode::Normal;
        if !key.pressed {
            return Reaction::none();
        }
        match key.modifiers {
            Modifiers::Plain => match key.code {
                KeyCode::Char(c) => {
                    if c == 'j' {
                        ui.list_down();
                    } else if c == 'k' {
                        ui.list_up();
                    } else if c == '/' {
                        ui.change_list_mode(ListMode::Search);
                    } else if c == 'q' {
                        ui.change_list_mode(ListMode::Select);
                    } else if c == ' ' {
                        let command = ui.play_after_search();
                        return Reaction::ask(command);
                    }
                    Reaction::none()
                },
                KeyCode::Enter => {
                    let command = ui.play_after_search();
                    Reaction::ask(command)
                },
                KeyCode::Esc => {
                    ui.change_list_mode(ListMode::Select);
                    Reaction::none()
                },
                _ => Reaction::none(),
            },
            Modifiers::Alt => match key.code {
                KeyCode::Char(c) => {
                    if c == 'j' {
                        ui.list_down();
                    } else if c == 'k' {
                        ui.list_up();
                    } else if c == '/' {
                        ui.change_list_mode(ListMode::Search);
                    }
                    Reaction::none()
                },
                _ => Reaction::none(),
            },
            _ => Reaction::none(),
        }
    }

    /// Reads `key` over the list.
    pub fn handle_select(ui: &mut UI, key: &Key) -> (r: Reaction)
        requires
            old(ui).wf(),
        ensures
            final(ui).wf(),
            final(ui)@ == old(ui)@.select_next(*key),
            r == old(ui)@.select_reaction(*key),
    {
        let awaited = ui.anticipation_mode;
        ui.anticipation_mode = AncitipationMode::Normal;
        match awaited {
            AncitipationMode::Char(a) => {
                if a == 'g' && key.pressed_key(Modifiers::Plain, KeyCode::Char('g')) {
                    ui.goto_top();
                }
                Reaction::none()
            },
            AncitipationMode::Normal => {
                if !key.pressed {
                    return Reaction::none();
                }
                match key.modifiers {
                    Modifiers::Plain => match key.code {
                        KeyCode::Enter => Reaction::ask(ui.selected_command()),
                        KeyCode::Char(c) => {
                            if c == 'j' {
                                ui.list_down();
                            } else if c == 'k' {
                                ui.list_up();
                            } else if c == '/' {
                                ui.search_bufr = String::new();
                                ui.mode = ListMode::Search;
                            } else if c == ' ' {
                                return Reaction::ask(ui.selected_command());
                            } else if c == 's' {
                                ui.goto_playing();
                            } else if c == 'g' {
                                ui.anticipate('g');
                            } else if c == 'G' {
                                ui.goto_bottom();
                            } else if c == 'q' {
                                return Reaction::leave();
                            }
                            Reaction::none()
                        },
                        _ => Reaction::none(),
                    },
                    Modifiers::Shift => {
                        if key.code == KeyCode::Char('G') {
                            ui.goto_bottom();
                        }
                        Reaction::none()
                    },
                    Modifiers::Control => {
                        if key.code == KeyCode::Char('d') {
                            ui.try_scroll_list_down();
                        } else if key.code == KeyCode::Char('u') {
                            ui.try_scroll_list_up();
                        }
                        Reaction::none()
                    },
                    _ => Reaction::none(),
                }
            },
        }
    }
}

impl Region {
    /// The region that `key` moves the focus to from `self`, if it is a
    /// region binding.
    pub fn bound_region(self, key: &Key) -> (r: Option<Region>)
        ensures
            r == region_binding(self, *key),
    {
        match key.pressed_char(Modifiers::Alt) {
            Some(c) => match self {
                Region::List => if c == 'k' {
                    Some(Region::Seeker)
                } else if c == 'j' {
                    Some(Region::Action)
                } else {
                    None
                },
                Region::Action => if c == 'j' {
                    Some(Region::Seeker)
                } else if c == 'k' {
                    Some(Region::List)
                } else {
                    None
                },
                Region::Seeker => if c == 'j' {
                    Some(Region::List)
                } else if c == 'k' {
                    Some(Region::Action)
                } else if c == 'y' || c == 'l' {
                    Some(Region::Volume)
                } else {
                    None
                },
                Region::Volume => if c == 'j' {
                    Some(Region::List)
                } else if c == 'k' {
                    Some(Region::Action)
                } else if c == 'l' || c == 'h' {
                    Some(Region::Seeker)
                } else {
                    None
                },
            },
            None => None,
        }
    }

    /// The command of a global binding, if `key` is one.
    pub fn handle_global(ui: &UI, key: &Key) -> (r: Option<Command>)
        ensures
            r == ui@.global_command(*key),
    {
        if ui.region == Region::List && ui.mode == ListMode::Search {
            return None;
        }
        match key.code {
            KeyCode::Char(c) => {
                if c == 'm' {
                    Some(Command::ToggleMute)
                } else if c == 'p' {
                    Some(Command::TogglePlay)
                } else if c == 'n' {
                    Some(Command::NextTrack)
                } else if c == 'N' {
                    Some(Command::PreviousTrack)
                } else {
                    None
                }
            },
            _ => None,
        }
    }

    /// Reads `key` in the list region.
    pub fn handle_list(ui: &mut UI, key: &Key) -> (r: Reaction)
        requires
            old(ui).wf(),
        ensures
            final(ui).wf(),
            old(ui)@.list_moves(*key, final(ui)@),
            r == old(ui)@.list_reaction(*key),
    {
        match Region::List.bound_region(key) {
            Some(region) => {
                ui.region = region;
                ui.anticipation_mode = AncitipationMode::Normal;
                Reaction::none()
            },
            None => match ui.mode {
                ListMode::Search => ListMode::handle_search(ui, key),
                ListMode::AfterSearch => ListMode::handle_after_search(ui, key),
                ListMode::Select => ListMode::handle_select(ui, key),
            },
        }
    }

    /// Reads `key` in the action region.
    pub fn handle_action(ui: &mut UI, key: &Key) -> (r: Reaction)
        requires
            old(ui).wf(),
        ensures
            final(ui).wf(),
            old(ui)@.action_moves(*key, final(ui)@),
            r == old(ui)@.action_reaction(*key),
    {
        ui.anticipation_mode = AncitipationMode::Normal;
        match Region::Action.bound_region(key) {
            Some(region) => {
                ui.region = region;
                return Reaction::none();
            },
            None => {},
        }
        if !key.pressed {
            return Reaction::none();
        }
        match key.modifiers {
            Modifiers::Plain => match key.code {
                KeyCode::Char(c) => {
                    if c == 'q' {
                        return Reaction::leave();
                    } else if c == 'l' {
                        ui.next_action();
                    } else if c == 'h' {
                        ui.previous_action();
                    } else if c == ' ' {
                        return Reaction::ask(ui.preform_action());
                    }
                    Reaction::none()
                },
                KeyCode::Enter => Reaction::ask(ui.preform_action()),
                _ => Reaction::none(),
            },
            Modifiers::Alt => {
                if key.code == KeyCode::Enter {
                    ui.cycle_back();
                }
                Reaction::none()
            },
            _ => Reaction::none(),
        }
    }

    /// Reads `key` in the seeker region.
    pub fn handle_seeker(ui: &mut UI, key: &Key) -> (r: Reaction)
        ensures
            final(ui)@ == old(ui)@.bar_next(Region::Seeker, *key),
            r == old(ui)@.seeker_reaction(*key),
    {
        ui.anticipation_mode = AncitipationMode::Normal;
        match Region::Seeker.bound_region(key) {
            Some(region) => {
                ui.region = region;
            },
            None => {},
        }
        match key.pressed_char(Modifiers::Plain) {
            Some(c) => {
                if c == 'l' {
                    Reaction::ask(Some(ui.next_5s()))
                } else if c == 'h' {
                    Reaction::ask(Some(ui.previous_5s()))
                } else if c == 'k' {
                    Reaction::ask(Some(Command::TogglePlay))
                } else if c == 'q' {
                    Reaction::leave()
                } else {
                    Reaction::none()
                }
            },
            None => Reaction::none(),
        }
    }

    /// Reads `key` in the volume region.
    pub fn handle_volume(ui: &mut UI, key: &Key) -> (r: Reaction)
        ensures
            final(ui)@ == old(ui)@.bar_next(Region::Volume, *key),
            r == old(ui)@.volume_reaction(*key),
    {
        ui.anticipation_mode = AncitipationMode::Normal;
        match Region::Volume.bound_region(key) {
            Some(region) => {
                ui.region = region;
            },
            None => {},
        }
        match key.pressed_char(Modifiers::Plain) {
            Some(c) => {
                if c == 'k' || c == 'l' {
                    Reaction::ask(Some(ui.increase_volume()))
                } else if c == 'h' || c == 'j' {
                    Reaction::ask(Some(ui.decrease_volume()))
                } else if c == 'q' {
                    Reaction::leave()
                } else {
                    Reaction::none()
                }
            },
            None => match key.pressed_char(Modifiers::Shift) {
                Some(c) => {
                    if c == 'j' || c == 'h' {
                        Reaction::ask(Some(ui.increase_volume()))
                    } else if c == 'k' || c == 'l' {
                        Reaction::ask(Some(ui.decrease_volume()))
                    } else {
                        Reaction::none()
                    }
                },
                None => Reaction::none(),
            },
        }
    }
}

impl UI {
    /// Presses the selected button of the action region.
    pub fn preform_action(&mut self) -> (r: Option<Command>)
        requires
            old(self).wf(),
        ensures
            final(self).wf(),
            old(self)@.pressed_into(final(self)@),
            r == old(self)@.action.command(),
    {
        match self.action {
            PowerActions::TogglePlay => Some(Command::TogglePlay),
            PowerActions::ForwardSkip => Some(Command::NextTrack),
            PowerActions::BackwardSkip => Some(Command::PreviousTrack),
            PowerActions::Stop => Some(Command::Stop),
            PowerActions::Sort => {
                self.order = self.order.next();
                self.music_list.sort(Some(self.order));
                None
            },
            PowerActions::Repeat => {
                self.repeat = self.repeat.next();
                None
            },
        }
    }

    /// Turns the selected button of the action region back.
    pub fn cycle_back(&mut self)
        requires
            old(self).wf(),
        ensures
            final(self).wf(),
            old(self)@.turned_back_into(final(self)@),
    {
        match self.action {
            PowerActions::Sort => {
                self.order = self.order.previous();
                self.music_list.sort(Some(self.order));
            },
            PowerActions::Repeat => {
                self.repeat = self.repeat.previous();
            },
            _ => {},
        }
    }

    /// The command of a seek forward.
    pub fn next_5s(&self) -> (r: Command)
        ensures
            r == self@.forward_command(),
    {
        let played = self.state.batch.played_duration.total_nanos();
        if played + 5_000_000_000u128 < self.state.batch.music_duration.total_nanos() {
            Command::SeekRelative(SEEK_STEP)
        } else {
            Command::NextTrack
        }
    }

    /// The command of a seek backward.
    pub fn previous_5s(&self) -> (r: Command)
        ensures
            r == self@.backward_command(),
    {
        if self.state.batch.played_duration.total_nanos() >= 5_000_000_000u128 {
            Command::SeekRelative(SEEK_BACK)
        } else {
            Command::PreviousTrack
        }
    }

    /// The command that turns the volume up.
    pub fn increase_volume(&self) -> (r: Command)
        ensures
            r == Command::VolumeDelta(VOLUME_UP),
    {
        Command::VolumeDelta(VOLUME_UP)
    }

    /// The command that turns the volume down.
    pub fn decrease_volume(&self) -> (r: Command)
        ensures
            r == Command::VolumeDelta(VOLUME_DOWN),
    {
        Command::VolumeDelta(VOLUME_DOWN)
    }

    /// Reads one key event: the global bindings first, then the region
    /// that has the focus.
    pub fn process(&mut self, key: &Key) -> (r: Reaction)
        requires
            old(self).wf(),
        ensures
            final(self).wf(),
            old(self)@.moves_to(*key, final(self)@),
            r == old(self)@.reaction_to(*key),
    {
        let global = Region::handle_global(self, key);
        let local = match self.region {
            Region::List => Region::handle_list(self, key),
            Region::Action => Region::handle_action(self, key),
            Region::Seeker => Region::handle_seeker(self, key),
            Region::Volume => Region::handle_volume(self, key),
        };
        match global {
            Some(command) => Reaction { quit: local.quit, command: Some(command) },
            None => local,
        }
    }
}

/// In `List`/`Select` with no key awaited, `g` and then `g` select the
/// first track, and `g` and then any other key event leave the catalog as
/// it was. Either way no key is awaited afterwards.
pub proof fn lemma_g_then_key(v: UIView, second: Key, mid: UIView, end: UIView)
    requires
        v.region == Region::List,
        v.mode == ListMode::Select,
        v.anticipation == AncitipationMode::Normal,
        v.moves_to(Key { code: KeyCode::Char('g'), modifiers: Modifiers::Plain, pressed: true }, mid),
        mid.moves_to(second, end),
    ensures
        mid == (UIView { anticipation: AncitipationMode::Char('g'), ..v }),
        end.anticipation == AncitipationMode::Normal,
        end.catalog == if second.is_char(Modifiers::Plain, 'g') {
            v.catalog.at_top()
        } else {
            v.catalog
        },
{
}

/// A key event gives at most one command: where a global binding gives
/// one, the region that has the focus gives none.
pub proof fn lemma_one_command(v: UIView, key: Key)
    ensures
        v.global_command(key) is Some ==> v.region_reaction(key).command is None,
        v.reaction_to(key).quit == v.region_reaction(key).quit,
{
}

} // verus!
