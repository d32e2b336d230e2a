//! What the terminal tells the client, the rounds in which the client does its actions, and what
//! it shows.

use vstd::prelude::*;

use crate::account_form;
use crate::action::{Action, ActionModel, Mode};
use crate::app;
use crate::app::{App, AppModel};
use crate::compose;
use crate::folder_list;
use crate::keys;
use crate::keys::{Key, KeyBindings};
use crate::mail_list;
use crate::mail_view;
use crate::status_bar;
use crate::text;
use crate::ui;
use crate::ui::{Area, Drawn, DrawnModel};
use crate::utils;
use crate::utils::is_sound_name;

verus! {

broadcast use {
    vstd::string::group_string_axioms,
    text::views_push,
    text::views_empty,
};

/// What the terminal tells.
#[derive(Clone, Copy, Debug, PartialEq, Eq, Structural)]
pub enum Event {
    Quit,
    Tick,
    Render,
    Resize(u16, u16),
    Key(Key),
    /// Anything else, which the client does not care for.
    Other,
}

/// The client with this action still to be done, if it is one.
pub open spec fn sent_opt(a: AppModel, action: Option<ActionModel>) -> AppModel {
    match action {
        Some(x) => app::sent(a, x),
        None => a,
    }
}

/// Whether the view takes all keys as text.
pub open spec fn takes_text(mode: Mode) -> bool {
    mode == Mode::AccountForm || mode == Mode::Compose
}

/// The client after a key, by what the keys of the view are bound to: the key alone, or else
/// along with those before it since the last tick.
pub open spec fn key_looked_up(
    a: AppModel,
    key: Key,
    bindings: Map<Mode, Map<Seq<Key>, ActionModel>>,
) -> AppModel {
    if takes_text(a.mode) || !bindings.dom().contains(a.mode) {
        a
    } else {
        match keys::looked_up(bindings[a.mode], seq![key]) {
            Some(action) => app::sent(a, action),
            None => {
                let b = AppModel { last_tick_key_events: a.last_tick_key_events.push(key), ..a };
                sent_opt(b, keys::looked_up(bindings[a.mode], b.last_tick_key_events))
            },
        }
    }
}

/// The client after its view took a key.
pub open spec fn key_taken(a: AppModel, key: Key) -> AppModel {
    match a.mode {
        Mode::Home => a,
        Mode::AccountForm => {
            let (f, action) = account_form::form_key(a.account_form, key);
            sent_opt(AppModel { account_form: f, ..a }, action)
        },
        Mode::FolderList => {
            let (l, action) = folder_list::folders_key(a.folder_list, key);
            sent_opt(AppModel { folder_list: l, ..a }, action)
        },
        Mode::MailList => {
            let (l, action) = mail_list::mails_key(a.mail_list, key);
            sent_opt(AppModel { mail_list: l, ..a }, action)
        },
        Mode::MailView => {
            let (v, action) = mail_view::view_key(a.mail_view, key);
            sent_opt(AppModel { mail_view: v, ..a }, action)
        },
        Mode::Compose => {
            let (c, action) = compose::compose_key(a.compose, key);
            sent_opt(AppModel { compose: c, ..a }, action)
        },
    }
}

/// The client after an event.
pub open spec fn told(
    a: AppModel,
    event: Event,
    bindings: Map<Mode, Map<Seq<Key>, ActionModel>>,
) -> AppModel {
    match event {
        Event::Quit => app::sent(a, Action::Quit),
        Event::Tick => app::sent(a, Action::Tick),
        Event::Render => app::sent(a, Action::Render),
        Event::Resize(w, h) => app::sent(a, Action::Resize(w, h)),
        Event::Key(key) => key_taken(key_looked_up(a, key, bindings), key),
        Event::Other => a,
    }
}

/// What the client does at the end of a round.
#[derive(Clone, Copy, Debug, PartialEq, Eq, Structural)]
pub enum RoundEnd {
    /// It gives up the terminal and takes it again.
    Suspend,
    /// It stops.
    Stop,
    /// It begins the next round.
    Continue,
}

/// The client at the end of a round, and what it does then.
pub open spec fn round_over(a: AppModel) -> (AppModel, RoundEnd) {
    if a.should_suspend {
        (app::sent(app::sent(a, Action::Resume), Action::ClearScreen), RoundEnd::Suspend)
    } else if a.should_quit {
        (a, RoundEnd::Stop)
    } else {
        (a, RoundEnd::Continue)
    }
}

/// Whether the names that the view shows can be read.
pub open spec fn view_sound(a: AppModel) -> bool {
    match a.mode {
        Mode::FolderList => folder_list::names_sound(a.folder_list.folders),
        Mode::MailList => utils::sound_name(a.mail_list.current_folder),
        _ => true,
    }
}

/// The client after its view was drawn in an area.
pub open spec fn redrawn(a: AppModel, area: Area) -> AppModel {
    if a.mode == Mode::MailList {
        AppModel { mail_list: mail_list::refreshed(a.mail_list, area.within_margin().width), ..a }
    } else {
        a
    }
}

/// The client after it was drawn in an area.
pub open spec fn rendered(a: AppModel, area: Area, now: u64) -> AppModel {
    let b = redrawn(a, area);
    AppModel { status_bar: status_bar::up_to_date(b.status_bar, now), ..b }
}

/// Whether this is the view of the client in an area. Where a view has parts, these are some
/// that the area can be split into.
pub open spec fn is_view(a: AppModel, area: Area, drawn: Seq<DrawnModel>) -> bool {
    match a.mode {
        Mode::Home => drawn == Seq::<DrawnModel>::empty(),
        Mode::AccountForm => exists|parts: Seq<Area>| #[trigger]
            ui::stacked(parts, area, account_form::form_rooms()) && drawn
                == account_form::form_drawn(a.account_form, parts),
        Mode::FolderList => drawn == folder_list::folders_drawn(a.folder_list, area),
        Mode::MailList => drawn == mail_list::mails_drawn(a.mail_list, area),
        Mode::MailView => match a.mail_view.mail {
            Some(m) => exists|parts: Seq<Area>| #[trigger]
                ui::stacked(parts, area, mail_view::view_rooms(m)) && drawn
                    == mail_view::view_drawn(a.mail_view, parts),
            None => drawn == seq![ui::hint_in(area, "未选择邮件"@)],
        },
        Mode::Compose => exists|parts: Seq<Area>| #[trigger]
            ui::stacked(parts, area, compose::compose_rooms(a.compose)) && drawn
                == compose::compose_drawn(a.compose, parts),
    }
}

impl App {
    fn send_opt(&mut self, action: Option<Action>)
        ensures
            final(self)@ == sent_opt(old(self)@, text::opt_view(action)),
    {
        if let Some(x) = action {
            self.send(x);
        }
    }

    /// Takes a key, by what the keys of the view are bound to.
    pub fn handle_key_event(&mut self, key: Key, bindings: &KeyBindings)
        ensures
            final(self)@ == key_looked_up(old(self)@, key, bindings@),
    {
        if self.mode == Mode::AccountForm || self.mode == Mode::Compose {
            return;
        }
        let keymap = match bindings.get(self.mode) {
            Some(map) => map,
            None => return,
        };
        let mut alone: Vec<Key> = Vec::new();
        alone.push(key);
        assert(alone@ =~= seq![key]);
        match keymap.get(&alone) {
            Some(action) => self.send(action),
            None => {
                self.last_tick_key_events.push(key);
                let action = keymap.get(&self.last_tick_key_events);
                self.send_opt(action);
            },
        }
    }

    fn give_key(&mut self, key: Key)
        requires
            app::app_wf(old(self)@),
        ensures
            final(self)@ == key_taken(old(self)@, key),
            app::app_wf(final(self)@),
    {
        let action = match self.mode {
            Mode::Home => None,
            Mode::AccountForm => self.account_form.handle_key_event(key),
            Mode::FolderList => self.folder_list.handle_key_event(key),
            Mode::MailList => self.mail_list.handle_key_event(key),
            Mode::MailView => self.mail_view.handle_key_event(key),
            Mode::Compose => self.compose.handle_key_event(key),
        };
        self.send_opt(action);
    }

    /// Takes an event. What the view of the accounts makes of it is left to that view.
    pub fn handle_event(&mut self, event: Event, bindings: &KeyBindings)
        requires
            app::app_wf(old(self)@),
        ensures
            final(self)@ == told(old(self)@, event, bindings@),
            app::app_wf(final(self)@),
    {
        match event {
            Event::Quit => self.send(Action::Quit),
            Event::Tick => self.send(Action::Tick),
            Event::Render => self.send(Action::Render),
            Event::Resize(w, h) => self.send(Action::Resize(w, h)),
            Event::Key(key) => {
                self.handle_key_event(key, bindings);
                self.give_key(key);
            },
            Event::Other => {},
        }
    }

    /// The oldest of the actions that are still to be done.
    pub fn next_action(&mut self) -> (r: Option<Action>)
        ensures
            old(self)@.pending.len() == 0 ==> r is None && final(self)@ == old(self)@,
            old(self)@.pending.len() > 0 ==> text::opt_view(r) == Some(old(self)@.pending[0])
                && final(self)@ == (AppModel {
                pending: old(self)@.pending.skip(1),
                ..old(self)@
            }),
    {
        if self.pending.len() == 0 {
            None
        } else {
            let ghost before = self@.pending;
            let action = self.pending.remove(0);
            assert(self@.pending =~= before.skip(1));
            Some(action)
        }
    }

    /// Ends a round.
    pub fn finish_round(&mut self) -> (r: RoundEnd)
        ensures
            (final(self)@, r) == round_over(old(self)@),
    {
        if self.should_suspend {
            self.send(Action::Resume);
            self.send(Action::ClearScreen);
            RoundEnd::Suspend
        } else if self.should_quit {
            RoundEnd::Stop
        } else {
            RoundEnd::Continue
        }
    }

    fn draw_view(&mut self, area: Area) -> (r: Vec<Drawn>)
        requires
            app::app_wf(old(self)@),
            view_sound(old(self)@),
        ensures
            final(self)@ == redrawn(old(self)@, area),
            is_view(final(self)@, area, text::views(r@)),
    {
        match self.mode {
            Mode::Home => {
                let none: Vec<Drawn> = Vec::new();
                assert(text::views(none@) =~= Seq::<DrawnModel>::empty());
                none
            },
            Mode::AccountForm => self.account_form.draw(area),
            Mode::FolderList => self.folder_list.draw(area),
            Mode::MailList => self.mail_list.draw(area),
            Mode::MailView => self.mail_view.draw(area),
            Mode::Compose => self.compose.draw(area),
        }
    }

    /// Whether the names that are to be shown can be read.
    pub fn can_render(&self) -> (r: bool)
        ensures
            r == (view_sound(self@) && status_bar::folder_sound(self@.status_bar)),
    {
        let sound = match self.mode {
            Mode::FolderList => self.folder_list.has_sound_names(),
            Mode::MailList => is_sound_name(self.mail_list.current_folder.as_str()),
            _ => true,
        };
        sound && self.status_bar.has_sound_folder()
    }

    /// Draws the view, and the status bar over it. The view of the accounts draws itself.
    pub fn render(&mut self, area: Area, now: u64) -> (r: Vec<Drawn>)
        requires
            app::app_wf(old(self)@),
            view_sound(old(self)@),
            status_bar::folder_sound(old(self)@.status_bar),
        ensures
            final(self)@ == rendered(old(self)@, area, now),
            exists|view: Seq<DrawnModel>, bar: Seq<DrawnModel>| #[trigger]
                (view + bar) == text::views(r@) && is_view(final(self)@, area, view)
                    && status_bar::is_bar(final(self)@.status_bar, area, bar),
            view_has_room(final(self)@, area) && status_bar::bar_has_room(area) ==> text::views(r@)
                == full_view(final(self)@, area) + status_bar::full_bar(
                final(self)@.status_bar,
                area,
            ),
    {
        let ghost before = self@;
        let mut out = self.draw_view(area);
        let mut bar = self.status_bar.draw(area, now);
        proof {
            let view = text::views(out@);
            let rest = text::views(bar@);
            assert(text::views(out@ + bar@) =~= view + rest);
            assert(is_view(self@, area, view));
            if view_has_room(self@, area) {
                view_in_full(self@, area, view);
            }
        }
        out.append(&mut bar);
        out
    }
}

/// Whether the parts of the view have room in the area.
pub open spec fn view_has_room(a: AppModel, area: Area) -> bool {
    match a.mode {
        Mode::AccountForm => ui::roomy(account_form::form_rooms(), area.y, area.height),
        Mode::MailView => a.mail_view.mail matches Some(m) ==> ui::roomy(
            mail_view::view_rooms(m),
            area.y,
            area.height,
        ),
        Mode::Compose => ui::roomy(compose::compose_rooms(a.compose), area.y, area.height),
        _ => true,
    }
}

/// The view of the client in an area that has room for its parts.
pub open spec fn full_view(a: AppModel, area: Area) -> Seq<DrawnModel> {
    match a.mode {
        Mode::Home => seq![],
        Mode::AccountForm => account_form::form_drawn(
            a.account_form,
            ui::cut_down(area, account_form::form_rooms()),
        ),
        Mode::FolderList => folder_list::folders_drawn(a.folder_list, area),
        Mode::MailList => mail_list::mails_drawn(a.mail_list, area),
        Mode::MailView => match a.mail_view.mail {
            Some(m) => mail_view::view_drawn(
                a.mail_view,
                ui::cut_down(area, mail_view::view_rooms(m)),
            ),
            None => seq![ui::hint_in(area, "未选择邮件"@)],
        },
        Mode::Compose => compose::compose_drawn(
            a.compose,
            ui::cut_down(area, compose::compose_rooms(a.compose)),
        ),
    }
}

/// Where its parts have room, there is one way only to draw the view.
pub proof fn view_in_full(a: AppModel, area: Area, drawn: Seq<DrawnModel>)
    requires
        is_view(a, area, drawn),
        view_has_room(a, area),
    ensures
        drawn == full_view(a, area),
{
    assert(Seq::<DrawnModel>::empty() =~= seq![]);
}

/// A terminal of twenty lines has room for every view.
pub proof fn view_room_enough(a: AppModel, area: Area)
    requires
        area.y + area.height <= u16::MAX,
        area.height >= 20,
    ensures
        view_has_room(a, area),
{
    reveal_with_fuel(ui::asked, 5);
}

/// What is typed as text is no command, whatever its keys are bound to.
pub proof fn text_is_no_command(
    a: AppModel,
    key: Key,
    bindings: Map<Mode, Map<Seq<Key>, ActionModel>>,
)
    requires
        takes_text(a.mode),
    ensures
        key_looked_up(a, key, bindings) == a,
{
}

/// Two keys that are bound together, and neither of which is bound alone, are found when they
/// come one after the other after a tick.
pub proof fn keys_in_turn(
    a: AppModel,
    first: Key,
    second: Key,
    bindings: Map<Mode, Map<Seq<Key>, ActionModel>>,
    action: ActionModel,
)
    requires
        !takes_text(a.mode),
        bindings.dom().contains(a.mode),
        a.last_tick_key_events.len() == 0,
        keys::looked_up(bindings[a.mode], seq![first]) is None,
        keys::looked_up(bindings[a.mode], seq![second]) is None,
        keys::looked_up(bindings[a.mode], seq![first, second]) == Some(action),
    ensures
        ({
            let b = key_looked_up(key_looked_up(a, first, bindings), second, bindings);
            b.pending == a.pending.push(action)
        }),
{
    assert(a.last_tick_key_events.push(first) =~= seq![first]);
    assert(a.last_tick_key_events.push(first).push(second) =~= seq![first, second]);
}

/// The actions are done in the order in which they came.
pub proof fn oldest_comes_first(a: AppModel, action: ActionModel)
    ensures
        a.pending.len() > 0 ==> app::sent(a, action).pending[0] == a.pending[0] && app::sent(
            a,
            action,
        ).pending.skip(1) == app::sent(
            AppModel { pending: a.pending.skip(1), ..a },
            action,
        ).pending,
        a.pending.len() == 0 ==> app::sent(a, action).pending[0] == action,
{
    if a.pending.len() > 0 {
        assert(app::sent(a, action).pending.skip(1) =~= a.pending.skip(1).push(action));
    }
}

} // verus!
