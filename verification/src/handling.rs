//! What the client makes of what the terminal tells it, and how its rounds end.

use vstd::prelude::*;

use crate::account_form;
use crate::action::{Action, ActionModel, Mode};
use crate::app;
use crate::app::AppModel;
use crate::compose;
use crate::events;
use crate::events::{Event, RoundEnd};
use crate::folder_list;
use crate::keys;
use crate::keys::{Binding, Key, KeyCode, KeyMap};
use crate::mail_list;
use crate::mail_view;
use crate::types::Account;

verus! {

/// Whether the second client is the first with one more action to be done.
pub open spec fn one_more(a: AppModel, b: AppModel, action: ActionModel) -> bool {
    &&& b.pending == a.pending.push(action)
    &&& b == (AppModel { pending: b.pending, ..a })
}

/// What the terminal tells besides keys becomes the action of its name, and changes nothing else.
pub proof fn events_become_actions(
    a: AppModel,
    w: u16,
    h: u16,
    bindings: Map<Mode, Map<Seq<Key>, ActionModel>>,
)
    ensures
        one_more(a, events::told(a, Event::Quit, bindings), Action::Quit),
        one_more(a, events::told(a, Event::Tick, bindings), Action::Tick),
        one_more(a, events::told(a, Event::Render, bindings), Action::Render),
        one_more(a, events::told(a, Event::Resize(w, h), bindings), Action::Resize(w, h)),
        events::told(a, Event::Other, bindings) == a,
{
}

/// A key whose meaning is bound in a view that takes commands gives that action; among the accounts
/// it does nothing else.
pub proof fn bound_key_gives_its_action(
    a: AppModel,
    key: Key,
    bindings: Map<Mode, Map<Seq<Key>, ActionModel>>,
)
    requires
        a.mode == Mode::Home,
        bindings.dom().contains(Mode::Home),
        bindings[Mode::Home].dom().contains(seq![key.normal()]),
    ensures
        one_more(
            a,
            events::told(a, Event::Key(key), bindings),
            bindings[Mode::Home][seq![key.normal()]],
        ),
{
    assert(keys::normal_keys(seq![key]) =~= seq![key.normal()]);
}

/// A key that is not bound, neither alone nor along with those before it, is only remembered among
/// the accounts. Where no keys are bound at all, it is not even that.
pub proof fn unbound_key_is_remembered(
    a: AppModel,
    key: Key,
    bindings: Map<Mode, Map<Seq<Key>, ActionModel>>,
)
    requires
        a.mode == Mode::Home,
    ensures
        !bindings.dom().contains(Mode::Home) ==> events::told(a, Event::Key(key), bindings) == a,
        bindings.dom().contains(Mode::Home) && !bindings[Mode::Home].dom().contains(
            seq![key.normal()],
        ) && !bindings[Mode::Home].dom().contains(
            keys::normal_keys(a.last_tick_key_events.push(key)),
        ) ==> events::told(a, Event::Key(key), bindings) == (AppModel {
            last_tick_key_events: a.last_tick_key_events.push(key),
            ..a
        }),
{
    assert(keys::normal_keys(seq![key]) =~= seq![key.normal()]);
}

/// Whether the two clients differ in nothing but the view of this mode, the keys that are remembered
/// and what is to be done.
pub open spec fn only_view_changes(a: AppModel, b: AppModel, mode: Mode) -> bool {
    &&& mode != Mode::AccountForm ==> b.account_form == a.account_form
    &&& mode != Mode::Compose ==> b.compose == a.compose
    &&& mode != Mode::FolderList ==> b.folder_list == a.folder_list
    &&& mode != Mode::MailList ==> b.mail_list == a.mail_list
    &&& mode != Mode::MailView ==> b.mail_view == a.mail_view
    &&& b.mode == a.mode
    &&& b.accounts == a.accounts
    &&& b.status_bar == a.status_bar
    &&& b.mail_client == a.mail_client
    &&& b.active_account_id == a.active_account_id
    &&& b.should_quit == a.should_quit
    &&& b.should_suspend == a.should_suspend
    &&& b.current == a.current
    &&& b.waiting == a.waiting
}

/// A key goes to the view that is open and to no other, and it does not by itself change the mode,
/// the accounts or the connection. Nothing that is already to be done is lost.
pub proof fn keys_go_to_the_open_view(
    a: AppModel,
    key: Key,
    bindings: Map<Mode, Map<Seq<Key>, ActionModel>>,
)
    ensures
        ({
            let b = events::told(a, Event::Key(key), bindings);
            &&& only_view_changes(a, b, a.mode)
            &&& a.mode == Mode::AccountForm ==> b.account_form == account_form::form_key(
                a.account_form,
                key,
            ).0
            &&& a.mode == Mode::Compose ==> b.compose == compose::compose_key(a.compose, key).0
            &&& a.mode == Mode::FolderList ==> b.folder_list == folder_list::folders_key(
                a.folder_list,
                key,
            ).0
            &&& a.mode == Mode::MailList ==> b.mail_list == mail_list::mails_key(
                a.mail_list,
                key,
            ).0
            &&& a.mode == Mode::MailView ==> b.mail_view == mail_view::view_key(
                a.mail_view,
                key,
            ).0
            &&& b.pending.len() >= a.pending.len()
            &&& b.pending.take(a.pending.len() as int) == a.pending
        }),
{
    let b = events::told(a, Event::Key(key), bindings);
    assert(b.pending.take(a.pending.len() as int) =~= a.pending);
}

/// Whether the actions are those that were to be done, then the one that the key is bound to, and
/// then the one that the view gives, if it gives one.
pub open spec fn done_in_turn(
    before: Seq<ActionModel>,
    after: Seq<ActionModel>,
    bound: Option<ActionModel>,
    own: Option<ActionModel>,
) -> bool {
    &&& bound is None && own is None ==> after == before
    &&& bound is Some && own is None ==> after == before.push(bound->Some_0)
    &&& bound is None && own is Some ==> after == before.push(own->Some_0)
    &&& bound is Some && own is Some ==> after == before.push(bound->Some_0).push(own->Some_0)
}

/// A key that is bound alone gives its action first, and what the view gives comes after it. Where
/// it is bound only along with the keys before it, these give their action.
pub proof fn bound_action_comes_first(
    a: AppModel,
    key: Key,
    bindings: Map<Mode, Map<Seq<Key>, ActionModel>>,
    bound: Option<ActionModel>,
)
    requires
        bindings.dom().contains(a.mode),
        bound is Some ==> (if bindings[a.mode].dom().contains(seq![key.normal()]) {
            bound->Some_0 == bindings[a.mode][seq![key.normal()]]
        } else {
            let all = keys::normal_keys(a.last_tick_key_events.push(key));
            bindings[a.mode].dom().contains(all) && bound->Some_0 == bindings[a.mode][all]
        }),
        bound is None ==> !bindings[a.mode].dom().contains(seq![key.normal()])
            && !bindings[a.mode].dom().contains(
            keys::normal_keys(a.last_tick_key_events.push(key)),
        ),
    ensures
        ({
            let after = events::told(a, Event::Key(key), bindings).pending;
            &&& a.mode == Mode::FolderList ==> done_in_turn(
                a.pending,
                after,
                bound,
                folder_list::folders_key(a.folder_list, key).1,
            )
            &&& a.mode == Mode::MailList ==> done_in_turn(
                a.pending,
                after,
                bound,
                mail_list::mails_key(a.mail_list, key).1,
            )
            &&& a.mode == Mode::MailView ==> done_in_turn(
                a.pending,
                after,
                bound,
                mail_view::view_key(a.mail_view, key).1,
            )
        }),
{
    assert(keys::normal_keys(seq![key]) =~= seq![key.normal()]);
}

/// What is typed in a form or in a message gives at most the action of that view, whatever its keys
/// are bound to.
pub proof fn typed_keys_are_not_looked_up(
    a: AppModel,
    key: Key,
    bindings: Map<Mode, Map<Seq<Key>, ActionModel>>,
)
    ensures
        a.mode == Mode::AccountForm ==> events::told(a, Event::Key(key), bindings).pending == (
        match account_form::form_key(a.account_form, key).1 {
            Some(action) => a.pending.push(action),
            None => a.pending,
        }),
        a.mode == Mode::Compose ==> events::told(a, Event::Key(key), bindings).pending == (
        match compose::compose_key(a.compose, key).1 {
            Some(action) => a.pending.push(action),
            None => a.pending,
        }),
        a.mode == Mode::AccountForm || a.mode == Mode::Compose ==> events::told(
            a,
            Event::Key(key),
            bindings,
        ).last_tick_key_events == a.last_tick_key_events,
{
}

/// A round in which the client is to suspend ends so, and it takes the terminal again with a clear
/// screen, whether it is to stop or not. Else it stops where it is to, and goes on where not.
pub proof fn rounds_end(a: AppModel)
    ensures
        a.should_suspend ==> events::round_over(a).1 == RoundEnd::Suspend && events::round_over(
            a,
        ).0.pending == a.pending.push(Action::Resume).push(Action::ClearScreen)
            && events::round_over(a).0.should_suspend,
        !a.should_suspend && a.should_quit ==> events::round_over(a) == (a, RoundEnd::Stop),
        !a.should_suspend && !a.should_quit ==> events::round_over(a) == (a, RoundEnd::Continue),
{
}

/// An upper-case letter means the same with the shift key and without it, and the same as the
/// lower-case letter with it. A key that is no letter keeps its meaning.
pub proof fn shift_makes_upper_case(key: Key, i: int)
    requires
        0 <= i < 26,
    ensures
        ({
            let low = KeyCode::Char((97 + i) as char);
            let high = KeyCode::Char((65 + i) as char);
            let meant = Key { code: high, shift: true, ..key };
            &&& (Key { code: low, shift: true, ..key }).normal() == meant
            &&& (Key { code: high, shift: true, ..key }).normal() == meant
            &&& (Key { code: high, shift: false, ..key }).normal() == meant
            &&& (Key { code: low, shift: false, ..key }).normal() == (Key {
                code: low,
                shift: false,
                ..key
            })
        }),
        !(key.code is Char) ==> key.normal() == key,
        key.normal().control == key.control && key.normal().others == key.others,
        key.normal().kind == key.kind && key.normal().state == key.state,
{
}

/// The last binding of some keys is the one that holds, and the bindings of other keys stay.
pub proof fn last_binding_holds(before: Seq<Binding>, last: Binding, other: Seq<Key>)
    ensures
        keys::looked_up(keys::bound(before.push(last)), last.keys@) == Some(last.action@),
        keys::normal_keys(other) != keys::normal_keys(last.keys@) ==> keys::looked_up(
            keys::bound(before.push(last)),
            other,
        ) == keys::looked_up(keys::bound(before), other),
        keys::looked_up(keys::bound(Seq::empty()), other) is None,
{
    assert(before.push(last).drop_last() =~= before);
}

/// The last map of a view is the one that holds, and the maps of other views stay.
pub proof fn last_map_holds(before: Seq<(Mode, KeyMap)>, mode: Mode, map: KeyMap, other: Mode)
    ensures
        keys::maps(before.push((mode, map))).dom().contains(mode),
        keys::maps(before.push((mode, map)))[mode] == map@,
        other != mode ==> (keys::maps(before.push((mode, map))).dom().contains(other)
            <==> keys::maps(before).dom().contains(other)) && keys::maps(
            before.push((mode, map)),
        )[other] == keys::maps(before)[other],
        !keys::maps(Seq::empty()).dom().contains(other),
{
    assert(before.push((mode, map)).drop_last() =~= before);
}

/// The client begins among the accounts, with nothing entered, written, listed or shown, without a
/// connection, and with nothing to be done.
pub proof fn client_begins_empty(accounts: Seq<Account<Seq<char>>>, i: int)
    ensures
        ({
            let a = app::first_app(accounts);
            &&& a.mode == Mode::Home && a.accounts == accounts
            &&& a.account_form.fields.len() == 8 && a.account_form.focus == 0
            &&& a.account_form.security_idx == 0
            &&& 0 <= i < 8 ==> a.account_form.fields[i].value.len() == 0
                && !a.account_form.fields[i].auto_filled
            &&& a.compose.fields.len() == 6 && a.compose.focus == 0
            &&& 0 <= i < 6 ==> a.compose.fields[i].value.len() == 0
            &&& a.compose.attachments.len() == 0 && a.compose.reply_to is None
            &&& !a.compose.reply_all && !a.compose.forward
            &&& a.folder_list.folders.len() == 0 && a.folder_list.state.selected == Some(0usize)
            &&& a.mail_list.mails.len() == 0 && a.mail_list.cached_items.len() == 0
            &&& a.mail_list.state.selected == Some(0usize)
            &&& a.mail_list.current_folder.len() == 0
            &&& a.mail_view.mail is None && !a.mail_view.show_html && a.mail_view.scroll == 0
            &&& a.mail_view.attachment_idx == 0
            &&& !a.status_bar.connected && a.status_bar.mode == Mode::Home
            &&& a.status_bar.current_folder is None && a.status_bar.status_message is None
            &&& !a.should_quit && !a.should_suspend && !a.connecting
            &&& a.active_account_id is None && a.mail_client.config is None
            &&& !a.mail_client.session
            &&& a.pending.len() == 0 && a.last_tick_key_events.len() == 0
        }),
{
}

} // verus!
