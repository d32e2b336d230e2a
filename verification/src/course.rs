//! The course of the actions: what each asks for, of which account, folder and message, and what
//! becomes of the answer.

use vstd::prelude::*;

use crate::action::{Action, ActionModel, Mode};
use crate::app;
use crate::app::{AppModel, EffectModel, ReplyModel, StepModel};
use crate::compose;
use crate::imap::FolderModel;
use crate::number;
use crate::replies;
use crate::text;
use crate::types::{Account, EmailModel, MailFlag, SummaryModel};

verus! {

broadcast use vstd::string::group_string_axioms;

/// Whether the drafts, the accounts and the session are the same in both.
pub open spec fn rest_is_kept(a: AppModel, b: AppModel) -> bool {
    &&& a.account_form == b.account_form
    &&& a.compose == b.compose
    &&& a.accounts == b.accounts
    &&& a.mail_client == b.mail_client
    &&& a.should_quit == b.should_quit
    &&& a.should_suspend == b.should_suspend
}

/// Whether the lists and the message that is shown are the same in both.
pub open spec fn views_are_kept(a: AppModel, b: AppModel) -> bool {
    a.folder_list == b.folder_list && a.mail_list == b.mail_list && a.mail_view == b.mail_view
}

/// To connect asks for a connection to the account that is chosen, and makes it the account in use.
/// Without an account nothing is asked for, and while a connection is being made no other is.
pub proof fn chosen_account_is_connected(a: AppModel, i: usize, now: u64)
    ensures
        !a.connecting && i < a.accounts.len() ==> {
            let (b, step) = app::begun(a, Action::Connect, Some(i), now);
            &&& step == StepModel::Ask(EffectModel::Connect(a.accounts[i as int].config))
            &&& b.active_account_id == Some(a.accounts[i as int].id)
            &&& b.connecting
            &&& b.mode == a.mode
            &&& b.pending == a.pending
            &&& rest_is_kept(a, b) && views_are_kept(a, b)
        },
        !a.connecting && i >= a.accounts.len() ==> {
            let (b, step) = app::begun(a, Action::Connect, Some(i), now);
            &&& step is EndRound
            &&& b.pending == a.pending.push(Action::ConnectionFailed("请先添加一个账户"@))
            &&& b.active_account_id == a.active_account_id
            &&& !b.connecting
        },
        !a.connecting ==> {
            let (b, step) = app::begun(a, Action::Connect, None, now);
            &&& step is EndRound
            &&& b.pending == a.pending.push(Action::ConnectionFailed("请先添加一个账户"@))
            &&& !b.connecting
        },
        a.connecting ==> {
            let (b, step) = app::begun(a, Action::Connect, Some(i), now);
            &&& step is Next
            &&& b.active_account_id == a.active_account_id
            &&& b.pending == a.pending
        },
{
}

/// A connection that was made is followed by the folders, one that was not by the error. Either
/// way, another one can be begun.
pub proof fn connection_is_answered(a: AppModel, i: usize, e: Seq<char>, now: u64, then: u64)
    requires
        !a.connecting,
        i < a.accounts.len(),
    ensures
        ({
            let b = app::begun(a, Action::Connect, Some(i), now).0;
            let (c, step) = replies::resumed(b, ReplyModel::Outcome(Ok(())), then);
            &&& step is Next
            &&& !c.connecting
            &&& c.active_account_id == Some(a.accounts[i as int].id)
            &&& c.pending == a.pending.push(Action::Connected)
        }),
        ({
            let b = app::begun(a, Action::Connect, Some(i), now).0;
            let (c, step) = replies::resumed(b, ReplyModel::Outcome(Err(e)), then);
            &&& step is Next
            &&& !c.connecting
            &&& c.pending == a.pending.push(Action::ConnectionFailed("连接失败: "@ + e))
        }),
{
}

/// Whether the list shows just these folders.
pub open spec fn shows_folders(a: AppModel, folders: Seq<FolderModel>) -> bool {
    a.folder_list.folders == folders && (folders.len() > 0 ==> a.folder_list.state.selected == Some(
        0usize,
    ))
}

/// Once connected, the folders of the server are listed. Those that come are stored for the account
/// in use and shown; where they do not come, the stored ones of that account are shown, or the
/// error where there are none.
pub proof fn folders_follow_the_connection(
    a: AppModel,
    selected: Option<usize>,
    id: i64,
    folders: Seq<FolderModel>,
    e: Seq<char>,
    now: u64,
)
    requires
        a.active_account_id == Some(id),
    ensures
        app::begun(a, Action::Connected, selected, now).1 == StepModel::Ask(
            EffectModel::ListFolders,
        ),
        ({
            let b = app::begun(a, Action::Connected, selected, now).0;
            let (c, step) = replies::resumed(b, ReplyModel::Folders(Ok(folders)), now);
            let (d, last) = replies::resumed(c, ReplyModel::Done, now);
            &&& step == StepModel::Ask(EffectModel::CacheFolders(id, folders))
            &&& last is Next
            &&& shows_folders(d, folders)
            &&& d.mode == Mode::FolderList
            &&& d.pending == a.pending
        }),
        ({
            let b = app::begun(a, Action::Connected, selected, now).0;
            let (c, step) = replies::resumed(b, ReplyModel::Folders(Err(e)), now);
            let (d, last) = replies::resumed(c, ReplyModel::StoredFolders(folders), now);
            &&& step == StepModel::Ask(EffectModel::RecallFolders(id))
            &&& last is Next
            &&& folders.len() > 0 ==> shows_folders(d, folders) && d.mode == Mode::FolderList
                && d.pending == a.pending
            &&& folders.len() == 0 ==> d.folder_list == a.folder_list && d.mode == a.mode
                && d.pending == a.pending.push(Action::Error("获取文件夹失败: "@ + e))
        }),
{
}

/// To refresh the folders lists them again in their place; the view stays, and an error is told.
pub proof fn folders_are_refreshed(
    a: AppModel,
    selected: Option<usize>,
    folders: Seq<FolderModel>,
    e: Seq<char>,
    now: u64,
)
    ensures
        ({
            let (b, first) = app::begun(a, Action::RefreshFolders, selected, now);
            let (c, step) = replies::resumed(b, ReplyModel::Folders(Ok(folders)), now);
            let (d, failed) = replies::resumed(b, ReplyModel::Folders(Err(e)), now);
            &&& first == StepModel::Ask(EffectModel::ListFolders)
            &&& step is Next && failed is Next
            &&& shows_folders(c, folders)
            &&& c.mode == a.mode && d.mode == a.mode
            &&& c.pending == a.pending
            &&& d.folder_list == a.folder_list
            &&& d.pending == a.pending.push(Action::Error("刷新文件夹失败: "@ + e))
        }),
{
}

/// To choose a folder shows its list and asks for its last fifty messages.
pub proof fn folder_is_opened(a: AppModel, selected: Option<usize>, name: Seq<char>, now: u64)
    ensures
        ({
            let (b, step) = app::begun(a, Action::SelectFolder(name), selected, now);
            &&& step == StepModel::Ask(EffectModel::FetchLatest(name, 50))
            &&& b.mode == Mode::MailList
            &&& b.mail_list.current_folder == name
            &&& b.mail_list.mails == a.mail_list.mails
            &&& b.folder_list == a.folder_list && b.mail_view == a.mail_view
            &&& b.active_account_id == a.active_account_id
            &&& b.pending == a.pending
            &&& rest_is_kept(a, b)
        }),
{
}

/// Whether the list shows just these messages, of which the first is chosen.
pub open spec fn shows_mails(a: AppModel, mails: Seq<SummaryModel>) -> bool {
    a.mail_list.mails == mails && (mails.len() > 0 ==> a.mail_list.state.selected == Some(0usize))
}

/// The messages of a folder that come are stored for the account in use and shown; where they do
/// not come, the stored ones of that account and folder are shown, or the error where there are
/// none.
pub proof fn messages_of_the_folder_are_shown(
    a: AppModel,
    selected: Option<usize>,
    name: Seq<char>,
    id: i64,
    mails: Seq<SummaryModel>,
    e: Seq<char>,
    now: u64,
)
    requires
        a.active_account_id == Some(id),
    ensures
        ({
            let b = app::begun(a, Action::SelectFolder(name), selected, now).0;
            let (c, step) = replies::resumed(b, ReplyModel::Mails(Ok(mails)), now);
            let (d, last) = replies::resumed(c, ReplyModel::Done, now);
            &&& step == StepModel::Ask(EffectModel::CacheMails(id, name, mails))
            &&& last is Next
            &&& shows_mails(d, mails)
            &&& d.mail_list.current_folder == name
            &&& d.mode == Mode::MailList
            &&& d.pending == a.pending
        }),
        ({
            let b = app::begun(a, Action::SelectFolder(name), selected, now).0;
            let (c, step) = replies::resumed(b, ReplyModel::Mails(Err(e)), now);
            let (d, last) = replies::resumed(c, ReplyModel::StoredMails(mails), now);
            &&& step == StepModel::Ask(EffectModel::RecallMails(id, name, 50))
            &&& last is Next
            &&& mails.len() > 0 ==> shows_mails(d, mails) && d.pending == a.pending
            &&& mails.len() == 0 ==> d.mail_list.mails == a.mail_list.mails && d.pending
                == a.pending.push(
                Action::Error("获取 "@ + name + " 邮件列表失败: "@ + e),
            )
        }),
{
}

/// Without an account in use, what comes is shown without being stored, and what does not come is
/// told.
pub proof fn nothing_is_stored_without_an_account(
    a: AppModel,
    selected: Option<usize>,
    name: Seq<char>,
    folders: Seq<FolderModel>,
    mails: Seq<SummaryModel>,
    e: Seq<char>,
    now: u64,
)
    requires
        a.active_account_id is None,
    ensures
        ({
            let b = app::begun(a, Action::Connected, selected, now).0;
            let (c, step) = replies::resumed(b, ReplyModel::Folders(Ok(folders)), now);
            let (d, failed) = replies::resumed(b, ReplyModel::Folders(Err(e)), now);
            &&& step is Next && failed is Next
            &&& shows_folders(c, folders) && c.mode == Mode::FolderList
            &&& d.folder_list == a.folder_list
            &&& d.pending == a.pending.push(Action::Error("获取文件夹失败: "@ + e))
        }),
        ({
            let b = app::begun(a, Action::SelectFolder(name), selected, now).0;
            let (c, step) = replies::resumed(b, ReplyModel::Mails(Ok(mails)), now);
            let (d, failed) = replies::resumed(b, ReplyModel::Mails(Err(e)), now);
            &&& step is Next && failed is Next
            &&& shows_mails(c, mails)
            &&& d.mail_list.mails == a.mail_list.mails
            &&& d.pending == a.pending.push(
                Action::Error("获取 "@ + name + " 邮件列表失败: "@ + e),
            )
        }),
{
}

/// Whether this message of the list is chosen.
pub open spec fn is_chosen(a: AppModel, i: int) -> bool {
    0 <= i < a.mail_list.mails.len() && a.mail_list.state.selected == Some(i as usize) && i
        <= usize::MAX
}

/// Whether no message of the list is chosen.
pub open spec fn none_is_chosen(a: AppModel) -> bool {
    a.mail_list.state.selected matches Some(i) ==> i >= a.mail_list.mails.len()
}

/// To read a message asks for the one that is chosen, by the folder of the list and its own
/// identifier. Where none is chosen, nothing is asked for.
pub proof fn chosen_message_is_fetched(a: AppModel, selected: Option<usize>, i: int, now: u64)
    ensures
        is_chosen(a, i) ==> {
            let (b, step) = app::begun(a, Action::ViewMail, selected, now);
            &&& step == StepModel::Ask(
                EffectModel::FetchMessage(a.mail_list.current_folder, a.mail_list.mails[i].uid),
            )
            &&& b.mode == Mode::MailView
            &&& views_are_kept(a, b) && rest_is_kept(a, b)
            &&& b.pending == a.pending
        },
        none_is_chosen(a) ==> {
            let (b, step) = app::begun(a, Action::ViewMail, selected, now);
            step is Next && b.mode == a.mode && views_are_kept(a, b)
        },
{
}

/// Whether the message at `i` has this flag in `b`, and is otherwise what it was in `a`, as all the
/// others are.
pub open spec fn only_flag_added(
    a: Seq<SummaryModel>,
    b: Seq<SummaryModel>,
    i: int,
    flag: MailFlag<Seq<char>>,
) -> bool {
    &&& a.len() == b.len()
    &&& forall|j: int| 0 <= j < a.len() && j != i ==> #[trigger] b[j] == a[j]
    &&& b[i].flags.contains(flag)
    &&& b[i].uid == a[i].uid && b[i].subject == a[i].subject && b[i].from == a[i].from
    &&& forall|f: MailFlag<Seq<char>>| #[trigger] a[i].flags.contains(f) ==> b[i].flags.contains(f)
}

/// A message that was fetched is marked as seen, on the server by the same folder and identifier
/// and in the list; it is stored for the account in use; and it is shown, from its beginning.
pub proof fn message_is_marked_stored_and_shown(
    a: AppModel,
    selected: Option<usize>,
    i: int,
    id: i64,
    m: EmailModel,
    now: u64,
)
    requires
        is_chosen(a, i),
        a.active_account_id == Some(id),
    ensures
        ({
            let b = app::begun(a, Action::ViewMail, selected, now).0;
            let (c, mark) = replies::resumed(b, ReplyModel::Message(Ok(m)), now);
            let (d, keep) = replies::resumed(c, ReplyModel::Done, now);
            let (z, last) = replies::resumed(d, ReplyModel::Done, now);
            &&& mark == StepModel::Ask(
                EffectModel::AddFlag(
                    a.mail_list.current_folder,
                    a.mail_list.mails[i].uid,
                    MailFlag::Seen,
                ),
            )
            &&& keep == StepModel::Ask(EffectModel::CacheMessage(id, m))
            &&& last is Next
            &&& only_flag_added(a.mail_list.mails, z.mail_list.mails, i, MailFlag::Seen)
            &&& z.mail_view.mail == Some(m)
            &&& z.mail_view.scroll == 0
            &&& z.mail_view.attachment_idx == 0
            &&& z.mode == Mode::MailView
            &&& z.pending == a.pending
        }),
{
    let flags = a.mail_list.mails[i].flags;
    if !flags.contains(MailFlag::Seen) {
        let more = flags.push(MailFlag::Seen);
        assert(more[flags.len() as int] == MailFlag::<Seq<char>>::Seen);
        assert forall|f: MailFlag<Seq<char>>| #[trigger] flags.contains(f) implies more.contains(
            f,
        ) by {
            let k = choose|k: int| 0 <= k < flags.len() && flags[k] == f;
            assert(more[k] == f);
        }
    }
}

/// In place of a message that did not come the stored one of the account in use is shown, by the
/// same folder and identifier; where there is none, the list is shown again, with the error.
pub proof fn stored_message_is_looked_up(
    a: AppModel,
    selected: Option<usize>,
    i: int,
    id: i64,
    m: EmailModel,
    e: Seq<char>,
    now: u64,
)
    requires
        is_chosen(a, i),
        a.active_account_id == Some(id),
    ensures
        ({
            let b = app::begun(a, Action::ViewMail, selected, now).0;
            let (c, look) = replies::resumed(b, ReplyModel::Message(Err(e)), now);
            let (d, found) = replies::resumed(c, ReplyModel::StoredMessage(Some(m)), now);
            let (z, missed) = replies::resumed(c, ReplyModel::StoredMessage(None), now);
            &&& look == StepModel::Ask(
                EffectModel::RecallMessage(
                    id,
                    a.mail_list.current_folder,
                    a.mail_list.mails[i].uid,
                ),
            )
            &&& found is Next && missed is Next
            &&& d.mail_view.mail == Some(m) && d.mail_view.scroll == 0 && d.mode == Mode::MailView
            &&& d.mail_list == a.mail_list
            &&& z.mail_view == a.mail_view && z.mode == Mode::MailList
            &&& z.pending == a.pending.push(
                Action::Error(
                    "查看 "@ + a.mail_list.current_folder + "/"@ + crate::number::decimal(
                        a.mail_list.mails[i].uid as nat,
                    ) + " 失败: "@ + e,
                ),
            )
        }),
{
}

/// To delete a message from the list takes it out of the list and asks the server to mark it as
/// deleted, by the folder of the list and its identifier.
pub proof fn chosen_message_is_deleted(a: AppModel, selected: Option<usize>, i: int, now: u64)
    requires
        a.mode == Mode::MailList,
    ensures
        is_chosen(a, i) ==> {
            let (b, step) = app::begun(a, Action::DeleteMail, selected, now);
            &&& step == StepModel::Ask(
                EffectModel::AddFlag(
                    a.mail_list.current_folder,
                    a.mail_list.mails[i].uid,
                    MailFlag::Deleted,
                ),
            )
            &&& b.mail_list.mails == a.mail_list.mails.remove(i)
            &&& b.mail_list.current_folder == a.mail_list.current_folder
            &&& b.mode == Mode::MailList
            &&& rest_is_kept(a, b)
        },
        none_is_chosen(a) ==> {
            let (b, step) = app::begun(a, Action::DeleteMail, selected, now);
            step is Next && b.mail_list.mails == a.mail_list.mails
        },
{
}

/// To delete the message that is shown asks the server to mark it as deleted, by its own folder and
/// identifier, and goes back to the list. In any other view nothing is deleted.
pub proof fn shown_message_is_deleted(a: AppModel, selected: Option<usize>, m: EmailModel, now: u64)
    ensures
        a.mode == Mode::MailView && a.mail_view.mail == Some(m) ==> {
            let (b, step) = app::begun(a, Action::DeleteMail, selected, now);
            &&& step == StepModel::Ask(EffectModel::AddFlag(m.folder, m.uid, MailFlag::Deleted))
            &&& b.mode == Mode::MailList
            &&& b.mail_list == a.mail_list
            &&& rest_is_kept(a, b)
        },
        a.mode == Mode::MailView && a.mail_view.mail is None ==> {
            let (b, step) = app::begun(a, Action::DeleteMail, selected, now);
            step is EndRound && views_are_kept(a, b)
        },
        a.mode != Mode::MailView && a.mode != Mode::MailList ==> {
            let (b, step) = app::begun(a, Action::DeleteMail, selected, now);
            step is EndRound && views_are_kept(a, b)
        },
{
}

/// What was deleted is said to be.
pub proof fn deletion_is_told(a: AppModel, selected: Option<usize>, now: u64, then: u64)
    ensures
        ({
            let (b, step) = app::begun(a, Action::DeleteMail, selected, now);
            let (c, last) = replies::resumed(b, ReplyModel::Done, then);
            step is Ask ==> last is Next && c.pending == a.pending.push(
                Action::Error("邮件已标记为删除"@),
            )
        }),
{
}

/// To toggle the star of the message that is chosen asks the server to put it on where the message
/// has none, and to take it off where it has one, by the folder of the list and its identifier; and
/// the list shows it so.
pub proof fn star_of_the_chosen_message(a: AppModel, selected: Option<usize>, i: int, now: u64)
    requires
        a.mode == Mode::MailList,
        is_chosen(a, i),
    ensures
        ({
            let (b, step) = app::begun(a, Action::ToggleFlag, selected, now);
            let m = a.mail_list.mails[i];
            let f = a.mail_list.current_folder;
            &&& !m.flags.contains(MailFlag::Flagged) ==> step == StepModel::Ask(
                EffectModel::AddFlag(f, m.uid, MailFlag::Flagged),
            )
            &&& m.flags.contains(MailFlag::Flagged) ==> step == StepModel::Ask(
                EffectModel::RemoveFlag(f, m.uid, MailFlag::Flagged),
            )
            &&& b.mail_list.mails.len() == a.mail_list.mails.len()
            &&& b.mail_list.mails[i].flags.contains(MailFlag::Flagged) <==> !m.flags.contains(
                MailFlag::Flagged,
            )
            &&& b.mail_list.mails[i].uid == m.uid
            &&& forall|j: int|
                0 <= j < a.mail_list.mails.len() && j != i ==> #[trigger] b.mail_list.mails[j]
                    == a.mail_list.mails[j]
            &&& b.mode == a.mode
            &&& rest_is_kept(a, b)
        }),
{
    let m = a.mail_list.mails[i];
    crate::flags::toggle_changes_one(m.flags, MailFlag::Flagged, MailFlag::Flagged);
}

/// The same of the message that is shown, by its own folder and identifier. Without a message
/// nothing is asked for.
pub proof fn star_of_the_shown_message(a: AppModel, selected: Option<usize>, m: EmailModel, now: u64)
    ensures
        a.mode == Mode::MailView && a.mail_view.mail == Some(m) ==> {
            let (b, step) = app::begun(a, Action::ToggleFlag, selected, now);
            &&& !m.flags.contains(MailFlag::Flagged) ==> step == StepModel::Ask(
                EffectModel::AddFlag(m.folder, m.uid, MailFlag::Flagged),
            )
            &&& m.flags.contains(MailFlag::Flagged) ==> step == StepModel::Ask(
                EffectModel::RemoveFlag(m.folder, m.uid, MailFlag::Flagged),
            )
            &&& views_are_kept(a, b) && rest_is_kept(a, b) && b.mode == a.mode
        },
        a.mode == Mode::MailView && a.mail_view.mail is None ==> {
            let (b, step) = app::begun(a, Action::ToggleFlag, selected, now);
            step is Next && views_are_kept(a, b)
        },
        a.mode == Mode::MailList && none_is_chosen(a) ==> {
            let (b, step) = app::begun(a, Action::ToggleFlag, selected, now);
            step is Next && views_are_kept(a, b)
        },
        a.mode != Mode::MailView && a.mode != Mode::MailList ==> {
            let (b, step) = app::begun(a, Action::ToggleFlag, selected, now);
            step is Next && views_are_kept(a, b)
        },
{
}

/// A new message is empty and is written in its own view.
pub proof fn new_message_is_empty(a: AppModel, selected: Option<usize>, k: int, now: u64)
    ensures
        ({
            let (b, step) = app::begun(a, Action::Compose, selected, now);
            &&& step is Next
            &&& b.mode == Mode::Compose
            &&& b.compose.fields.len() == 6
            &&& 0 <= k < 6 ==> b.compose.fields[k].value.len() == 0
            &&& b.compose.attachments.len() == 0
            &&& b.compose.focus == 0
            &&& b.compose.reply_to is None && !b.compose.reply_all && !b.compose.forward
            &&& views_are_kept(a, b) && b.accounts == a.accounts
        }),
{
}

/// To reply writes to whom the message is from; to reply to all copies it to whom the message went;
/// and what is forwarded goes to nobody yet. The subject has the mark of what is done.
pub proof fn answers_are_addressed(a: AppModel, selected: Option<usize>, m: EmailModel, now: u64)
    requires
        a.mail_view.mail == Some(m),
    ensures
        ({
            let (b, step) = app::begun(a, Action::Reply, selected, now);
            let c = b.compose;
            &&& step is Next && b.mode == Mode::Compose && c.fields.len() == 6
            &&& c.fields[0].value == m.from
            &&& c.fields[1].value.len() == 0 && c.fields[2].value.len() == 0
            &&& "Re: "@.is_prefix_of(c.fields[3].value)
            &&& c.fields[4].value.len() == 0
            &&& c.reply_to is Some && !c.reply_all && !c.forward
        }),
        ({
            let (b, step) = app::begun(a, Action::ReplyAll, selected, now);
            let c = b.compose;
            &&& step is Next && b.mode == Mode::Compose && c.fields.len() == 6
            &&& c.fields[0].value == m.from
            &&& m.to.len() > 0 ==> c.fields[1].value == text::joined(m.to, "; "@)
            &&& m.to.len() == 0 ==> c.fields[1].value.len() == 0
            &&& c.fields[2].value.len() == 0
            &&& "Re: "@.is_prefix_of(c.fields[3].value)
            &&& c.fields[4].value.len() == 0
            &&& c.reply_all && !c.forward
        }),
        ({
            let (b, step) = app::begun(a, Action::Forward, selected, now);
            let c = b.compose;
            &&& step is Next && b.mode == Mode::Compose && c.fields.len() == 6
            &&& c.fields[0].value.len() == 0
            &&& c.fields[1].value.len() == 0 && c.fields[2].value.len() == 0
            &&& "Fwd: "@.is_prefix_of(c.fields[3].value)
            &&& c.fields[4].value.len() == 0
            &&& c.forward && !c.reply_all
        }),
{
    let re = app::begun(a, Action::Reply, selected, now).0.compose.fields[3].value;
    assert(re.subrange(0, "Re: "@.len() as int) =~= "Re: "@);
    let all = app::begun(a, Action::ReplyAll, selected, now).0.compose.fields[3].value;
    assert(all.subrange(0, "Re: "@.len() as int) =~= "Re: "@);
    let fwd = app::begun(a, Action::Forward, selected, now).0.compose.fields[3].value;
    assert(fwd.subrange(0, "Fwd: "@.len() as int) =~= "Fwd: "@);
}

/// Without a message that is shown there is nothing to answer.
pub proof fn nothing_is_answered_without_a_message(
    a: AppModel,
    action: ActionModel,
    selected: Option<usize>,
    now: u64,
)
    requires
        a.mail_view.mail is None,
        action is Reply || action is ReplyAll || action is Forward || action is SaveHtml,
    ensures
        ({
            let (b, step) = app::begun(a, action, selected, now);
            step is Next && b.mode == a.mode && b.compose == a.compose && views_are_kept(a, b)
        }),
{
}

/// Whether the account at `i` is the first of this number.
pub open spec fn is_first_account(accounts: Seq<Account<Seq<char>>>, id: i64, i: int) -> bool {
    &&& 0 <= i < accounts.len()
    &&& accounts[i].id == id
    &&& forall|j: int| 0 <= j < i ==> (#[trigger] accounts[j]).id != id
}

proof fn lemma_account(accounts: Seq<Account<Seq<char>>>, id: i64, i: int, k: int)
    requires
        is_first_account(accounts, id, i),
        0 <= k <= i,
    ensures
        app::account_from(accounts, id, k) == Some(accounts[i]),
    decreases i - k,
{
    if k < i {
        lemma_account(accounts, id, i, k + 1);
    }
}

proof fn lemma_no_account(accounts: Seq<Account<Seq<char>>>, id: i64, k: int)
    requires
        forall|j: int| 0 <= j < accounts.len() ==> (#[trigger] accounts[j]).id != id,
        0 <= k,
    ensures
        app::account_from(accounts, id, k) is None,
    decreases accounts.len() - k,
{
    if k < accounts.len() {
        lemma_no_account(accounts, id, k + 1);
    }
}

/// To send a message asks for it to be sent by the account in use, from the name of that account,
/// to those who stand in the fields of the message, with its subject, its text and its files.
pub proof fn written_message_is_sent(
    a: AppModel,
    selected: Option<usize>,
    id: i64,
    i: int,
    now: u64,
)
    requires
        a.active_account_id == Some(id),
        is_first_account(a.accounts, id, i),
    ensures
        ({
            let (b, step) = app::begun(a, Action::Send, selected, now);
            let config = a.accounts[i].config;
            &&& step matches StepModel::Ask(EffectModel::SendMail(by, m)) && by == config && m.from
                == config.username && m.to == compose::recipients(a.compose.fields[0].value) && m.cc
                == compose::recipients(a.compose.fields[1].value) && m.bcc == compose::recipients(
                a.compose.fields[2].value,
            ) && m.subject == a.compose.fields[3].value && m.body_text == Some(
                a.compose.fields[4].value,
            ) && m.body_html is None && m.attachments == a.compose.attachments && m.in_reply_to is
                None && m.references.len() == 0
            &&& b.compose == a.compose && b.mode == a.mode && b.pending == a.pending
        }),
{
    lemma_account(a.accounts, id, i, 0);
}

/// Without an account in use nothing is sent, and the client says so.
pub proof fn nothing_is_sent_without_an_account(a: AppModel, selected: Option<usize>, now: u64)
    requires
        match a.active_account_id {
            None => true,
            Some(id) => forall|j: int|
                0 <= j < a.accounts.len() ==> (#[trigger] a.accounts[j]).id != id,
        },
    ensures
        ({
            let (b, step) = app::begun(a, Action::Send, selected, now);
            step is Next && b.compose == a.compose && b.pending == a.pending.push(
                Action::Error("未连接账户，无法发送"@),
            )
        }),
{
    if let Some(id) = a.active_account_id {
        lemma_no_account(a.accounts, id, 0);
    }
}

/// After a message was sent one is back in the list, or at home where no folder was opened; one that
/// was not sent stays as it is, with the error.
pub proof fn sending_is_answered(
    a: AppModel,
    selected: Option<usize>,
    e: Seq<char>,
    now: u64,
    then: u64,
)
    ensures
        ({
            let (b, step) = app::begun(a, Action::Send, selected, now);
            let (c, done) = replies::resumed(b, ReplyModel::Outcome(Ok(())), then);
            let (d, failed) = replies::resumed(b, ReplyModel::Outcome(Err(e)), then);
            step is Ask ==> {
                &&& done is Next && failed is Next
                &&& a.mail_list.current_folder.len() > 0 ==> c.mode == Mode::MailList
                &&& a.mail_list.current_folder.len() == 0 ==> c.mode == Mode::Home
                &&& c.pending == a.pending
                &&& d.mode == a.mode && d.compose == a.compose
                &&& d.pending == a.pending.push(Action::Error("发送失败: "@ + e))
            }
        }),
{
}

/// To remove an account asks for the one that is chosen to be removed, and it alone leaves the list.
pub proof fn chosen_account_is_removed(a: AppModel, i: usize, now: u64, then: u64)
    ensures
        i < a.accounts.len() ==> {
            let (b, step) = app::begun(a, Action::DeleteAccount, Some(i), now);
            let (c, show) = replies::resumed(b, ReplyModel::Done, then);
            let (d, last) = replies::resumed(c, ReplyModel::Done, then);
            &&& step == StepModel::Ask(EffectModel::RemoveAccount(a.accounts[i as int].id))
            &&& b.accounts == a.accounts
            &&& show == StepModel::Ask(EffectModel::ShowAccounts)
            &&& c.accounts == a.accounts.remove(i as int)
            &&& last is Next && d.accounts == c.accounts && d.mode == a.mode
        },
        i >= a.accounts.len() ==> {
            let (b, step) = app::begun(a, Action::DeleteAccount, Some(i), now);
            step is Next && b.accounts == a.accounts
        },
        ({
            let (b, step) = app::begun(a, Action::DeleteAccount, None, now);
            step is Next && b.accounts == a.accounts
        }),
{
}

/// Accounts that were stored are shown as the store gives them, at home.
pub proof fn stored_accounts_are_shown(
    a: AppModel,
    selected: Option<usize>,
    accounts: Seq<Account<Seq<char>>>,
    now: u64,
    then: u64,
)
    ensures
        ({
            let (b, step) = app::begun(a, Action::SaveAccount, selected, now);
            let (c, show) = replies::resumed(b, ReplyModel::Accounts(accounts), then);
            let (d, last) = replies::resumed(c, ReplyModel::Done, then);
            &&& step is Ask ==> c.accounts == accounts && show == StepModel::Ask(
                EffectModel::ShowAccounts,
            ) && last is Next && d.mode == Mode::Home && d.accounts == accounts
            &&& !(step is Ask) ==> step is Next && b.mode == Mode::Home && b.accounts == a.accounts
        }),
{
}

/// The HTML of the message that is shown is saved whole, in a document with its subject as the
/// title, under a name that ends as such files do.
pub proof fn html_is_saved_whole(
    a: AppModel,
    selected: Option<usize>,
    m: EmailModel,
    html: Seq<char>,
    now: u64,
)
    requires
        a.mail_view.mail == Some(m),
    ensures
        m.body_html == Some(html) ==> {
            let (b, step) = app::begun(a, Action::SaveHtml, selected, now);
            &&& step matches StepModel::Ask(EffectModel::SaveFile(name, document)) && ".html"@.is_suffix_of(
                name,
            ) && (exists|before: Seq<char>, between: Seq<char>, after: Seq<char>|
                document == #[trigger] (before + m.subject + between + html + after)
                    && "<title>"@.is_suffix_of(before) && "</title>"@.is_prefix_of(between)
                    && "<body>\n"@.is_suffix_of(between) && after == "\n</body></html>"@)
            &&& views_are_kept(a, b)
        },
        m.body_html is None ==> app::begun(a, Action::SaveHtml, selected, now).1 is Next,
{
    if m.body_html == Some(html) {
        let (b, step) = app::begun(a, Action::SaveHtml, selected, now);
        let name = step->Ask_0->SaveFile_0;
        let front = "<!DOCTYPE html>\n<html><head><meta charset=\"utf-8\">\n<title>"@;
        let middle = "</title>\n<style>body { font-family: sans-serif; padding: 20px; }</style>\n</head><body>\n"@;
        let back = "\n</body></html>"@;
        reveal_strlit("<!DOCTYPE html>\n<html><head><meta charset=\"utf-8\">\n<title>");
        reveal_strlit("</title>\n<style>body { font-family: sans-serif; padding: 20px; }</style>\n</head><body>\n");
        reveal_strlit("<title>");
        reveal_strlit("</title>");
        reveal_strlit("<body>\n");
        assert(front.subrange(front.len() - 7, front.len() as int) =~= "<title>"@);
        assert(middle.subrange(0, 8) =~= "</title>"@);
        assert(middle.subrange(middle.len() - 7, middle.len() as int) =~= "<body>\n"@);
        assert(step->Ask_0->SaveFile_1 == front + m.subject + middle + html + back);
        assert(name.subrange(name.len() - ".html"@.len(), name.len() as int) =~= ".html"@);
    }
}

/// What was saved is said to be, with its place.
pub proof fn saving_is_told(a: AppModel, selected: Option<usize>, path: Seq<char>, now: u64, then: u64)
    ensures
        ({
            let (b, step) = app::begun(a, Action::SaveHtml, selected, now);
            let (c, last) = replies::resumed(b, ReplyModel::Saved(path), then);
            step is Ask ==> last is Next && c.pending == a.pending.push(
                Action::Error("✓ HTML 已保存: "@ + path),
            )
        }),
{
}

/// To go back leads from a message or from writing one to the list, from the list to the folders, and
/// from the folders and the form home. To give up writing leads to the list, and to disconnect home.
pub proof fn ways_back(a: AppModel, selected: Option<usize>, now: u64, then: u64)
    ensures
        ({
            let (b, step) = app::begun(a, Action::Back, selected, now);
            &&& step is Next
            &&& a.mode == Mode::MailView ==> b.mode == Mode::MailList
            &&& a.mode == Mode::Compose ==> b.mode == Mode::MailList
            &&& a.mode == Mode::MailList ==> b.mode == Mode::FolderList
            &&& a.mode == Mode::FolderList ==> b.mode == Mode::Home
            &&& a.mode == Mode::AccountForm ==> b.mode == Mode::Home
            &&& a.mode == Mode::Home ==> b.mode == Mode::Home
            &&& views_are_kept(a, b) && rest_is_kept(a, b)
        }),
        ({
            let (b, step) = app::begun(a, Action::CancelCompose, selected, now);
            step is Next && b.mode == Mode::MailList && views_are_kept(a, b) && rest_is_kept(a, b)
        }),
        ({
            let (b, step) = app::begun(a, Action::AddAccount, selected, now);
            step is Next && b.mode == Mode::AccountForm && views_are_kept(a, b) && rest_is_kept(
                a,
                b,
            )
        }),
        ({
            let (b, step) = app::begun(a, Action::Disconnect, selected, now);
            let (c, last) = replies::resumed(b, ReplyModel::Done, then);
            step == StepModel::Ask(EffectModel::Disconnect) && last is Next && c.mode == Mode::Home
        }),
{
}

/// To quit sets the sign to stop, to suspend the sign to be suspended, and to resume takes that sign
/// away; the clock asks a connected server whether it is there; and to draw and to clear the screen
/// ask for just that.
pub proof fn signs_are_set(a: AppModel, selected: Option<usize>, now: u64)
    ensures
        ({
            let (b, step) = app::begun(a, Action::Quit, selected, now);
            step is Next && b.should_quit && b.should_suspend == a.should_suspend
        }),
        ({
            let (b, step) = app::begun(a, Action::Suspend, selected, now);
            step is Next && b.should_suspend && b.should_quit == a.should_quit
        }),
        ({
            let (b, step) = app::begun(a, Action::Resume, selected, now);
            step is Next && !b.should_suspend && b.should_quit == a.should_quit
        }),
        ({
            let (b, step) = app::begun(a, Action::Tick, selected, now);
            &&& b.last_tick_key_events.len() == 0
            &&& a.mail_client.session ==> step == StepModel::Ask(EffectModel::Noop)
            &&& !a.mail_client.session ==> step is Next
            &&& views_are_kept(a, b) && rest_is_kept(a, b) && b.mode == a.mode
        }),
        app::begun(a, Action::Render, selected, now).1 == StepModel::Ask(EffectModel::Draw),
        app::begun(a, Action::ClearScreen, selected, now).1 == StepModel::Ask(
            EffectModel::ClearScreen,
        ),
{
}

/// A view that is opened is the one that the status bar names. Among the accounts no folder is named
/// there; in every other view the folder stays.
pub proof fn bar_follows_the_view(a: AppModel, mode: Mode)
    ensures
        ({
            let b = app::switched(a, mode);
            &&& b.mode == mode && b.status_bar.mode == mode
            &&& mode == Mode::Home ==> b.status_bar.current_folder is None
            &&& mode != Mode::Home ==> b.status_bar.current_folder == a.status_bar.current_folder
            &&& b.status_bar.connected == a.status_bar.connected
            &&& b.status_bar.status_message == a.status_bar.status_message
            &&& b == (AppModel { mode: b.mode, status_bar: b.status_bar, ..a })
        }),
{
}

/// Whether the character may not stand in the name of a file.
pub open spec fn no_file_character(c: char) -> bool {
    ||| c == '/' || c == '\\' || c == ':'
    ||| c == '*' || c == '?' || c == '"'
    ||| c == '<' || c == '>' || c == '|'
}

/// A message is saved under its subject, in which a low line stands for every character that may not
/// stand in the name of a file; one without a subject is saved under its number.
pub proof fn file_is_named_after_its_subject(
    a: AppModel,
    selected: Option<usize>,
    m: EmailModel,
    html: Seq<char>,
    now: u64,
    i: int,
)
    requires
        a.mail_view.mail == Some(m),
        m.body_html == Some(html),
    ensures
        ({
            let step = app::begun(a, Action::SaveHtml, selected, now).1;
            let name = step->Ask_0->SaveFile_0;
            let subject = text::trimmed(m.subject);
            &&& step is Ask && step->Ask_0 is SaveFile
            &&& subject.len() == 0 ==> name == "email_"@ + number::decimal(m.uid as nat) + ".html"@
            &&& subject.len() > 0 ==> name.len() == subject.len() + 5
            &&& 0 <= i < subject.len() && no_file_character(subject[i]) ==> name[i] == '_'
            &&& 0 <= i < subject.len() && !no_file_character(subject[i]) ==> name[i] == subject[i]
        }),
{
    reveal_strlit(".html");
    assert(".html"@.len() == 5);
}

} // verus!
