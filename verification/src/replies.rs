//! What the answers make of the client.

use vstd::prelude::*;

use crate::action::{Action, ActionModel, Mode};
use crate::app;
use crate::app::{
    App, AppModel, Effect, EffectModel, Reply, ReplyModel, Step, StepModel, Waiting, WaitingModel,
    LATEST,
};
use crate::client;
use crate::folder_list;
use crate::imap::FolderModel;
use crate::mail_list;
use crate::mail_view;
use crate::number;
use crate::number::decimal_text;
use crate::status_bar;
use crate::text;
use crate::text::concat;
use crate::types::{
    duplicate_all, Account, Duplicate, Email, EmailModel, EmailSummary, Folder, MailFlag,
    SummaryModel,
};

verus! {

broadcast use {
    vstd::string::group_string_axioms,
    text::views_push,
    text::views_empty,
};

/// The folders are shown.
pub open spec fn folders_shown(a: AppModel, folders: Seq<FolderModel>) -> AppModel {
    app::switched(
        AppModel { folder_list: folder_list::showing(a.folder_list, folders), ..a },
        Mode::FolderList,
    )
}

/// The messages are shown.
pub open spec fn mails_shown(a: AppModel, mails: Seq<SummaryModel>) -> AppModel {
    AppModel { mail_list: mail_list::showing(a.mail_list, mails), ..a }
}

/// The message is shown.
pub open spec fn message_shown(a: AppModel, mail: EmailModel) -> AppModel {
    AppModel { mail_view: mail_view::showing(a.mail_view, mail), ..a }
}

/// The client says what went wrong.
pub open spec fn complaining(a: AppModel, message: Seq<char>, now: u64) -> (AppModel, StepModel) {
    app::ended(app::sent(a, Action::Error(message)), now)
}

/// The accounts are those of the store.
pub open spec fn accounts_loaded(a: AppModel, accounts: Seq<Account<Seq<char>>>) -> (
    AppModel,
    StepModel,
) {
    app::asking(AppModel { accounts, ..a }, EffectModel::ShowAccounts, WaitingModel::Home)
}

/// The account at this place is gone.
pub open spec fn account_removed(a: AppModel, i: usize) -> (AppModel, StepModel) {
    app::asking(
        AppModel {
            accounts: if i < a.accounts.len() {
                a.accounts.remove(i as int)
            } else {
                a.accounts
            },
            ..a
        },
        EffectModel::ShowAccounts,
        WaitingModel::End,
    )
}

/// The message was sent, or was not.
pub open spec fn message_sent(a: AppModel, result: Result<(), Seq<char>>, now: u64) -> (
    AppModel,
    StepModel,
) {
    match result {
        Ok(_) => app::ended(
            app::switched(
                a,
                if a.mail_list.current_folder.len() == 0 {
                    Mode::Home
                } else {
                    Mode::MailList
                },
            ),
            now,
        ),
        Err(e) => complaining(a, "发送失败: "@ + e, now),
    }
}

/// The connection was made, or was not.
pub open spec fn connection_made(a: AppModel, result: Result<(), Seq<char>>, now: u64) -> (
    AppModel,
    StepModel,
) {
    let b = AppModel { connecting: false, ..a };
    match result {
        Ok(_) => app::ended(app::sent(b, Action::Connected), now),
        Err(e) => app::ended(app::sent(b, Action::ConnectionFailed("连接失败: "@ + e)), now),
    }
}

/// The folders came, or did not. Those that came are stored for the account in use; in place of
/// those that did not, the stored ones are loaded.
pub open spec fn folders_listed(
    a: AppModel,
    result: Result<Seq<FolderModel>, Seq<char>>,
    now: u64,
) -> (AppModel, StepModel) {
    match result {
        Ok(f) => match a.active_account_id {
            Some(id) => app::asking(a, EffectModel::CacheFolders(id, f), WaitingModel::FoldersCached(f)),
            None => app::ended(folders_shown(a, f), now),
        },
        Err(e) => match a.active_account_id {
            Some(id) => app::asking(
                a,
                EffectModel::RecallFolders(id),
                WaitingModel::FoldersRecalled(e),
            ),
            None => complaining(a, "获取文件夹失败: "@ + e, now),
        },
    }
}

/// The stored folders are shown, if there are any.
pub open spec fn folders_recalled(
    a: AppModel,
    error: Seq<char>,
    folders: Seq<FolderModel>,
    now: u64,
) -> (AppModel, StepModel) {
    if folders.len() == 0 {
        complaining(a, "获取文件夹失败: "@ + error, now)
    } else {
        app::ended_quietly(folders_shown(a, folders))
    }
}

/// The folders came again, or did not.
pub open spec fn folders_refreshed(
    a: AppModel,
    result: Result<Seq<FolderModel>, Seq<char>>,
    now: u64,
) -> (AppModel, StepModel) {
    match result {
        Ok(f) => app::ended(
            AppModel { folder_list: folder_list::showing(a.folder_list, f), ..a },
            now,
        ),
        Err(e) => complaining(a, "刷新文件夹失败: "@ + e, now),
    }
}

/// What is said where the messages of a folder cannot be had.
pub open spec fn no_mails(name: Seq<char>, error: Seq<char>) -> Seq<char> {
    "获取 "@ + name + " 邮件列表失败: "@ + error
}

/// The messages came, or did not. Those that came are stored for the account in use; in place of
/// those that did not, the stored ones are loaded.
pub open spec fn mails_fetched(
    a: AppModel,
    name: Seq<char>,
    result: Result<Seq<SummaryModel>, Seq<char>>,
    now: u64,
) -> (AppModel, StepModel) {
    match result {
        Ok(m) => match a.active_account_id {
            Some(id) => app::asking(
                a,
                EffectModel::CacheMails(id, name, m),
                WaitingModel::MailsCached(m),
            ),
            None => app::ended(mails_shown(a, m), now),
        },
        Err(e) => match a.active_account_id {
            Some(id) => app::asking(
                a,
                EffectModel::RecallMails(id, name, LATEST),
                WaitingModel::MailsRecalled(name, e),
            ),
            None => complaining(a, no_mails(name, e), now),
        },
    }
}

/// The stored messages are shown, if there are any.
pub open spec fn mails_recalled(
    a: AppModel,
    name: Seq<char>,
    error: Seq<char>,
    mails: Seq<SummaryModel>,
    now: u64,
) -> (AppModel, StepModel) {
    if mails.len() == 0 {
        complaining(a, no_mails(name, error), now)
    } else {
        app::ended_quietly(mails_shown(a, mails))
    }
}

/// The message cannot be had: the client says so, and goes back to the list.
pub open spec fn message_missing(
    a: AppModel,
    folder: Seq<char>,
    uid: u32,
    error: Seq<char>,
    now: u64,
) -> (AppModel, StepModel) {
    app::ended(
        app::switched(
            app::sent(
                a,
                Action::Error(
                    "查看 "@ + folder + "/"@ + number::decimal(uid as nat) + " 失败: "@ + error,
                ),
            ),
            Mode::MailList,
        ),
        now,
    )
}

/// The message came, or did not. One that came is marked as seen; in place of one that did not,
/// the stored one is loaded.
pub open spec fn message_fetched(
    a: AppModel,
    folder: Seq<char>,
    uid: u32,
    result: Result<EmailModel, Seq<char>>,
    now: u64,
) -> (AppModel, StepModel) {
    match result {
        Ok(m) => app::asking(
            a,
            EffectModel::AddFlag(folder, uid, MailFlag::Seen),
            WaitingModel::Marked(m),
        ),
        Err(e) => match a.active_account_id {
            Some(id) => app::asking(
                a,
                EffectModel::RecallMessage(id, folder, uid),
                WaitingModel::MessageRecalled(folder, uid, e),
            ),
            None => message_missing(a, folder, uid, e, now),
        },
    }
}

/// The message is marked in the list too, stored for the account in use, and shown.
pub open spec fn message_marked(a: AppModel, mail: EmailModel, now: u64) -> (AppModel, StepModel) {
    let b = AppModel { mail_list: mail_list::seen(a.mail_list), ..a };
    match b.active_account_id {
        Some(id) => app::asking(
            b,
            EffectModel::CacheMessage(id, mail),
            WaitingModel::MessageCached(mail),
        ),
        None => app::ended(message_shown(b, mail), now),
    }
}

/// The stored message is shown, if there is one.
pub open spec fn message_recalled(
    a: AppModel,
    folder: Seq<char>,
    uid: u32,
    error: Seq<char>,
    mail: Option<EmailModel>,
    now: u64,
) -> (AppModel, StepModel) {
    match mail {
        Some(m) => app::ended(message_shown(a, m), now),
        None => message_missing(a, folder, uid, error, now),
    }
}

/// The action goes on with the answer.
pub open spec fn resumed(a: AppModel, reply: ReplyModel, now: u64) -> (AppModel, StepModel) {
    match a.waiting {
        WaitingModel::Nothing => app::ended(a, now),
        WaitingModel::End => app::ended(a, now),
        WaitingModel::QuietEnd => app::ended_quietly(a),
        WaitingModel::Home => app::ended(app::switched(a, Mode::Home), now),
        WaitingModel::Accounts => accounts_loaded(a, reply->Accounts_0),
        WaitingModel::Removal(i) => account_removed(a, i),
        WaitingModel::Sending => message_sent(a, reply->Outcome_0, now),
        WaitingModel::Connecting => connection_made(a, reply->Outcome_0, now),
        WaitingModel::Folders => folders_listed(a, reply->Folders_0, now),
        WaitingModel::FoldersCached(f) => app::ended(folders_shown(a, f), now),
        WaitingModel::FoldersRecalled(e) => folders_recalled(a, e, reply->StoredFolders_0, now),
        WaitingModel::Refresh => folders_refreshed(a, reply->Folders_0, now),
        WaitingModel::Mails(name) => mails_fetched(a, name, reply->Mails_0, now),
        WaitingModel::MailsCached(m) => app::ended(mails_shown(a, m), now),
        WaitingModel::MailsRecalled(name, e) => mails_recalled(
            a,
            name,
            e,
            reply->StoredMails_0,
            now,
        ),
        WaitingModel::Message(folder, uid) => message_fetched(
            a,
            folder,
            uid,
            reply->Message_0,
            now,
        ),
        WaitingModel::Marked(m) => message_marked(a, m, now),
        WaitingModel::MessageCached(m) => app::ended(message_shown(a, m), now),
        WaitingModel::MessageRecalled(folder, uid, e) => message_recalled(
            a,
            folder,
            uid,
            e,
            reply->StoredMessage_0,
            now,
        ),
        WaitingModel::Deleted => complaining(a, "邮件已标记为删除"@, now),
        WaitingModel::Saved => complaining(a, "✓ HTML 已保存: "@ + reply->Saved_0, now),
    }
}

/// The form and the message that is being written are the same.
pub open spec fn drafts_kept(a: AppModel, b: AppModel) -> bool {
    a.account_form == b.account_form && a.compose == b.compose
}

/// The model of the folders that came, or of the error.
pub open spec fn folders_view(r: Result<Vec<Folder>, String>) -> Result<
    Seq<FolderModel>,
    Seq<char>,
> {
    match r {
        Ok(v) => Ok(text::views(v@)),
        Err(e) => Err(e@),
    }
}

/// The model of the messages that came, or of the error.
pub open spec fn mails_view(r: Result<Vec<EmailSummary>, String>) -> Result<
    Seq<SummaryModel>,
    Seq<char>,
> {
    match r {
        Ok(v) => Ok(text::views(v@)),
        Err(e) => Err(e@),
    }
}

/// The model of the message that came, or of the error.
pub open spec fn message_view(r: Result<Email, String>) -> Result<EmailModel, Seq<char>> {
    match r {
        Ok(m) => Ok(m@),
        Err(e) => Err(e@),
    }
}

fn say_no_mails(name: &str, error: &str) -> (r: String)
    ensures
        r@ == no_mails(name@, error@),
{
    let mut s = concat("获取 ", name);
    s.append(" 邮件列表失败: ");
    s.append(error);
    s
}

impl App {
    fn complain(&mut self, message: String, now: u64) -> (r: Step)
        ensures
            (final(self)@, r@) == complaining(old(self)@, message@, now),
            drafts_kept(final(self)@, old(self)@),
    {
        self.send(Action::Error(message));
        self.end(now)
    }

    fn show_folders(&mut self, folders: Vec<Folder>)
        ensures
            final(self)@ == folders_shown(old(self)@, text::views(folders@)),
            drafts_kept(final(self)@, old(self)@),
    {
        self.folder_list.set_folders(folders);
        self.switch_mode(Mode::FolderList);
    }

    fn remove_account(&mut self, i: usize) -> (r: Step)
        ensures
            (final(self)@, r@) == account_removed(old(self)@, i),
            drafts_kept(final(self)@, old(self)@),
    {
        if i < self.accounts.len() {
            let ghost before = self@.accounts;
            self.accounts.remove(i);
            assert(self@.accounts =~= before.remove(i as int));
        }
        self.ask(Effect::ShowAccounts, Waiting::End)
    }

    fn after_send(&mut self, result: Result<(), String>, now: u64) -> (r: Step)
        ensures
            (final(self)@, r@) == message_sent(old(self)@, client::done_view(result), now),
            drafts_kept(final(self)@, old(self)@),
    {
        match result {
            Ok(_) => {
                let mode = if self.mail_list.current_folder.as_str().is_empty() {
                    Mode::Home
                } else {
                    Mode::MailList
                };
                self.begin_switch(mode, now)
            },
            Err(e) => self.complain(concat("发送失败: ", e.as_str()), now),
        }
    }

    fn after_connect(&mut self, result: Result<(), String>, now: u64) -> (r: Step)
        ensures
            (final(self)@, r@) == connection_made(old(self)@, client::done_view(result), now),
            drafts_kept(final(self)@, old(self)@),
    {
        self.connecting = false;
        match result {
            Ok(_) => self.send(Action::Connected),
            Err(e) => self.send(Action::ConnectionFailed(concat("连接失败: ", e.as_str()))),
        }
        self.end(now)
    }

    fn after_folders(&mut self, result: Result<Vec<Folder>, String>, now: u64) -> (r: Step)
        ensures
            (final(self)@, r@) == folders_listed(old(self)@, folders_view(result), now),
            drafts_kept(final(self)@, old(self)@),
    {
        match result {
            Ok(f) => match self.active_account_id {
                Some(id) => self.ask(
                    Effect::CacheFolders(id, duplicate_all(&f)),
                    Waiting::FoldersCached(f),
                ),
                None => {
                    self.show_folders(f);
                    self.end(now)
                },
            },
            Err(e) => match self.active_account_id {
                Some(id) => self.ask(Effect::RecallFolders(id), Waiting::FoldersRecalled(e)),
                None => self.complain(concat("获取文件夹失败: ", e.as_str()), now),
            },
        }
    }

    fn after_recalled_folders(&mut self, error: &str, folders: Vec<Folder>, now: u64) -> (r: Step)
        ensures
            (final(self)@, r@) == folders_recalled(
                old(self)@,
                error@,
                text::views(folders@),
                now,
            ),
            drafts_kept(final(self)@, old(self)@),
    {
        if folders.len() == 0 {
            self.complain(concat("获取文件夹失败: ", error), now)
        } else {
            self.show_folders(folders);
            self.end_quietly()
        }
    }

    fn after_refresh(&mut self, result: Result<Vec<Folder>, String>, now: u64) -> (r: Step)
        ensures
            (final(self)@, r@) == folders_refreshed(old(self)@, folders_view(result), now),
            drafts_kept(final(self)@, old(self)@),
    {
        match result {
            Ok(f) => {
                self.folder_list.set_folders(f);
                self.end(now)
            },
            Err(e) => self.complain(concat("刷新文件夹失败: ", e.as_str()), now),
        }
    }

    fn after_mails(&mut self, name: String, result: Result<Vec<EmailSummary>, String>, now: u64) -> (r:
        Step)
        ensures
            (final(self)@, r@) == mails_fetched(old(self)@, name@, mails_view(result), now),
            drafts_kept(final(self)@, old(self)@),
    {
        match result {
            Ok(m) => match self.active_account_id {
                Some(id) => self.ask(
                    Effect::CacheMails(id, name, duplicate_all(&m)),
                    Waiting::MailsCached(m),
                ),
                None => {
                    self.mail_list.set_mails(m);
                    self.end(now)
                },
            },
            Err(e) => match self.active_account_id {
                Some(id) => self.ask(
                    Effect::RecallMails(id, name.clone(), LATEST),
                    Waiting::MailsRecalled(name, e),
                ),
                None => self.complain(say_no_mails(name.as_str(), e.as_str()), now),
            },
        }
    }

    fn after_recalled_mails(
        &mut self,
        name: &str,
        error: &str,
        mails: Vec<EmailSummary>,
        now: u64,
    ) -> (r: Step)
        ensures
            (final(self)@, r@) == mails_recalled(
                old(self)@,
                name@,
                error@,
                text::views(mails@),
                now,
            ),
            drafts_kept(final(self)@, old(self)@),
    {
        if mails.len() == 0 {
            self.complain(say_no_mails(name, error), now)
        } else {
            self.mail_list.set_mails(mails);
            self.end_quietly()
        }
    }

    fn miss_message(&mut self, folder: &str, uid: u32, error: &str, now: u64) -> (r: Step)
        ensures
            (final(self)@, r@) == message_missing(old(self)@, folder@, uid, error@, now),
            drafts_kept(final(self)@, old(self)@),
    {
        let mut s = concat("查看 ", folder);
        s.append("/");
        s.append(decimal_text(uid as u64).as_str());
        s.append(" 失败: ");
        s.append(error);
        self.send(Action::Error(s));
        self.begin_switch(Mode::MailList, now)
    }

    fn after_message(
        &mut self,
        folder: String,
        uid: u32,
        result: Result<Email, String>,
        now: u64,
    ) -> (r: Step)
        ensures
            (final(self)@, r@) == message_fetched(
                old(self)@,
                folder@,
                uid,
                message_view(result),
                now,
            ),
            drafts_kept(final(self)@, old(self)@),
    {
        match result {
            Ok(m) => self.ask(Effect::AddFlag(folder, uid, MailFlag::Seen), Waiting::Marked(m)),
            Err(e) => match self.active_account_id {
                Some(id) => self.ask(
                    Effect::RecallMessage(id, folder.clone(), uid),
                    Waiting::MessageRecalled(folder, uid, e),
                ),
                None => self.miss_message(folder.as_str(), uid, e.as_str(), now),
            },
        }
    }

    fn after_mark(&mut self, mail: Email, now: u64) -> (r: Step)
        ensures
            (final(self)@, r@) == message_marked(old(self)@, mail@, now),
            drafts_kept(final(self)@, old(self)@),
    {
        self.mail_list.mark_seen();
        match self.active_account_id {
            Some(id) => self.ask(
                Effect::CacheMessage(id, mail.duplicate()),
                Waiting::MessageCached(mail),
            ),
            None => self.show_message(mail, now),
        }
    }

    fn show_message(&mut self, mail: Email, now: u64) -> (r: Step)
        ensures
            (final(self)@, r@) == app::ended(message_shown(old(self)@, mail@), now),
            drafts_kept(final(self)@, old(self)@),
    {
        self.mail_view.set_mail(mail);
        self.end(now)
    }

    fn resume_done(&mut self, waiting: Waiting, now: u64) -> (r: Step)
        requires
            app::fits(waiting@, ReplyModel::Done),
        ensures
            (final(self)@, r@) == resumed(
                (AppModel { waiting: waiting@, ..old(self)@ }),
                ReplyModel::Done,
                now,
            ),
            drafts_kept(final(self)@, old(self)@),
    {
        match waiting {
            Waiting::QuietEnd => self.end_quietly(),
            Waiting::Home => self.begin_switch(Mode::Home, now),
            Waiting::Removal(i) => self.remove_account(i),
            Waiting::FoldersCached(f) => {
                self.show_folders(f);
                self.end(now)
            },
            Waiting::MailsCached(m) => {
                self.mail_list.set_mails(m);
                self.end(now)
            },
            Waiting::Marked(m) => self.after_mark(m, now),
            Waiting::MessageCached(m) => self.show_message(m, now),
            Waiting::Deleted => self.complain("邮件已标记为删除".to_owned(), now),
            _ => self.end(now),
        }
    }

    fn resume_live(&mut self, waiting: Waiting, reply: Reply, now: u64) -> (r: Step)
        requires
            app::fits(waiting@, reply@),
            reply@ is Folders || reply@ is Mails || reply@ is Message,
        ensures
            (final(self)@, r@) == resumed(
                (AppModel { waiting: waiting@, ..old(self)@ }),
                reply@,
                now,
            ),
            drafts_kept(final(self)@, old(self)@),
    {
        match reply {
            Reply::Folders(result) => match waiting {
                Waiting::Refresh => self.after_refresh(result, now),
                _ => self.after_folders(result, now),
            },
            Reply::Mails(result) => match waiting {
                Waiting::Mails(name) => self.after_mails(name, result, now),
                _ => self.end(now),
            },
            Reply::Message(result) => match waiting {
                Waiting::Message(folder, uid) => self.after_message(folder, uid, result, now),
                _ => self.end(now),
            },
            _ => self.end(now),
        }
    }

    fn resume_stored(&mut self, waiting: Waiting, reply: Reply, now: u64) -> (r: Step)
        requires
            app::fits(waiting@, reply@),
            reply@ is StoredFolders || reply@ is StoredMails || reply@ is StoredMessage,
        ensures
            (final(self)@, r@) == resumed(
                (AppModel { waiting: waiting@, ..old(self)@ }),
                reply@,
                now,
            ),
            drafts_kept(final(self)@, old(self)@),
    {
        match reply {
            Reply::StoredFolders(f) => match waiting {
                Waiting::FoldersRecalled(e) => self.after_recalled_folders(e.as_str(), f, now),
                _ => self.end(now),
            },
            Reply::StoredMails(m) => match waiting {
                Waiting::MailsRecalled(name, e) => self.after_recalled_mails(
                    name.as_str(),
                    e.as_str(),
                    m,
                    now,
                ),
                _ => self.end(now),
            },
            Reply::StoredMessage(found) => match waiting {
                Waiting::MessageRecalled(folder, uid, e) => match found {
                    Some(m) => self.show_message(m, now),
                    None => self.miss_message(folder.as_str(), uid, e.as_str(), now),
                },
                _ => self.end(now),
            },
            _ => self.end(now),
        }
    }

    fn resume_other(&mut self, waiting: Waiting, reply: Reply, now: u64) -> (r: Step)
        requires
            app::fits(waiting@, reply@),
            reply@ is Accounts || reply@ is Outcome || reply@ is Saved,
        ensures
            (final(self)@, r@) == resumed(
                (AppModel { waiting: waiting@, ..old(self)@ }),
                reply@,
                now,
            ),
            drafts_kept(final(self)@, old(self)@),
    {
        match reply {
            Reply::Accounts(v) => {
                self.accounts = v;
                self.ask(Effect::ShowAccounts, Waiting::Home)
            },
            Reply::Outcome(result) => match waiting {
                Waiting::Sending => self.after_send(result, now),
                _ => self.after_connect(result, now),
            },
            Reply::Saved(path) => self.complain(concat("✓ HTML 已保存: ", path.as_str()), now),
            _ => self.end(now),
        }
    }

    /// Goes on with the answer to what was asked for.
    pub fn resume(&mut self, reply: Reply, now: u64) -> (r: Step)
        requires
            app::app_wf(old(self)@),
            app::fits(old(self)@.waiting, reply@),
        ensures
            (final(self)@, r@) == resumed(old(self)@, reply@, now),
            app::app_wf(final(self)@),
    {
        let mut waiting = Waiting::Nothing;
        std::mem::swap(&mut waiting, &mut self.waiting);
        match reply {
            Reply::Done => self.resume_done(waiting, now),
            Reply::Folders(f) => self.resume_live(waiting, Reply::Folders(f), now),
            Reply::Mails(m) => self.resume_live(waiting, Reply::Mails(m), now),
            Reply::Message(m) => self.resume_live(waiting, Reply::Message(m), now),
            Reply::StoredFolders(f) => self.resume_stored(waiting, Reply::StoredFolders(f), now),
            Reply::StoredMails(m) => self.resume_stored(waiting, Reply::StoredMails(m), now),
            Reply::StoredMessage(m) => self.resume_stored(waiting, Reply::StoredMessage(m), now),
            other => self.resume_other(waiting, other, now),
        }
    }
}

/// Whether this can be the answer to what is asked for.
pub open spec fn answers(effect: EffectModel, reply: ReplyModel) -> bool {
    match effect {
        EffectModel::StoreAccount(_) => reply is Accounts,
        EffectModel::SendMail(_, _) => reply is Outcome,
        EffectModel::Connect(_) => reply is Outcome,
        EffectModel::ListFolders => reply is Folders,
        EffectModel::RecallFolders(_) => reply is StoredFolders,
        EffectModel::FetchLatest(_, _) => reply is Mails,
        EffectModel::RecallMails(_, _, _) => reply is StoredMails,
        EffectModel::FetchMessage(_, _) => reply is Message,
        EffectModel::RecallMessage(_, _, _) => reply is StoredMessage,
        EffectModel::SaveFile(_, _) => reply is Saved,
        _ => reply is Done,
    }
}

/// Whether a client that takes this step waits for the answer to just what it asks for, and for
/// nothing if it asks for nothing.
pub open spec fn awaits_its_answer(a: AppModel, step: StepModel, reply: ReplyModel) -> bool {
    match step {
        StepModel::Ask(effect) => app::fits(a.waiting, reply) == answers(effect, reply),
        _ => a.waiting is Nothing,
    }
}

/// An action that is begun waits for the answer to what it asks for.
#[verifier::rlimit(50)]
pub proof fn begun_awaits(
    a: AppModel,
    action: ActionModel,
    selected: Option<usize>,
    now: u64,
    reply: ReplyModel,
)
    requires
        a.waiting is Nothing,
    ensures
        ({
            let (b, step) = app::begun(a, action, selected, now);
            awaits_its_answer(b, step, reply)
        }),
{
    let c = AppModel { current: action, ..a };
    match action {
        Action::SaveAccount => {
            assert(app::begun(a, action, selected, now) == app::storing(c, now));
        },
        Action::DeleteAccount => {
            assert(app::begun(a, action, selected, now) == app::removing(c, selected, now));
        },
        Action::Send => {
            assert(app::begun(a, action, selected, now) == app::sending(c, now));
        },
        Action::DeleteMail => {
            assert(app::begun(a, action, selected, now) == app::deleting(c, now));
        },
        Action::ToggleFlag => {
            assert(app::begun(a, action, selected, now) == app::toggling(c, now));
        },
        Action::SaveHtml => {
            assert(app::begun(a, action, selected, now) == app::saving(c, now));
        },
        Action::ViewMail => {
            assert(app::begun(a, action, selected, now) == app::viewing(c, now));
        },
        _ => {},
    }
}

/// An action that goes on waits for the answer to what it asks for.
pub proof fn resumed_awaits(a: AppModel, answer: ReplyModel, now: u64, reply: ReplyModel)
    requires
        app::fits(a.waiting, answer),
    ensures
        ({
            let (b, step) = resumed(a, answer, now);
            awaits_its_answer(b, step, reply)
        }),
{
}

/// How many answers an action still needs at most.
pub open spec fn answers_left(waiting: WaitingModel) -> nat {
    match waiting {
        WaitingModel::Nothing => 0,
        WaitingModel::Message(_, _) => 3,
        WaitingModel::Accounts => 2,
        WaitingModel::Removal(_) => 2,
        WaitingModel::Folders => 2,
        WaitingModel::Mails(_) => 2,
        WaitingModel::Marked(_) => 2,
        _ => 1,
    }
}

/// Every answer brings an action nearer to its end, which comes after at most three of them.
pub proof fn answers_run_out(a: AppModel, reply: ReplyModel, now: u64)
    requires
        app::fits(a.waiting, reply),
    ensures
        answers_left(resumed(a, reply, now).0.waiting) < answers_left(a.waiting) <= 3,
{
}

/// A message that was fetched for an account is marked as seen, stored for the account, and
/// shown.
pub proof fn fetched_message_kept(
    a: AppModel,
    id: i64,
    folder: Seq<char>,
    uid: u32,
    mail: EmailModel,
    now: u64,
)
    requires
        a.waiting == WaitingModel::Message(folder, uid),
        a.active_account_id == Some(id),
    ensures
        ({
            let (b, first) = resumed(a, ReplyModel::Message(Ok(mail)), now);
            let (c, second) = resumed(b, ReplyModel::Done, now);
            let (d, third) = resumed(c, ReplyModel::Done, now);
            &&& first == StepModel::Ask(EffectModel::AddFlag(folder, uid, MailFlag::Seen))
            &&& second == StepModel::Ask(EffectModel::CacheMessage(id, mail))
            &&& third is Next
            &&& d.mail_view.mail == Some(mail)
        }),
{
}

/// Where a message cannot be fetched for an account, the stored one is shown in its place,
/// without a complaint; where there is none either, the client complains and shows the list.
pub proof fn stored_message_stands_in(
    a: AppModel,
    id: i64,
    folder: Seq<char>,
    uid: u32,
    error: Seq<char>,
    stored: Option<EmailModel>,
    now: u64,
)
    requires
        a.waiting == WaitingModel::Message(folder, uid),
        a.active_account_id == Some(id),
    ensures
        ({
            let (b, first) = resumed(a, ReplyModel::Message(Err(error)), now);
            let (c, second) = resumed(b, ReplyModel::StoredMessage(stored), now);
            &&& first == StepModel::Ask(EffectModel::RecallMessage(id, folder, uid))
            &&& second is Next
            &&& stored matches Some(m) ==> c.mail_view.mail == Some(m) && c.pending == a.pending
            &&& stored is None ==> c.mode == Mode::MailList && c.pending.len() == a.pending.len()
                + 1 && c.pending.last() is Error && c.mail_view == a.mail_view
        }),
{
}

/// Where the folders cannot be listed for an account, the stored ones are shown in their place,
/// without a complaint; where there are none either, the client complains and stays where it is.
pub proof fn stored_folders_stand_in(
    a: AppModel,
    id: i64,
    error: Seq<char>,
    stored: Seq<FolderModel>,
    now: u64,
)
    requires
        a.waiting == WaitingModel::Folders,
        a.active_account_id == Some(id),
    ensures
        ({
            let (b, first) = resumed(a, ReplyModel::Folders(Err(error)), now);
            let (c, second) = resumed(b, ReplyModel::StoredFolders(stored), now);
            &&& first == StepModel::Ask(EffectModel::RecallFolders(id))
            &&& second is Next
            &&& stored.len() > 0 ==> c.mode == Mode::FolderList && c.folder_list.folders == stored
                && c.pending == a.pending
            &&& stored.len() == 0 ==> c.mode == a.mode && c.folder_list == a.folder_list
                && c.pending.len() == a.pending.len() + 1 && c.pending.last() is Error
        }),
{
}

/// Where the messages of a folder cannot be fetched for an account, the stored ones are shown in
/// their place, without a complaint; where there are none either, the client complains.
pub proof fn stored_mails_stand_in(
    a: AppModel,
    id: i64,
    name: Seq<char>,
    error: Seq<char>,
    stored: Seq<SummaryModel>,
    now: u64,
)
    requires
        a.waiting == WaitingModel::Mails(name),
        a.active_account_id == Some(id),
    ensures
        ({
            let (b, first) = resumed(a, ReplyModel::Mails(Err(error)), now);
            let (c, second) = resumed(b, ReplyModel::StoredMails(stored), now);
            &&& first == StepModel::Ask(EffectModel::RecallMails(id, name, LATEST))
            &&& second is Next
            &&& stored.len() > 0 ==> c.mail_list.mails == stored && c.pending == a.pending
            &&& stored.len() == 0 ==> c.mail_list == a.mail_list && c.pending.len()
                == a.pending.len() + 1 && c.pending.last() is Error
        }),
{
}

/// What was fetched for an account is stored for it as it came, and shown as it came.
pub proof fn fetched_lists_kept(
    a: AppModel,
    id: i64,
    name: Seq<char>,
    folders: Seq<FolderModel>,
    mails: Seq<SummaryModel>,
    now: u64,
)
    requires
        a.active_account_id == Some(id),
    ensures
        a.waiting == WaitingModel::Folders ==> ({
            let (b, first) = resumed(a, ReplyModel::Folders(Ok(folders)), now);
            let (c, second) = resumed(b, ReplyModel::Done, now);
            &&& first == StepModel::Ask(EffectModel::CacheFolders(id, folders))
            &&& second is Next
            &&& c.folder_list.folders == folders
        }),
        a.waiting == WaitingModel::Mails(name) ==> ({
            let (b, first) = resumed(a, ReplyModel::Mails(Ok(mails)), now);
            let (c, second) = resumed(b, ReplyModel::Done, now);
            &&& first == StepModel::Ask(EffectModel::CacheMails(id, name, mails))
            &&& second is Next
            &&& c.mail_list.mails == mails
        }),
{
}

/// The client stops for the action that says so, and for nothing else: no error makes it stop.
pub proof fn only_quit_stops(
    a: AppModel,
    action: ActionModel,
    selected: Option<usize>,
    reply: ReplyModel,
    now: u64,
)
    ensures
        app::begun(a, action, selected, now).0.should_quit == (a.should_quit || action is Quit),
        app::fits(a.waiting, reply) ==> resumed(a, reply, now).0.should_quit == a.should_quit,
{
}

/// While a connection is being made, no other is begun; once the answer is there, whatever it is,
/// another may be.
pub proof fn one_connection_at_a_time(
    a: AppModel,
    selected: Option<usize>,
    result: Result<(), Seq<char>>,
    now: u64,
)
    ensures
        a.connecting ==> !(app::begun(a, Action::Connect, selected, now).1 is Ask),
        app::begun(a, Action::Connect, selected, now).1 is Ask ==> app::begun(
            a,
            Action::Connect,
            selected,
            now,
        ).0.connecting,
        a.waiting == WaitingModel::Connecting ==> !resumed(
            a,
            ReplyModel::Outcome(result),
            now,
        ).0.connecting,
{
}

/// A message that could not be sent is still there to be sent again.
pub proof fn unsent_message_stays(a: AppModel, error: Seq<char>, now: u64)
    requires
        a.waiting == WaitingModel::Sending,
    ensures
        ({
            let (b, step) = resumed(a, ReplyModel::Outcome(Err(error)), now);
            &&& step is Next
            &&& b.compose == a.compose
            &&& b.mode == a.mode
            &&& b.pending == a.pending.push(Action::Error("发送失败: "@ + error))
        }),
{
}

/// Whether the status bar shows the keys of the view.
pub open spec fn bar_fits(a: AppModel) -> bool {
    a.status_bar.mode == a.mode
}

/// The status bar shows the keys of the view when the client starts.
pub proof fn first_bar_fits(accounts: Seq<Account<Seq<char>>>)
    ensures
        bar_fits(app::first_app(accounts)),
{
}

/// The status bar goes on to show the keys of the view when an action is begun.
#[verifier::spinoff_prover]
#[verifier::rlimit(60)]
pub proof fn begun_bar_fits(a: AppModel, action: ActionModel, selected: Option<usize>, now: u64)
    requires
        bar_fits(a),
    ensures
        bar_fits(app::begun(a, action, selected, now).0),
{
    assert forall|bar: status_bar::BarModel, act: ActionModel|
        (#[trigger] status_bar::informed(bar, act, now)).mode == bar.mode by {
        status_bar::informed_keeps_mode(bar, act, now);
    }
    let c = AppModel { current: action, ..a };
    match action {
        Action::SaveAccount => {
            assert(app::begun(a, action, selected, now) == app::storing(c, now));
        },
        Action::DeleteAccount => {
            assert(app::begun(a, action, selected, now) == app::removing(c, selected, now));
        },
        Action::Send => {
            assert(app::begun(a, action, selected, now) == app::sending(c, now));
        },
        Action::DeleteMail => {
            assert(app::begun(a, action, selected, now) == app::deleting(c, now));
        },
        Action::ToggleFlag => {
            assert(app::begun(a, action, selected, now) == app::toggling(c, now));
        },
        Action::SaveHtml => {
            assert(app::begun(a, action, selected, now) == app::saving(c, now));
        },
        Action::ViewMail => {
            assert(app::begun(a, action, selected, now) == app::viewing(c, now));
        },
        _ => {},
    }
}

/// The status bar goes on to show the keys of the view when an answer comes.
#[verifier::spinoff_prover]
#[verifier::rlimit(60)]
pub proof fn resumed_bar_fits(a: AppModel, reply: ReplyModel, now: u64)
    requires
        bar_fits(a),
        app::fits(a.waiting, reply),
    ensures
        bar_fits(resumed(a, reply, now).0),
{
    assert forall|bar: status_bar::BarModel, act: ActionModel|
        (#[trigger] status_bar::informed(bar, act, now)).mode == bar.mode by {
        status_bar::informed_keeps_mode(bar, act, now);
    }
}

} // verus!
