//! The client as a machine: what an action does at once, and what it asks for.

use vstd::prelude::*;
use vstd::string::*;

use crate::account_form;
use crate::account_form::{AccountForm, AccountFormData, DataModel, FormModel};
use crate::action::{Action, ActionModel, Mode};
use crate::client::{ClientModel, MailClient};
use crate::compose;
use crate::compose::{Compose, ComposeModel};
use crate::flags;
use crate::flags::{has_flag, FlagModel};
use crate::folder_list::{FolderList, FoldersModel};
use crate::imap::FolderModel;
use crate::keys::Key;
use crate::mail_list;
use crate::mail_list::{MailList, MailsModel};
use crate::mail_view;
use crate::mail_view::{MailView, ViewModel};
use crate::number;
use crate::number::decimal_text;
use crate::status_bar;
use crate::status_bar::{BarModel, StatusBar};
use crate::store;
use crate::store::security_from_str;
use crate::text;
use crate::text::{concat, to_chars, to_text, trim_chars};
use crate::types::{
    Account, AccountConfig, Duplicate, Email, EmailModel, EmailSummary, Folder, MailFlag,
    NewAccount, OutgoingEmail, OutgoingModel, SummaryModel,
};
use crate::ui;

verus! {

broadcast use {
    vstd::string::group_string_axioms,
    text::views_push,
    text::views_empty,
};

/// What the client asks for.
pub enum Effect {
    /// Ask the mail server whether it is there, whatever it says.
    Noop,
    /// Clear the screen.
    ClearScreen,
    /// Draw the screen.
    Draw,
    /// Store the account, and load all accounts.
    StoreAccount(NewAccount),
    /// Remove the account of this number from the store.
    RemoveAccount(i64),
    /// Show the accounts anew.
    ShowAccounts,
    /// Send the message by this account.
    SendMail(AccountConfig, OutgoingEmail),
    /// Connect to the mail server of this account.
    Connect(AccountConfig),
    /// Disconnect from the mail server, whatever it says.
    Disconnect,
    /// List the folders.
    ListFolders,
    /// Store the folders of an account.
    CacheFolders(i64, Vec<Folder>),
    /// Load the folders of an account from the store.
    RecallFolders(i64),
    /// Fetch the last messages of a folder, at most so many.
    FetchLatest(String, u32),
    /// Store the summaries of the messages of an account's folder.
    CacheMails(i64, String, Vec<EmailSummary>),
    /// Load the summaries of the messages of an account's folder from the store, at most so many.
    RecallMails(i64, String, u32),
    /// Fetch a message of a folder.
    FetchMessage(String, u32),
    /// Store a message of an account.
    CacheMessage(i64, Email),
    /// Load a message of an account's folder from the store.
    RecallMessage(i64, String, u32),
    /// Add a flag to a message of a folder, whatever comes of it.
    AddFlag(String, u32, MailFlag),
    /// Take a flag from a message of a folder, whatever comes of it.
    RemoveFlag(String, u32, MailFlag),
    /// Write a file of this name.
    SaveFile(String, String),
}

/// The model of what the client asks for.
pub ghost enum EffectModel {
    Noop,
    ClearScreen,
    Draw,
    StoreAccount(NewAccount<Seq<char>>),
    RemoveAccount(i64),
    ShowAccounts,
    SendMail(AccountConfig<Seq<char>>, OutgoingModel),
    Connect(AccountConfig<Seq<char>>),
    Disconnect,
    ListFolders,
    CacheFolders(i64, Seq<FolderModel>),
    RecallFolders(i64),
    FetchLatest(Seq<char>, u32),
    CacheMails(i64, Seq<char>, Seq<SummaryModel>),
    RecallMails(i64, Seq<char>, u32),
    FetchMessage(Seq<char>, u32),
    CacheMessage(i64, EmailModel),
    RecallMessage(i64, Seq<char>, u32),
    AddFlag(Seq<char>, u32, FlagModel),
    RemoveFlag(Seq<char>, u32, FlagModel),
    SaveFile(Seq<char>, Seq<char>),
}

impl View for Effect {
    type V = EffectModel;

    open spec fn view(&self) -> EffectModel {
        match *self {
            Effect::Noop => EffectModel::Noop,
            Effect::ClearScreen => EffectModel::ClearScreen,
            Effect::Draw => EffectModel::Draw,
            Effect::StoreAccount(a) => EffectModel::StoreAccount(a@),
            Effect::RemoveAccount(id) => EffectModel::RemoveAccount(id),
            Effect::ShowAccounts => EffectModel::ShowAccounts,
            Effect::SendMail(c, m) => EffectModel::SendMail(c@, m@),
            Effect::Connect(c) => EffectModel::Connect(c@),
            Effect::Disconnect => EffectModel::Disconnect,
            Effect::ListFolders => EffectModel::ListFolders,
            Effect::CacheFolders(id, f) => EffectModel::CacheFolders(id, text::views(f@)),
            Effect::RecallFolders(id) => EffectModel::RecallFolders(id),
            Effect::FetchLatest(f, n) => EffectModel::FetchLatest(f@, n),
            Effect::CacheMails(id, f, m) => EffectModel::CacheMails(id, f@, text::views(m@)),
            Effect::RecallMails(id, f, n) => EffectModel::RecallMails(id, f@, n),
            Effect::FetchMessage(f, u) => EffectModel::FetchMessage(f@, u),
            Effect::CacheMessage(id, m) => EffectModel::CacheMessage(id, m@),
            Effect::RecallMessage(id, f, u) => EffectModel::RecallMessage(id, f@, u),
            Effect::AddFlag(f, u, l) => EffectModel::AddFlag(f@, u, l@),
            Effect::RemoveFlag(f, u, l) => EffectModel::RemoveFlag(f@, u, l@),
            Effect::SaveFile(n, s) => EffectModel::SaveFile(n@, s@),
        }
    }
}

/// What the client waits for, and what it needs then.
pub enum Waiting {
    /// Nothing.
    Nothing,
    /// The end of the action.
    End,
    /// The end of an action of which the status bar is not told.
    QuietEnd,
    /// To go to the accounts.
    Home,
    /// The accounts.
    Accounts,
    /// The removal of the account at this place.
    Removal(usize),
    /// Whether the message was sent.
    Sending,
    /// Whether the connection was made.
    Connecting,
    /// The folders.
    Folders,
    /// That the folders are stored.
    FoldersCached(Vec<Folder>),
    /// The folders from the store, after this error.
    FoldersRecalled(String),
    /// The folders, again.
    Refresh,
    /// The messages of this folder.
    Mails(String),
    /// That the messages are stored.
    MailsCached(Vec<EmailSummary>),
    /// The messages of this folder from the store, after this error.
    MailsRecalled(String, String),
    /// The message of this folder and identifier.
    Message(String, u32),
    /// That the message is marked as seen.
    Marked(Email),
    /// That the message is stored.
    MessageCached(Email),
    /// The message of this folder and identifier from the store, after this error.
    MessageRecalled(String, u32, String),
    /// That the message is marked as deleted.
    Deleted,
    /// Where the file was written.
    Saved,
}

/// The model of what the client waits for.
pub ghost enum WaitingModel {
    Nothing,
    End,
    QuietEnd,
    Home,
    Accounts,
    Removal(usize),
    Sending,
    Connecting,
    Folders,
    FoldersCached(Seq<FolderModel>),
    FoldersRecalled(Seq<char>),
    Refresh,
    Mails(Seq<char>),
    MailsCached(Seq<SummaryModel>),
    MailsRecalled(Seq<char>, Seq<char>),
    Message(Seq<char>, u32),
    Marked(EmailModel),
    MessageCached(EmailModel),
    MessageRecalled(Seq<char>, u32, Seq<char>),
    Deleted,
    Saved,
}

impl View for Waiting {
    type V = WaitingModel;

    open spec fn view(&self) -> WaitingModel {
        match *self {
            Waiting::Nothing => WaitingModel::Nothing,
            Waiting::End => WaitingModel::End,
            Waiting::QuietEnd => WaitingModel::QuietEnd,
            Waiting::Home => WaitingModel::Home,
            Waiting::Accounts => WaitingModel::Accounts,
            Waiting::Removal(i) => WaitingModel::Removal(i),
            Waiting::Sending => WaitingModel::Sending,
            Waiting::Connecting => WaitingModel::Connecting,
            Waiting::Folders => WaitingModel::Folders,
            Waiting::FoldersCached(f) => WaitingModel::FoldersCached(text::views(f@)),
            Waiting::FoldersRecalled(e) => WaitingModel::FoldersRecalled(e@),
            Waiting::Refresh => WaitingModel::Refresh,
            Waiting::Mails(n) => WaitingModel::Mails(n@),
            Waiting::MailsCached(m) => WaitingModel::MailsCached(text::views(m@)),
            Waiting::MailsRecalled(n, e) => WaitingModel::MailsRecalled(n@, e@),
            Waiting::Message(f, u) => WaitingModel::Message(f@, u),
            Waiting::Marked(m) => WaitingModel::Marked(m@),
            Waiting::MessageCached(m) => WaitingModel::MessageCached(m@),
            Waiting::MessageRecalled(f, u, e) => WaitingModel::MessageRecalled(f@, u, e@),
            Waiting::Deleted => WaitingModel::Deleted,
            Waiting::Saved => WaitingModel::Saved,
        }
    }
}

/// The answer to what the client asked for. An error is its text.
pub enum Reply {
    Done,
    Accounts(Vec<Account>),
    /// Of a message that was to be sent, or of a connection.
    Outcome(Result<(), String>),
    Folders(Result<Vec<Folder>, String>),
    StoredFolders(Vec<Folder>),
    Mails(Result<Vec<EmailSummary>, String>),
    StoredMails(Vec<EmailSummary>),
    Message(Result<Email, String>),
    StoredMessage(Option<Email>),
    /// The path of the file.
    Saved(String),
}

/// The model of an answer.
pub ghost enum ReplyModel {
    Done,
    Accounts(Seq<Account<Seq<char>>>),
    Outcome(Result<(), Seq<char>>),
    Folders(Result<Seq<FolderModel>, Seq<char>>),
    StoredFolders(Seq<FolderModel>),
    Mails(Result<Seq<SummaryModel>, Seq<char>>),
    StoredMails(Seq<SummaryModel>),
    Message(Result<EmailModel, Seq<char>>),
    StoredMessage(Option<EmailModel>),
    Saved(Seq<char>),
}

impl View for Reply {
    type V = ReplyModel;

    open spec fn view(&self) -> ReplyModel {
        match *self {
            Reply::Done => ReplyModel::Done,
            Reply::Accounts(v) => ReplyModel::Accounts(text::views(v@)),
            Reply::Outcome(Ok(_)) => ReplyModel::Outcome(Ok(())),
            Reply::Outcome(Err(e)) => ReplyModel::Outcome(Err(e@)),
            Reply::Folders(Ok(v)) => ReplyModel::Folders(Ok(text::views(v@))),
            Reply::Folders(Err(e)) => ReplyModel::Folders(Err(e@)),
            Reply::StoredFolders(v) => ReplyModel::StoredFolders(text::views(v@)),
            Reply::Mails(Ok(v)) => ReplyModel::Mails(Ok(text::views(v@))),
            Reply::Mails(Err(e)) => ReplyModel::Mails(Err(e@)),
            Reply::StoredMails(v) => ReplyModel::StoredMails(text::views(v@)),
            Reply::Message(Ok(m)) => ReplyModel::Message(Ok(m@)),
            Reply::Message(Err(e)) => ReplyModel::Message(Err(e@)),
            Reply::StoredMessage(m) => ReplyModel::StoredMessage(text::opt_view(m)),
            Reply::Saved(p) => ReplyModel::Saved(p@),
        }
    }
}

/// Whether this can be the answer to what the client waits for.
pub open spec fn fits(waiting: WaitingModel, reply: ReplyModel) -> bool {
    match waiting {
        WaitingModel::Nothing => false,
        WaitingModel::Accounts => reply is Accounts,
        WaitingModel::Sending => reply is Outcome,
        WaitingModel::Connecting => reply is Outcome,
        WaitingModel::Folders => reply is Folders,
        WaitingModel::Refresh => reply is Folders,
        WaitingModel::FoldersRecalled(_) => reply is StoredFolders,
        WaitingModel::Mails(_) => reply is Mails,
        WaitingModel::MailsRecalled(_, _) => reply is StoredMails,
        WaitingModel::Message(_, _) => reply is Message,
        WaitingModel::MessageRecalled(_, _, _) => reply is StoredMessage,
        WaitingModel::Saved => reply is Saved,
        _ => reply is Done,
    }
}

/// What comes next: something that is asked for, the next action, or the end of the round, which
/// leaves the actions that are still waiting to the next one.
pub enum Step {
    Ask(Effect),
    Next,
    EndRound,
}

/// The model of what comes next.
pub ghost enum StepModel {
    Ask(EffectModel),
    Next,
    EndRound,
}

impl View for Step {
    type V = StepModel;

    open spec fn view(&self) -> StepModel {
        match *self {
            Step::Ask(e) => StepModel::Ask(e@),
            Step::Next => StepModel::Next,
            Step::EndRound => StepModel::EndRound,
        }
    }
}

/// The client.
pub struct App {
    pub account_form: AccountForm,
    pub compose: Compose,
    pub folder_list: FolderList,
    pub mail_list: MailList,
    pub mail_view: MailView,
    pub status_bar: StatusBar,
    pub should_quit: bool,
    pub should_suspend: bool,
    pub mode: Mode,
    pub connecting: bool,
    pub accounts: Vec<Account>,
    pub active_account_id: Option<i64>,
    pub mail_client: MailClient,
    /// The keys since the last tick that are bound to nothing alone.
    pub last_tick_key_events: Vec<Key>,
    /// The actions that are still to be done, the oldest first.
    pub pending: Vec<Action>,
    /// The action that is being done.
    pub current: Action,
    /// What the action waits for.
    pub waiting: Waiting,
}

/// The model of the client.
pub ghost struct AppModel {
    pub account_form: FormModel,
    pub compose: ComposeModel,
    pub folder_list: FoldersModel,
    pub mail_list: MailsModel,
    pub mail_view: ViewModel,
    pub status_bar: BarModel,
    pub should_quit: bool,
    pub should_suspend: bool,
    pub mode: Mode,
    pub connecting: bool,
    pub accounts: Seq<Account<Seq<char>>>,
    pub active_account_id: Option<i64>,
    pub mail_client: ClientModel,
    pub last_tick_key_events: Seq<Key>,
    pub pending: Seq<ActionModel>,
    pub current: ActionModel,
    pub waiting: WaitingModel,
}

impl View for App {
    type V = AppModel;

    open spec fn view(&self) -> AppModel {
        AppModel {
            account_form: self.account_form@,
            compose: self.compose@,
            folder_list: self.folder_list@,
            mail_list: self.mail_list@,
            mail_view: self.mail_view@,
            status_bar: self.status_bar@,
            should_quit: self.should_quit,
            should_suspend: self.should_suspend,
            mode: self.mode,
            connecting: self.connecting,
            accounts: text::views(self.accounts@),
            active_account_id: self.active_account_id,
            mail_client: self.mail_client@,
            last_tick_key_events: self.last_tick_key_events@,
            pending: text::views(self.pending@),
            current: self.current@,
            waiting: self.waiting@,
        }
    }
}

/// Whether the form and the message that is being written are as they should be.
pub open spec fn app_wf(a: AppModel) -> bool {
    account_form::form_wf(a.account_form) && compose::compose_wf(a.compose)
}

/// The client at first, with these accounts.
pub open spec fn first_app(accounts: Seq<Account<Seq<char>>>) -> AppModel {
    AppModel {
        account_form: account_form::empty_form(),
        compose: compose::empty_compose(),
        folder_list: FolderList {
            folders: seq![],
            state: ui::ListState { offset: 0, selected: Some(0) },
        },
        mail_list: mail_list::empty_mails(),
        mail_view: mail_view::empty_view(),
        status_bar: status_bar::empty_bar(),
        should_quit: false,
        should_suspend: false,
        mode: Mode::Home,
        connecting: false,
        accounts,
        active_account_id: None,
        mail_client: MailClient { config: None, session: false },
        last_tick_key_events: seq![],
        pending: seq![],
        current: Action::Tick,
        waiting: WaitingModel::Nothing,
    }
}

/// The client in this view.
pub open spec fn switched(a: AppModel, mode: Mode) -> AppModel {
    let bar = if mode == Mode::Home {
        StatusBar { current_folder: None, ..a.status_bar }
    } else {
        a.status_bar
    };
    AppModel { mode, status_bar: StatusBar { mode, ..bar }, ..a }
}

/// The client with this action still to be done.
pub open spec fn sent(a: AppModel, action: ActionModel) -> AppModel {
    AppModel { pending: a.pending.push(action), ..a }
}

/// The action is done, and the status bar is told of it.
pub open spec fn ended(a: AppModel, now: u64) -> (AppModel, StepModel) {
    (
        AppModel {
            status_bar: status_bar::informed(a.status_bar, a.current, now),
            waiting: WaitingModel::Nothing,
            ..a
        },
        StepModel::Next,
    )
}

/// The action is done, and the status bar is not told of it.
pub open spec fn ended_quietly(a: AppModel) -> (AppModel, StepModel) {
    (AppModel { waiting: WaitingModel::Nothing, ..a }, StepModel::Next)
}

/// The action is done, and the round ends with it.
pub open spec fn round_ended(a: AppModel) -> (AppModel, StepModel) {
    (AppModel { waiting: WaitingModel::Nothing, ..a }, StepModel::EndRound)
}

/// The action asks for this, and waits for that.
pub open spec fn asking(a: AppModel, effect: EffectModel, waiting: WaitingModel) -> (
    AppModel,
    StepModel,
) {
    (AppModel { waiting, ..a }, StepModel::Ask(effect))
}

impl App {
    pub(crate) fn switch_mode(&mut self, mode: Mode)
        ensures
            final(self)@ == switched(old(self)@, mode),
    {
        if mode == Mode::Home {
            self.status_bar.clear_folder();
        }
        self.mode = mode;
        self.status_bar.set_mode(mode);
    }

    /// Leaves an action to be done.
    pub fn send(&mut self, action: Action)
        ensures
            final(self)@ == sent(old(self)@, action@),
    {
        self.pending.push(action);
    }

    pub(crate) fn end(&mut self, now: u64) -> (r: Step)
        ensures
            (final(self)@, r@) == ended(old(self)@, now),
    {
        self.status_bar.update(&self.current, now);
        self.waiting = Waiting::Nothing;
        Step::Next
    }

    pub(crate) fn end_quietly(&mut self) -> (r: Step)
        ensures
            (final(self)@, r@) == ended_quietly(old(self)@),
    {
        self.waiting = Waiting::Nothing;
        Step::Next
    }

    pub(crate) fn end_round(&mut self) -> (r: Step)
        ensures
            (final(self)@, r@) == round_ended(old(self)@),
    {
        self.waiting = Waiting::Nothing;
        Step::EndRound
    }

    pub(crate) fn ask(&mut self, effect: Effect, waiting: Waiting) -> (r: Step)
        ensures
            (final(self)@, r@) == asking(old(self)@, effect@, waiting@),
    {
        self.waiting = waiting;
        Step::Ask(effect)
    }

    /// The client at first, with these accounts.
    pub fn new(accounts: Vec<Account>) -> (r: Self)
        ensures
            r@ == first_app(text::views(accounts@)),
            app_wf(r@),
    {
        let pending: Vec<Action> = Vec::new();
        let last_tick_key_events: Vec<Key> = Vec::new();
        assert(text::views(pending@) =~= seq![]);
        assert(last_tick_key_events@ =~= seq![]);
        App {
            account_form: AccountForm::new(),
            compose: Compose::new(),
            folder_list: FolderList::new(),
            mail_list: MailList::new(),
            mail_view: MailView::new(),
            status_bar: StatusBar::new(),
            should_quit: false,
            should_suspend: false,
            mode: Mode::Home,
            connecting: false,
            accounts,
            active_account_id: None,
            mail_client: MailClient::new(),
            last_tick_key_events,
            pending,
            current: Action::Tick,
            waiting: Waiting::Nothing,
        }
    }
}

/// How many messages of a folder are fetched.
pub const LATEST: u32 = 50;

/// The account that was entered.
pub open spec fn entered_account(d: DataModel) -> NewAccount<Seq<char>> {
    NewAccount {
        email: d.email,
        display_name: if d.display_name.len() == 0 {
            None
        } else {
            Some(d.display_name)
        },
        config: AccountConfig {
            imap_host: d.imap_host,
            imap_port: d.imap_port,
            smtp_host: d.smtp_host,
            smtp_port: d.smtp_port,
            username: d.username,
            password: d.password,
            security: store::security_of(d.security),
        },
    }
}

fn build_account(d: AccountFormData) -> (r: NewAccount)
    ensures
        r@ == entered_account(d@),
{
    let named = !d.display_name.as_str().is_empty();
    NewAccount {
        email: d.email,
        display_name: if named {
            Some(d.display_name)
        } else {
            None
        },
        config: AccountConfig {
            imap_host: d.imap_host,
            imap_port: d.imap_port,
            smtp_host: d.smtp_host,
            smtp_port: d.smtp_port,
            username: d.username,
            password: d.password,
            security: security_from_str(d.security.as_str()),
        },
    }
}

/// The first account from `i` on with this number.
pub open spec fn account_from(accounts: Seq<Account<Seq<char>>>, id: i64, i: int) -> Option<
    Account<Seq<char>>,
>
    decreases accounts.len() - i,
{
    if i < 0 || i >= accounts.len() {
        None
    } else if accounts[i].id == id {
        Some(accounts[i])
    } else {
        account_from(accounts, id, i + 1)
    }
}

/// The account that is in use.
pub open spec fn active_account(a: AppModel) -> Option<Account<Seq<char>>> {
    match a.active_account_id {
        Some(id) => account_from(a.accounts, id, 0),
        None => None,
    }
}

/// The account that is chosen.
pub open spec fn selected_account(a: AppModel, selected: Option<usize>) -> Option<
    Account<Seq<char>>,
> {
    match selected {
        Some(i) => if i < a.accounts.len() {
            Some(a.accounts[i as int])
        } else {
            None
        },
        None => None,
    }
}

/// A character that may stand in the name of a file, in place of one that may not.
pub open spec fn file_char(c: char) -> char {
    if c == ':' || c == '<' || c == '>' || c == '/' || c == '\\' || c == '|' || c == '?' || c == '*'
        || c == '"' {
        '_'
    } else {
        c
    }
}

/// The name of the file that a message is saved to, without its extension.
pub open spec fn file_name(m: EmailModel) -> Seq<char> {
    let subject = text::trimmed(m.subject);
    if subject.len() == 0 {
        "email_"@ + number::decimal(m.uid as nat)
    } else {
        subject.map_values(|c: char| file_char(c))
    }
}

/// The HTML of a message as a document.
pub open spec fn document(subject: Seq<char>, html: Seq<char>) -> Seq<char> {
    "<!DOCTYPE html>\n<html><head><meta charset=\"utf-8\">\n<title>"@ + subject
        + "</title>\n<style>body { font-family: sans-serif; padding: 20px; }</style>\n</head><body>\n"@
        + html + "\n</body></html>"@
}

fn build_file_name(m: &Email) -> (r: String)
    ensures
        r@ == file_name(m@),
{
    let subject = trim_chars(&to_chars(m.subject.as_str()));
    if subject.len() == 0 {
        return concat("email_", decimal_text(m.uid as u64).as_str());
    }
    let mut name: Vec<char> = Vec::new();
    let mut i: usize = 0;
    while i < subject.len()
        invariant
            i <= subject.len(),
            name.len() == i,
            forall|j: int| 0 <= j < i ==> name[j] == file_char(subject[j]),
        decreases subject.len() - i,
    {
        let c = subject[i];
        name.push(
            if c == ':' || c == '<' || c == '>' || c == '/' || c == '\\' || c == '|' || c == '?'
                || c == '*' || c == '"' {
                '_'
            } else {
                c
            },
        );
        i += 1;
    }
    assert(name@ =~= subject@.map_values(|c: char| file_char(c)));
    to_text(&name)
}

fn build_document(subject: &str, html: &str) -> (r: String)
    ensures
        r@ == document(subject@, html@),
{
    let mut s = concat("<!DOCTYPE html>\n<html><head><meta charset=\"utf-8\">\n<title>", subject);
    s.append(
        "</title>\n<style>body { font-family: sans-serif; padding: 20px; }</style>\n</head><body>\n",
    );
    s.append(html);
    s.append("\n</body></html>");
    s
}

/// The view that one goes back to.
pub open spec fn previous(mode: Mode) -> Mode {
    match mode {
        Mode::AccountForm => Mode::Home,
        Mode::MailView => Mode::MailList,
        Mode::MailList => Mode::FolderList,
        Mode::FolderList => Mode::Home,
        Mode::Compose => Mode::MailList,
        Mode::Home => Mode::Home,
    }
}

/// The client with this message to write.
pub open spec fn writing(a: AppModel, c: ComposeModel) -> AppModel {
    switched(AppModel { compose: c, ..a }, Mode::Compose)
}

/// The server is asked to mark the message as deleted, if there is one.
pub open spec fn mark_deleted(a: AppModel, mail: Option<(Seq<char>, u32)>, now: u64) -> (
    AppModel,
    StepModel,
) {
    match mail {
        Some((folder, uid)) => asking(
            a,
            EffectModel::AddFlag(folder, uid, MailFlag::Deleted),
            WaitingModel::Deleted,
        ),
        None => ended(a, now),
    }
}

/// A message is deleted: it leaves the list, and the server is asked to mark it.
pub open spec fn deleting(a: AppModel, now: u64) -> (AppModel, StepModel) {
    match a.mode {
        Mode::MailList => mark_deleted(
            AppModel { mail_list: mail_list::without_chosen(a.mail_list), ..a },
            match mail_list::chosen_uid(a.mail_list) {
                Some(uid) => Some((a.mail_list.current_folder, uid)),
                None => None,
            },
            now,
        ),
        Mode::MailView => match a.mail_view.mail {
            Some(m) => mark_deleted(switched(a, Mode::MailList), Some((m.folder, m.uid)), now),
            None => round_ended(a),
        },
        _ => round_ended(a),
    }
}

/// The server is asked to put the star on a message, or to take it off.
pub open spec fn star(a: AppModel, folder: Seq<char>, uid: u32, on: bool) -> (AppModel, StepModel) {
    asking(
        a,
        if on {
            EffectModel::AddFlag(folder, uid, MailFlag::Flagged)
        } else {
            EffectModel::RemoveFlag(folder, uid, MailFlag::Flagged)
        },
        WaitingModel::End,
    )
}

/// The star of a message is put on or taken off.
pub open spec fn toggling(a: AppModel, now: u64) -> (AppModel, StepModel) {
    match a.mode {
        Mode::MailList => match mail_list::chosen(a.mail_list) {
            Some(i) => {
                let m = a.mail_list.mails[i];
                star(
                    AppModel { mail_list: mail_list::star_toggled(a.mail_list), ..a },
                    a.mail_list.current_folder,
                    m.uid,
                    !m.flags.contains(MailFlag::Flagged),
                )
            },
            None => ended(a, now),
        },
        Mode::MailView => match a.mail_view.mail {
            Some(m) => star(a, m.folder, m.uid, !m.flags.contains(MailFlag::Flagged)),
            None => ended(a, now),
        },
        _ => ended(a, now),
    }
}

/// A connection is begun to the account that is chosen.
pub open spec fn connecting_to(a: AppModel, selected: Option<usize>) -> (AppModel, StepModel) {
    match selected_account(a, selected) {
        Some(account) => asking(
            AppModel { connecting: true, active_account_id: Some(account.id), ..a },
            EffectModel::Connect(account.config),
            WaitingModel::Connecting,
        ),
        None => round_ended(
            sent(
                AppModel { connecting: false, ..a },
                Action::ConnectionFailed("请先添加一个账户"@),
            ),
        ),
    }
}

/// The clock ticks: keys that lead nowhere are forgotten, and a server that is connected is asked
/// whether it is there.
pub open spec fn ticking(a: AppModel) -> (AppModel, StepModel) {
    let b = AppModel { last_tick_key_events: seq![], ..a };
    if b.mail_client.session {
        asking(b, EffectModel::Noop, WaitingModel::QuietEnd)
    } else {
        ended_quietly(b)
    }
}

/// The account that was entered is stored; without one, one goes back to the accounts.
pub open spec fn storing(a: AppModel, now: u64) -> (AppModel, StepModel) {
    match account_form::form_data(a.account_form) {
        Some(d) => asking(
            a,
            EffectModel::StoreAccount(entered_account(d)),
            WaitingModel::Accounts,
        ),
        None => ended(switched(a, Mode::Home), now),
    }
}

/// The account that is chosen is removed.
pub open spec fn removing(a: AppModel, selected: Option<usize>, now: u64) -> (AppModel, StepModel) {
    match selected_account(a, selected) {
        Some(account) => asking(
            a,
            EffectModel::RemoveAccount(account.id),
            WaitingModel::Removal(selected->Some_0),
        ),
        None => ended(a, now),
    }
}

/// What answers a message.
pub open spec fn answer(action: ActionModel, m: EmailModel) -> ComposeModel {
    match action {
        Action::Reply => compose::replying(compose::empty_compose(), m.from, m.subject),
        Action::ReplyAll => compose::replying_all(
            compose::empty_compose(),
            m.from,
            m.to,
            m.subject,
        ),
        _ => compose::forwarding(compose::empty_compose(), m.subject),
    }
}

/// The message that is shown is answered.
pub open spec fn answering(a: AppModel, action: ActionModel, now: u64) -> (AppModel, StepModel) {
    match a.mail_view.mail {
        Some(m) => ended(writing(a, answer(action, m)), now),
        None => ended(a, now),
    }
}

/// The message that is written is sent by the account in use.
pub open spec fn sending(a: AppModel, now: u64) -> (AppModel, StepModel) {
    match active_account(a) {
        Some(account) => asking(
            a,
            EffectModel::SendMail(
                account.config,
                compose::outgoing(a.compose, account.config.username),
            ),
            WaitingModel::Sending,
        ),
        None => ended(sent(a, Action::Error("未连接账户，无法发送"@)), now),
    }
}

/// A folder is shown, and its last messages are fetched.
pub open spec fn opening(a: AppModel, name: Seq<char>) -> (AppModel, StepModel) {
    asking(
        switched(
            AppModel { mail_list: MailList { current_folder: name, ..a.mail_list }, ..a },
            Mode::MailList,
        ),
        EffectModel::FetchLatest(name, LATEST),
        WaitingModel::Mails(name),
    )
}

/// The message that is chosen is fetched.
pub open spec fn viewing(a: AppModel, now: u64) -> (AppModel, StepModel) {
    match mail_list::chosen_uid(a.mail_list) {
        Some(uid) => asking(
            switched(a, Mode::MailView),
            EffectModel::FetchMessage(a.mail_list.current_folder, uid),
            WaitingModel::Message(a.mail_list.current_folder, uid),
        ),
        None => ended(a, now),
    }
}

/// The HTML of the message that is shown is saved.
pub open spec fn saving(a: AppModel, now: u64) -> (AppModel, StepModel) {
    match a.mail_view.mail {
        Some(m) => match m.body_html {
            Some(html) => asking(
                a,
                EffectModel::SaveFile(file_name(m) + ".html"@, document(m.subject, html)),
                WaitingModel::Saved,
            ),
            None => ended(a, now),
        },
        None => ended(a, now),
    }
}

/// An action is begun, while the account at this place is chosen.
pub open spec fn begun(
    app: AppModel,
    action: ActionModel,
    selected: Option<usize>,
    now: u64,
) -> (AppModel, StepModel) {
    let a = AppModel { current: action, ..app };
    match action {
        Action::Tick => ticking(a),
        Action::Quit => ended(AppModel { should_quit: true, ..a }, now),
        Action::Suspend => ended(AppModel { should_suspend: true, ..a }, now),
        Action::Resume => ended(AppModel { should_suspend: false, ..a }, now),
        Action::ClearScreen => asking(a, EffectModel::ClearScreen, WaitingModel::End),
        Action::Render => asking(a, EffectModel::Draw, WaitingModel::QuietEnd),
        Action::AddAccount => ended(switched(a, Mode::AccountForm), now),
        Action::SaveAccount => storing(a, now),
        Action::DeleteAccount => removing(a, selected, now),
        Action::Compose => ended(writing(a, compose::empty_compose()), now),
        Action::Reply => answering(a, action, now),
        Action::ReplyAll => answering(a, action, now),
        Action::Forward => answering(a, action, now),
        Action::Send => sending(a, now),
        Action::CancelCompose => ended(switched(a, Mode::MailList), now),
        Action::Connect => if a.connecting {
            ended(a, now)
        } else {
            connecting_to(a, selected)
        },
        Action::Connected => asking(a, EffectModel::ListFolders, WaitingModel::Folders),
        Action::Disconnect => asking(a, EffectModel::Disconnect, WaitingModel::Home),
        Action::SelectFolder(name) => opening(a, name),
        Action::RefreshFolders => asking(a, EffectModel::ListFolders, WaitingModel::Refresh),
        Action::ViewMail => viewing(a, now),
        Action::DeleteMail => deleting(a, now),
        Action::ToggleFlag => toggling(a, now),
        Action::SaveHtml => saving(a, now),
        Action::Back => ended(switched(a, previous(a.mode)), now),
        _ => ended(a, now),
    }
}

spec fn of_system(action: ActionModel) -> bool {
    ||| action is Tick
    ||| action is Quit
    ||| action is Suspend
    ||| action is Resume
    ||| action is ClearScreen
    ||| action is Render
    ||| action is Back
}

spec fn of_account(action: ActionModel) -> bool {
    ||| action is AddAccount
    ||| action is SaveAccount
    ||| action is DeleteAccount
    ||| action is Connect
    ||| action is Connected
    ||| action is Disconnect
    ||| action is RefreshFolders
}

spec fn of_writing(action: ActionModel) -> bool {
    ||| action is Compose
    ||| action is Reply
    ||| action is ReplyAll
    ||| action is Forward
    ||| action is Send
    ||| action is CancelCompose
}

impl App {
    fn find_account(&self, id: i64) -> (r: Option<usize>)
        ensures
            match r {
                Some(i) => i < self.accounts.len() && account_from(self@.accounts, id, 0) == Some(
                    self@.accounts[i as int],
                ),
                None => account_from(self@.accounts, id, 0) is None,
            },
    {
        let ghost all = self@.accounts;
        let mut i: usize = 0;
        while i < self.accounts.len()
            invariant
                i <= self.accounts.len(),
                all == text::views(self.accounts@),
                account_from(all, id, 0) == account_from(all, id, i as int),
            decreases self.accounts.len() - i,
        {
            assert(all[i as int] == self.accounts[i as int]@);
            if self.accounts[i].id == id {
                return Some(i);
            }
            i += 1;
        }
        None
    }

    fn begin_delete(&mut self, now: u64) -> (r: Step)
        ensures
            (final(self)@, r@) == deleting(old(self)@, now),
            final(self)@.account_form == old(self)@.account_form,
            final(self)@.compose == old(self)@.compose,
    {
        let mail: Option<(String, u32)> = match self.mode {
            Mode::MailList => match self.mail_list.remove_selected() {
                Some(uid) => Some((self.mail_list.current_folder.clone(), uid)),
                None => None,
            },
            Mode::MailView => {
                let found: Option<(String, u32)> = match &self.mail_view.mail {
                    Some(m) => Some((m.folder.clone(), m.uid)),
                    None => None,
                };
                if found.is_none() {
                    return self.end_round();
                }
                self.switch_mode(Mode::MailList);
                found
            },
            _ => {
                return self.end_round();
            },
        };
        match mail {
            Some((folder, uid)) => self.ask(
                Effect::AddFlag(folder, uid, MailFlag::Deleted),
                Waiting::Deleted,
            ),
            None => self.end(now),
        }
    }

    fn ask_star(&mut self, folder: String, uid: u32, on: bool) -> (r: Step)
        ensures
            (final(self)@, r@) == star(old(self)@, folder@, uid, on),
    {
        if on {
            self.ask(Effect::AddFlag(folder, uid, MailFlag::Flagged), Waiting::End)
        } else {
            self.ask(Effect::RemoveFlag(folder, uid, MailFlag::Flagged), Waiting::End)
        }
    }

    fn begin_toggle(&mut self, now: u64) -> (r: Step)
        ensures
            (final(self)@, r@) == toggling(old(self)@, now),
            final(self)@.account_form == old(self)@.account_form,
            final(self)@.compose == old(self)@.compose,
    {
        match self.mode {
            Mode::MailList => match self.mail_list.toggle_flag() {
                Some((uid, flagged)) => {
                    let folder = self.mail_list.current_folder.clone();
                    self.ask_star(folder, uid, flagged)
                },
                None => self.end(now),
            },
            Mode::MailView => {
                let found: Option<(String, u32, bool)> = match &self.mail_view.mail {
                    Some(m) => Some(
                        (m.folder.clone(), m.uid, has_flag(&m.flags, &MailFlag::Flagged)),
                    ),
                    None => None,
                };
                match found {
                    Some((folder, uid, flagged)) => self.ask_star(folder, uid, !flagged),
                    None => self.end(now),
                }
            },
            _ => self.end(now),
        }
    }

    fn begin_connect(&mut self, selected: Option<usize>) -> (r: Step)
        ensures
            (final(self)@, r@) == connecting_to(old(self)@, selected),
            final(self)@.account_form == old(self)@.account_form,
            final(self)@.compose == old(self)@.compose,
    {
        if let Some(i) = selected {
            if i < self.accounts.len() {
                assert(self@.accounts[i as int] == self.accounts[i as int]@);
                let id: i64 = self.accounts[i].id;
                let config = self.accounts[i].config.duplicate();
                self.connecting = true;
                self.active_account_id = Some(id);
                return self.ask(Effect::Connect(config), Waiting::Connecting);
            }
        }
        self.connecting = false;
        self.send(Action::ConnectionFailed("请先添加一个账户".to_owned()));
        self.end_round()
    }

    fn begin_tick(&mut self) -> (r: Step)
        ensures
            (final(self)@, r@) == ticking(old(self)@),
            final(self)@.account_form == old(self)@.account_form,
            final(self)@.compose == old(self)@.compose,
    {
        self.last_tick_key_events = Vec::new();
        assert(self.last_tick_key_events@ =~= seq![]);
        if self.mail_client.is_connected() {
            self.ask(Effect::Noop, Waiting::QuietEnd)
        } else {
            self.end_quietly()
        }
    }

    fn begin_store(&mut self, now: u64) -> (r: Step)
        requires
            app_wf(old(self)@),
        ensures
            (final(self)@, r@) == storing(old(self)@, now),
            app_wf(final(self)@),
    {
        match self.account_form.get_data() {
            Some(d) => self.ask(Effect::StoreAccount(build_account(d)), Waiting::Accounts),
            None => {
                self.switch_mode(Mode::Home);
                self.end(now)
            },
        }
    }

    fn begin_remove(&mut self, selected: Option<usize>, now: u64) -> (r: Step)
        ensures
            (final(self)@, r@) == removing(old(self)@, selected, now),
            final(self)@.account_form == old(self)@.account_form,
            final(self)@.compose == old(self)@.compose,
    {
        if let Some(i) = selected {
            if i < self.accounts.len() {
                assert(self@.accounts[i as int] == self.accounts[i as int]@);
                let id: i64 = self.accounts[i].id;
                return self.ask(Effect::RemoveAccount(id), Waiting::Removal(i));
            }
        }
        self.end(now)
    }

    fn begin_write(&mut self, c: Compose, now: u64) -> (r: Step)
        requires
            app_wf(old(self)@),
            compose::compose_wf(c@),
        ensures
            (final(self)@, r@) == ended(writing(old(self)@, c@), now),
            app_wf(final(self)@),
    {
        self.compose = c;
        self.switch_mode(Mode::Compose);
        self.end(now)
    }

    fn begin_answer(&mut self, action: &Action, now: u64) -> (r: Step)
        requires
            app_wf(old(self)@),
        ensures
            (final(self)@, r@) == answering(old(self)@, action@, now),
            app_wf(final(self)@),
    {
        let mut c = Compose::new();
        match &self.mail_view.mail {
            None => {
                return self.end(now);
            },
            Some(m) => match action {
                Action::Reply => {
                    c.set_reply(m.from.as_str(), m.subject.as_str());
                },
                Action::ReplyAll => {
                    c.set_reply_all(m.from.as_str(), &m.to, m.subject.as_str());
                },
                _ => {
                    c.set_forward(m.subject.as_str());
                },
            },
        }
        self.begin_write(c, now)
    }

    fn begin_send(&mut self, now: u64) -> (r: Step)
        requires
            app_wf(old(self)@),
        ensures
            (final(self)@, r@) == sending(old(self)@, now),
            app_wf(final(self)@),
    {
        if let Some(id) = self.active_account_id {
            if let Some(i) = self.find_account(id) {
                assert(self@.accounts[i as int] == self.accounts[i as int]@);
                let config = self.accounts[i].config.duplicate();
                let mail = self.compose.build_outgoing(config.username.as_str());
                return self.ask(Effect::SendMail(config, mail), Waiting::Sending);
            }
        }
        self.send(Action::Error("未连接账户，无法发送".to_owned()));
        self.end(now)
    }

    fn begin_open(&mut self, name: &String) -> (r: Step)
        ensures
            (final(self)@, r@) == opening(old(self)@, name@),
            final(self)@.account_form == old(self)@.account_form,
            final(self)@.compose == old(self)@.compose,
    {
        self.mail_list.current_folder = name.clone();
        self.switch_mode(Mode::MailList);
        self.ask(Effect::FetchLatest(name.clone(), LATEST), Waiting::Mails(name.clone()))
    }

    fn begin_view(&mut self, now: u64) -> (r: Step)
        ensures
            (final(self)@, r@) == viewing(old(self)@, now),
            final(self)@.account_form == old(self)@.account_form,
            final(self)@.compose == old(self)@.compose,
    {
        match self.mail_list.selected_uid() {
            Some(uid) => {
                self.switch_mode(Mode::MailView);
                let folder = self.mail_list.current_folder.clone();
                self.ask(Effect::FetchMessage(folder.clone(), uid), Waiting::Message(folder, uid))
            },
            None => self.end(now),
        }
    }

    fn begin_save(&mut self, now: u64) -> (r: Step)
        ensures
            (final(self)@, r@) == saving(old(self)@, now),
            final(self)@.account_form == old(self)@.account_form,
            final(self)@.compose == old(self)@.compose,
    {
        let file: Option<(String, String)> = match &self.mail_view.mail {
            Some(m) => match &m.body_html {
                Some(html) => Some(
                    (
                        concat(build_file_name(m).as_str(), ".html"),
                        build_document(m.subject.as_str(), html.as_str()),
                    ),
                ),
                None => None,
            },
            None => None,
        };
        match file {
            Some((name, html)) => self.ask(Effect::SaveFile(name, html), Waiting::Saved),
            None => self.end(now),
        }
    }

    pub(crate) fn begin_switch(&mut self, mode: Mode, now: u64) -> (r: Step)
        ensures
            (final(self)@, r@) == ended(switched(old(self)@, mode), now),
            final(self)@.account_form == old(self)@.account_form,
            final(self)@.compose == old(self)@.compose,
    {
        self.switch_mode(mode);
        self.end(now)
    }

    fn go_back(&mut self, now: u64) -> (r: Step)
        ensures
            (final(self)@, r@) == ended(switched(old(self)@, previous(old(self)@.mode)), now),
            final(self)@.account_form == old(self)@.account_form,
            final(self)@.compose == old(self)@.compose,
    {
        let mode = match self.mode {
            Mode::AccountForm => Mode::Home,
            Mode::MailView => Mode::MailList,
            Mode::MailList => Mode::FolderList,
            Mode::FolderList => Mode::Home,
            Mode::Compose => Mode::MailList,
            Mode::Home => Mode::Home,
        };
        self.begin_switch(mode, now)
    }

    fn begin_system(&mut self, action: &Action, selected: Option<usize>, now: u64) -> (r: Step)
        requires
            app_wf(old(self)@),
            old(self)@.current == action@,
            of_system(action@),
        ensures
            (final(self)@, r@) == begun(old(self)@, action@, selected, now),
            app_wf(final(self)@),
    {
        match action {
            Action::Tick => self.begin_tick(),
            Action::Quit => {
                self.should_quit = true;
                self.end(now)
            },
            Action::Suspend => {
                self.should_suspend = true;
                self.end(now)
            },
            Action::Resume => {
                self.should_suspend = false;
                self.end(now)
            },
            Action::ClearScreen => self.ask(Effect::ClearScreen, Waiting::End),
            Action::Render => self.ask(Effect::Draw, Waiting::QuietEnd),
            Action::Back => self.go_back(now),
            _ => self.end(now),
        }
    }

    fn begin_account(&mut self, action: &Action, selected: Option<usize>, now: u64) -> (r: Step)
        requires
            app_wf(old(self)@),
            old(self)@.current == action@,
            of_account(action@),
        ensures
            (final(self)@, r@) == begun(old(self)@, action@, selected, now),
            app_wf(final(self)@),
    {
        match action {
            Action::AddAccount => self.begin_switch(Mode::AccountForm, now),
            Action::SaveAccount => self.begin_store(now),
            Action::DeleteAccount => self.begin_remove(selected, now),
            Action::Connect => if self.connecting {
                self.end(now)
            } else {
                self.begin_connect(selected)
            },
            Action::Connected => self.ask(Effect::ListFolders, Waiting::Folders),
            Action::Disconnect => self.ask(Effect::Disconnect, Waiting::Home),
            Action::RefreshFolders => self.ask(Effect::ListFolders, Waiting::Refresh),
            _ => self.end(now),
        }
    }

    fn begin_compose(&mut self, action: &Action, selected: Option<usize>, now: u64) -> (r: Step)
        requires
            app_wf(old(self)@),
            old(self)@.current == action@,
            of_writing(action@),
        ensures
            (final(self)@, r@) == begun(old(self)@, action@, selected, now),
            app_wf(final(self)@),
    {
        match action {
            Action::Compose => self.begin_write(Compose::new(), now),
            Action::Reply => self.begin_answer(action, now),
            Action::ReplyAll => self.begin_answer(action, now),
            Action::Forward => self.begin_answer(action, now),
            Action::Send => self.begin_send(now),
            Action::CancelCompose => self.begin_switch(Mode::MailList, now),
            _ => self.end(now),
        }
    }

    /// Begins an action, while the account at this place is chosen.
    pub fn begin(&mut self, action: Action, selected: Option<usize>, now: u64) -> (r: Step)
        requires
            app_wf(old(self)@),
            old(self)@.waiting is Nothing,
        ensures
            (final(self)@, r@) == begun(old(self)@, action@, selected, now),
            app_wf(final(self)@),
    {
        self.current = action.duplicate();
        match &action {
            Action::Tick
            | Action::Quit
            | Action::Suspend
            | Action::Resume
            | Action::ClearScreen
            | Action::Render
            | Action::Back => self.begin_system(&action, selected, now),
            Action::AddAccount
            | Action::SaveAccount
            | Action::DeleteAccount
            | Action::Connect
            | Action::Connected
            | Action::Disconnect
            | Action::RefreshFolders => self.begin_account(&action, selected, now),
            Action::Compose
            | Action::Reply
            | Action::ReplyAll
            | Action::Forward
            | Action::Send
            | Action::CancelCompose => self.begin_compose(&action, selected, now),
            Action::SelectFolder(name) => self.begin_open(name),
            Action::ViewMail => self.begin_view(now),
            Action::DeleteMail => self.begin_delete(now),
            Action::ToggleFlag => self.begin_toggle(now),
            Action::SaveHtml => self.begin_save(now),
            _ => self.end(now),
        }
    }
}

/// From every view one comes back to the accounts, in at most three steps.
pub proof fn back_leads_home(mode: Mode)
    ensures
        previous(previous(previous(mode))) == Mode::Home,
{
}

/// A message that is deleted from the list is the one that was chosen: it leaves the list, and
/// no other does, and it is the one that the server is asked to mark.
pub proof fn deleted_message_leaves(a: AppModel, i: int, now: u64)
    requires
        a.mode == Mode::MailList,
        mail_list::chosen(a.mail_list) == Some(i),
    ensures
        ({
            let (b, step) = deleting(a, now);
            &&& b.mail_list.mails == a.mail_list.mails.remove(i)
            &&& step == StepModel::Ask(
                EffectModel::AddFlag(
                    a.mail_list.current_folder,
                    a.mail_list.mails[i].uid,
                    MailFlag::Deleted,
                ),
            )
        }),
{
}

/// The star that the list shows is the one that the server is asked for.
pub proof fn star_shown_is_asked(a: AppModel, i: int, now: u64)
    requires
        a.mode == Mode::MailList,
        mail_list::chosen(a.mail_list) == Some(i),
    ensures
        ({
            let (b, step) = toggling(a, now);
            let uid = a.mail_list.mails[i].uid;
            let folder = a.mail_list.current_folder;
            step == StepModel::Ask(
                if b.mail_list.mails[i].flags.contains(MailFlag::Flagged) {
                    EffectModel::AddFlag(folder, uid, MailFlag::Flagged)
                } else {
                    EffectModel::RemoveFlag(folder, uid, MailFlag::Flagged)
                },
            )
        }),
{
    flags::toggle_changes_one(a.mail_list.mails[i].flags, MailFlag::Flagged, MailFlag::Flagged);
}

/// The name of a file has none of the characters that may not stand in one.
pub proof fn file_name_allowed(m: EmailModel, i: int)
    requires
        0 <= i < file_name(m).len(),
    ensures
        file_char(file_name(m)[i]) == file_name(m)[i],
{
    reveal_strlit("email_");
    number::decimal_digits(m.uid as nat);
    let digits = number::decimal(m.uid as nat);
    if text::trimmed(m.subject).len() == 0 && i >= 6 {
        assert(file_name(m)[i] == digits[i - 6]);
    }
}

/// Keys that lead nowhere are forgotten when the clock ticks.
pub proof fn tick_forgets_keys(a: AppModel, selected: Option<usize>, now: u64)
    ensures
        begun(a, Action::Tick, selected, now).0.last_tick_key_events.len() == 0,
{
}

} // verus!
