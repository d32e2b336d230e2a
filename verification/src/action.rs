//! What the client can be told to do, and the views it has.

use vstd::prelude::*;

use crate::types::Duplicate;

verus! {

/// The view that the client shows.
#[derive(Clone, Copy, Debug, PartialEq, Eq, Hash, Structural)]
pub enum Mode {
    /// The accounts.
    Home,
    /// The form for an account.
    AccountForm,
    /// The folders.
    FolderList,
    /// The messages of a folder.
    MailList,
    /// A message.
    MailView,
    /// A message that is being written.
    Compose,
}

impl Default for Mode {
    fn default() -> (r: Self)
        ensures
            r == Mode::Home,
    {
        Mode::Home
    }
}

/// What the client is told to do; `T` is text.
#[derive(Clone, Debug, PartialEq, Eq)]
pub enum Action<T = String> {
    Tick,
    Render,
    Resize(u16, u16),
    Suspend,
    Resume,
    Quit,
    ClearScreen,
    Error(T),
    AddAccount,
    SaveAccount,
    DeleteAccount,
    Compose,
    Reply,
    ReplyAll,
    Forward,
    Send,
    CancelCompose,
    AddAttachment(T),
    RemoveAttachment(usize),
    Connect,
    Connected,
    ConnectionFailed(T),
    Disconnect,
    SelectFolder(T),
    RefreshFolders,
    LoadMails,
    LoadMoreMails,
    ViewMail,
    DeleteMail,
    NextMail,
    PrevMail,
    ToggleFlag,
    ToggleRead,
    DownloadAttachment(usize),
    SaveHtml,
    Back,
}

/// The model of an action.
pub type ActionModel = Action<Seq<char>>;

impl View for Action<String> {
    type V = ActionModel;

    open spec fn view(&self) -> ActionModel {
        match *self {
            Action::Tick => Action::Tick,
            Action::Render => Action::Render,
            Action::Resize(w, h) => Action::Resize(w, h),
            Action::Suspend => Action::Suspend,
            Action::Resume => Action::Resume,
            Action::Quit => Action::Quit,
            Action::ClearScreen => Action::ClearScreen,
            Action::Error(m) => Action::Error(m@),
            Action::AddAccount => Action::AddAccount,
            Action::SaveAccount => Action::SaveAccount,
            Action::DeleteAccount => Action::DeleteAccount,
            Action::Compose => Action::Compose,
            Action::Reply => Action::Reply,
            Action::ReplyAll => Action::ReplyAll,
            Action::Forward => Action::Forward,
            Action::Send => Action::Send,
            Action::CancelCompose => Action::CancelCompose,
            Action::AddAttachment(p) => Action::AddAttachment(p@),
            Action::RemoveAttachment(i) => Action::RemoveAttachment(i),
            Action::Connect => Action::Connect,
            Action::Connected => Action::Connected,
            Action::ConnectionFailed(m) => Action::ConnectionFailed(m@),
            Action::Disconnect => Action::Disconnect,
            Action::SelectFolder(n) => Action::SelectFolder(n@),
            Action::RefreshFolders => Action::RefreshFolders,
            Action::LoadMails => Action::LoadMails,
            Action::LoadMoreMails => Action::LoadMoreMails,
            Action::ViewMail => Action::ViewMail,
            Action::DeleteMail => Action::DeleteMail,
            Action::NextMail => Action::NextMail,
            Action::PrevMail => Action::PrevMail,
            Action::ToggleFlag => Action::ToggleFlag,
            Action::ToggleRead => Action::ToggleRead,
            Action::DownloadAttachment(i) => Action::DownloadAttachment(i),
            Action::SaveHtml => Action::SaveHtml,
            Action::Back => Action::Back,
        }
    }
}

impl Duplicate for Action<String> {
    fn duplicate(&self) -> (r: Self) {
        match self {
            Action::Tick => Action::Tick,
            Action::Render => Action::Render,
            Action::Resize(w, h) => Action::Resize(*w, *h),
            Action::Suspend => Action::Suspend,
            Action::Resume => Action::Resume,
            Action::Quit => Action::Quit,
            Action::ClearScreen => Action::ClearScreen,
            Action::Error(m) => Action::Error(m.clone()),
            Action::AddAccount => Action::AddAccount,
            Action::SaveAccount => Action::SaveAccount,
            Action::DeleteAccount => Action::DeleteAccount,
            Action::Compose => Action::Compose,
            Action::Reply => Action::Reply,
            Action::ReplyAll => Action::ReplyAll,
            Action::Forward => Action::Forward,
            Action::Send => Action::Send,
            Action::CancelCompose => Action::CancelCompose,
            Action::AddAttachment(p) => Action::AddAttachment(p.clone()),
            Action::RemoveAttachment(i) => Action::RemoveAttachment(*i),
            Action::Connect => Action::Connect,
            Action::Connected => Action::Connected,
            Action::ConnectionFailed(m) => Action::ConnectionFailed(m.clone()),
            Action::Disconnect => Action::Disconnect,
            Action::SelectFolder(n) => Action::SelectFolder(n.clone()),
            Action::RefreshFolders => Action::RefreshFolders,
            Action::LoadMails => Action::LoadMails,
            Action::LoadMoreMails => Action::LoadMoreMails,
            Action::ViewMail => Action::ViewMail,
            Action::DeleteMail => Action::DeleteMail,
            Action::NextMail => Action::NextMail,
            Action::PrevMail => Action::PrevMail,
            Action::ToggleFlag => Action::ToggleFlag,
            Action::ToggleRead => Action::ToggleRead,
            Action::DownloadAttachment(i) => Action::DownloadAttachment(*i),
            Action::SaveHtml => Action::SaveHtml,
            Action::Back => Action::Back,
        }
    }
}

} // verus!
