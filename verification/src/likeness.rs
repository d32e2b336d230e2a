//! The values that the library works on, as they are seen in its contracts: every field of a value
//! stands in its own place, and every kind of value is told apart from the others.

use vstd::prelude::*;

use crate::account_form::{AccountForm, AccountFormData, FormField, ProviderInfo};
use crate::action::{Action, ActionModel};
use crate::app::{
    App, Effect, EffectModel, Reply, ReplyModel, Step, StepModel, Waiting, WaitingModel,
};
use crate::client;
use crate::client::{
    Command, CommandModel, Connecting, Fetched, First, MailClient, Next, NextModel, Outcome,
    OutcomeModel, Request, RequestModel, Streamed,
};
use crate::codec;
use crate::compose::{Compose, ComposeField};
use crate::folder_list::FolderList;
use crate::imap::{ListedFolder, NameAttribute};
use crate::mail_list::MailList;
use crate::mail_view::MailView;
use crate::mime;
use crate::mime::Part;
use crate::number;
use crate::number::NumberError;
use crate::replies;
use crate::status_bar::StatusBar;
use crate::store;
use crate::store::{AccountRow, AttachmentRow, EmailRow, FolderRow, StoreError, SummaryRow};
use crate::summary;
use crate::summary::{Address, Envelope, Listed, ServerFlag};
use crate::text;
use crate::types::{
    Account, AccountConfig, AttachmentData, AttachmentMeta, Email, EmailSummary, Folder,
    MailError, MailFlag, NewAccount, OutgoingEmail,
};
use crate::ui::{Block, Content, ContentModel, Drawn, DrawnModel, Item, Line, List, Paragraph, Span};
use crate::vault;
use crate::vault::VaultError;

verus! {

/// The values of a list are seen one by one, in their order.
pub proof fn lists_are_seen_in_order<X: View>(s: Seq<X>, i: int)
    ensures
        text::views(s).len() == s.len(),
        0 <= i < s.len() ==> text::views(s)[i] == s[i]@,
{
}

/// What may be missing is seen where it is there, and there only.
pub proof fn missing_values_are_seen_as_missing<X: View>(x: Option<X>)
    ensures
        x is None <==> text::opt_view(x) is None,
        x is Some ==> text::opt_view(x)->Some_0 == x->Some_0@,
{
}

/// A flag is told apart from every other in its model.
pub proof fn flags_are_seen_as_they_are(x: MailFlag<String>)
    ensures
        x is Seen ==> x@ == MailFlag::<Seq<char>>::Seen,
        x is Answered ==> x@ == MailFlag::<Seq<char>>::Answered,
        x is Flagged ==> x@ == MailFlag::<Seq<char>>::Flagged,
        x is Deleted ==> x@ == MailFlag::<Seq<char>>::Deleted,
        x is Draft ==> x@ == MailFlag::<Seq<char>>::Draft,
        x is Recent ==> x@ == MailFlag::<Seq<char>>::Recent,
        x matches MailFlag::Custom(s) ==> x@ == MailFlag::<Seq<char>>::Custom(s@),
{
}

/// An error keeps its kind and its text in its model.
pub proof fn errors_are_seen_as_they_are(x: MailError<String>)
    ensures
        x matches MailError::Connection(s) ==> x@ == MailError::<Seq<char>>::Connection(s@),
        x matches MailError::Tls(s) ==> x@ == MailError::<Seq<char>>::Tls(s@),
        x matches MailError::Protocol(s) ==> x@ == MailError::<Seq<char>>::Protocol(s@),
        x matches MailError::Authentication(s) ==> x@ == MailError::<Seq<char>>::Authentication(s@),
        x is NotConnected ==> x@ == MailError::<Seq<char>>::NotConnected,
        x matches MailError::MessageNotFound(s)
            ==> x@ == MailError::<Seq<char>>::MessageNotFound(s@),
        x matches MailError::Parse(s) ==> x@ == MailError::<Seq<char>>::Parse(s@),
        x matches MailError::FolderNotFound(s) ==> x@ == MailError::<Seq<char>>::FolderNotFound(s@),
{
}

/// The servers, ports, names and passwords of an account stand in their own places in its model.
pub proof fn settings_are_seen_as_they_are(x: AccountConfig<String>)
    ensures
        x@.imap_host == x.imap_host@,
        x@.imap_port == x.imap_port,
        x@.smtp_host == x.smtp_host@,
        x@.smtp_port == x.smtp_port,
        x@.username == x.username@,
        x@.password == x.password@,
        x@.security == x.security,
{
}

/// An account keeps its fields in its model.
pub proof fn accounts_are_seen_as_they_are(x: Account<String>)
    ensures
        x@.id == x.id,
        x@.email == x.email@,
        x@.display_name == text::opt_view(x.display_name),
        x@.config == x.config@,
{
}

/// A new account keeps its fields in its model.
pub proof fn new_accounts_are_seen_as_they_are(x: NewAccount<String>)
    ensures
        x@.email == x.email@,
        x@.display_name == text::opt_view(x.display_name),
        x@.config == x.config@,
{
}

/// A folder keeps its fields in its model.
pub proof fn folders_are_seen_as_they_are(x: Folder<String, Vec<String>>)
    ensures
        x@.name == x.name@,
        x@.delimiter == x.delimiter@,
        x@.attributes == text::views(x.attributes@),
{
}

/// A summary keeps its fields in its model.
pub proof fn summaries_are_seen_as_they_are(x: EmailSummary<String, Vec<MailFlag>>)
    ensures
        x@.uid == x.uid,
        x@.message_id == text::opt_view(x.message_id),
        x@.from == x.from@,
        x@.to == x.to@,
        x@.cc == text::opt_view(x.cc),
        x@.subject == x.subject@,
        x@.date == x.date@,
        x@.size == x.size,
        x@.flags == text::views(x.flags@),
        x@.has_attachments == x.has_attachments,
{
}

/// What is known of an attachment stands in its own places in its model.
pub proof fn attachments_are_seen_as_they_are(x: AttachmentMeta<String>)
    ensures
        x@.filename == x.filename@,
        x@.mime_type == x.mime_type@,
        x@.size == x.size,
        x@.content_id == text::opt_view(x.content_id),
        x@.part_id == x.part_id@,
        x@.transfer_encoding == text::opt_view(x.transfer_encoding),
{
}

/// A message keeps its fields in its model.
pub proof fn messages_are_seen_as_they_are(
    x: Email<String, Vec<String>, Vec<AttachmentMeta>, Vec<MailFlag>>,
)
    ensures
        x@.uid == x.uid,
        x@.folder == x.folder@,
        x@.message_id == text::opt_view(x.message_id),
        x@.from == x.from@,
        x@.to == text::views(x.to@),
        x@.cc == text::views(x.cc@),
        x@.bcc == text::views(x.bcc@),
        x@.reply_to == text::opt_view(x.reply_to),
        x@.date == x.date@,
        x@.subject == x.subject@,
        x@.body_text == text::opt_view(x.body_text),
        x@.body_html == text::opt_view(x.body_html),
        x@.attachments == text::views(x.attachments@),
        x@.in_reply_to == text::opt_view(x.in_reply_to),
        x@.references == text::views(x.references@),
        x@.flags == text::views(x.flags@),
{
}

/// A file that goes out keeps its name, type and bytes in its model.
pub proof fn files_are_seen_as_they_are(x: AttachmentData<String, Vec<u8>>)
    ensures
        x@.filename == x.filename@,
        x@.mime_type == x.mime_type@,
        x@.data == x.data@,
{
}

/// A message that goes out keeps each of its lists of people, and its other fields, in its model.
pub proof fn outgoing_messages_are_seen_as_they_are(
    x: OutgoingEmail<String, Vec<String>, Vec<AttachmentData>>,
)
    ensures
        x@.from == x.from@,
        x@.to == text::views(x.to@),
        x@.cc == text::views(x.cc@),
        x@.bcc == text::views(x.bcc@),
        x@.subject == x.subject@,
        x@.body_text == text::opt_view(x.body_text),
        x@.body_html == text::opt_view(x.body_html),
        x@.attachments == text::views(x.attachments@),
        x@.in_reply_to == text::opt_view(x.in_reply_to),
        x@.references == text::views(x.references@),
{
}

/// An action is told apart from every other in its model.
pub proof fn actions_are_seen_as_they_are(x: Action<String>)
    ensures
        x is Tick ==> x@ == ActionModel::Tick,
        x is Render ==> x@ == ActionModel::Render,
        x matches Action::Resize(w, h) ==> x@ == ActionModel::Resize(w, h),
        x is Suspend ==> x@ == ActionModel::Suspend,
        x is Resume ==> x@ == ActionModel::Resume,
        x is Quit ==> x@ == ActionModel::Quit,
        x is ClearScreen ==> x@ == ActionModel::ClearScreen,
        x matches Action::Error(m) ==> x@ == ActionModel::Error(m@),
        x is AddAccount ==> x@ == ActionModel::AddAccount,
        x is SaveAccount ==> x@ == ActionModel::SaveAccount,
        x is DeleteAccount ==> x@ == ActionModel::DeleteAccount,
        x is Compose ==> x@ == ActionModel::Compose,
        x is Reply ==> x@ == ActionModel::Reply,
        x is ReplyAll ==> x@ == ActionModel::ReplyAll,
        x is Forward ==> x@ == ActionModel::Forward,
        x is Send ==> x@ == ActionModel::Send,
        x is CancelCompose ==> x@ == ActionModel::CancelCompose,
        x matches Action::AddAttachment(p) ==> x@ == ActionModel::AddAttachment(p@),
        x matches Action::RemoveAttachment(i) ==> x@ == ActionModel::RemoveAttachment(i),
        x is Connect ==> x@ == ActionModel::Connect,
        x is Connected ==> x@ == ActionModel::Connected,
        x matches Action::ConnectionFailed(m) ==> x@ == ActionModel::ConnectionFailed(m@),
        x is Disconnect ==> x@ == ActionModel::Disconnect,
        x matches Action::SelectFolder(n) ==> x@ == ActionModel::SelectFolder(n@),
        x is RefreshFolders ==> x@ == ActionModel::RefreshFolders,
        x is LoadMails ==> x@ == ActionModel::LoadMails,
        x is LoadMoreMails ==> x@ == ActionModel::LoadMoreMails,
        x is ViewMail ==> x@ == ActionModel::ViewMail,
        x is DeleteMail ==> x@ == ActionModel::DeleteMail,
        x is NextMail ==> x@ == ActionModel::NextMail,
        x is PrevMail ==> x@ == ActionModel::PrevMail,
        x is ToggleFlag ==> x@ == ActionModel::ToggleFlag,
        x is ToggleRead ==> x@ == ActionModel::ToggleRead,
        x matches Action::DownloadAttachment(i) ==> x@ == ActionModel::DownloadAttachment(i),
        x is SaveHtml ==> x@ == ActionModel::SaveHtml,
        x is Back ==> x@ == ActionModel::Back,
{
}

/// What the client asks to be done stands for itself in its model.
pub proof fn effects_are_seen_as_they_are(x: Effect)
    ensures
        x is Noop ==> x@ == EffectModel::Noop,
        x is ClearScreen ==> x@ == EffectModel::ClearScreen,
        x is Draw ==> x@ == EffectModel::Draw,
        x matches Effect::StoreAccount(a) ==> x@ == EffectModel::StoreAccount(a@),
        x matches Effect::RemoveAccount(id) ==> x@ == EffectModel::RemoveAccount(id),
        x is ShowAccounts ==> x@ == EffectModel::ShowAccounts,
        x matches Effect::SendMail(c, m) ==> x@ == EffectModel::SendMail(c@, m@),
        x matches Effect::Connect(c) ==> x@ == EffectModel::Connect(c@),
        x is Disconnect ==> x@ == EffectModel::Disconnect,
        x is ListFolders ==> x@ == EffectModel::ListFolders,
        x matches Effect::CacheFolders(id, f)
            ==> x@ == EffectModel::CacheFolders(id, text::views(f@)),
        x matches Effect::RecallFolders(id) ==> x@ == EffectModel::RecallFolders(id),
        x matches Effect::FetchLatest(f, n) ==> x@ == EffectModel::FetchLatest(f@, n),
        x matches Effect::CacheMails(id, f, m)
            ==> x@ == EffectModel::CacheMails(id, f@, text::views(m@)),
        x matches Effect::RecallMails(id, f, n) ==> x@ == EffectModel::RecallMails(id, f@, n),
        x matches Effect::FetchMessage(f, u) ==> x@ == EffectModel::FetchMessage(f@, u),
        x matches Effect::CacheMessage(id, m) ==> x@ == EffectModel::CacheMessage(id, m@),
        x matches Effect::RecallMessage(id, f, u) ==> x@ == EffectModel::RecallMessage(id, f@, u),
        x matches Effect::AddFlag(f, u, l) ==> x@ == EffectModel::AddFlag(f@, u, l@),
        x matches Effect::RemoveFlag(f, u, l) ==> x@ == EffectModel::RemoveFlag(f@, u, l@),
        x matches Effect::SaveFile(n, s) ==> x@ == EffectModel::SaveFile(n@, s@),
{
}

/// What the client waits for stands for itself in its model.
pub proof fn waits_are_seen_as_they_are(x: Waiting)
    ensures
        x is Nothing ==> x@ == WaitingModel::Nothing,
        x is End ==> x@ == WaitingModel::End,
        x is QuietEnd ==> x@ == WaitingModel::QuietEnd,
        x is Home ==> x@ == WaitingModel::Home,
        x is Accounts ==> x@ == WaitingModel::Accounts,
        x matches Waiting::Removal(i) ==> x@ == WaitingModel::Removal(i),
        x is Sending ==> x@ == WaitingModel::Sending,
        x is Connecting ==> x@ == WaitingModel::Connecting,
        x is Folders ==> x@ == WaitingModel::Folders,
        x matches Waiting::FoldersCached(f) ==> x@ == WaitingModel::FoldersCached(text::views(f@)),
        x matches Waiting::FoldersRecalled(e) ==> x@ == WaitingModel::FoldersRecalled(e@),
        x is Refresh ==> x@ == WaitingModel::Refresh,
        x matches Waiting::Mails(n) ==> x@ == WaitingModel::Mails(n@),
        x matches Waiting::MailsCached(m) ==> x@ == WaitingModel::MailsCached(text::views(m@)),
        x matches Waiting::MailsRecalled(n, e) ==> x@ == WaitingModel::MailsRecalled(n@, e@),
        x matches Waiting::Message(f, u) ==> x@ == WaitingModel::Message(f@, u),
        x matches Waiting::Marked(m) ==> x@ == WaitingModel::Marked(m@),
        x matches Waiting::MessageCached(m) ==> x@ == WaitingModel::MessageCached(m@),
        x matches Waiting::MessageRecalled(f, u, e)
            ==> x@ == WaitingModel::MessageRecalled(f@, u, e@),
        x is Deleted ==> x@ == WaitingModel::Deleted,
        x is Saved ==> x@ == WaitingModel::Saved,
{
}

/// What comes back to the client stands for itself in its model.
pub proof fn replies_are_seen_as_they_are(x: Reply)
    ensures
        x is Done ==> x@ == ReplyModel::Done,
        x matches Reply::Accounts(v) ==> x@ == ReplyModel::Accounts(text::views(v@)),
        x matches Reply::Outcome(Ok(_)) ==> x@ == ReplyModel::Outcome(Ok(())),
        x matches Reply::Outcome(Err(e)) ==> x@ == ReplyModel::Outcome(Err(e@)),
        x matches Reply::Folders(Ok(v)) ==> x@ == ReplyModel::Folders(Ok(text::views(v@))),
        x matches Reply::Folders(Err(e)) ==> x@ == ReplyModel::Folders(Err(e@)),
        x matches Reply::StoredFolders(v) ==> x@ == ReplyModel::StoredFolders(text::views(v@)),
        x matches Reply::Mails(Ok(v)) ==> x@ == ReplyModel::Mails(Ok(text::views(v@))),
        x matches Reply::Mails(Err(e)) ==> x@ == ReplyModel::Mails(Err(e@)),
        x matches Reply::StoredMails(v) ==> x@ == ReplyModel::StoredMails(text::views(v@)),
        x matches Reply::Message(Ok(m)) ==> x@ == ReplyModel::Message(Ok(m@)),
        x matches Reply::Message(Err(e)) ==> x@ == ReplyModel::Message(Err(e@)),
        x matches Reply::StoredMessage(m) ==> x@ == ReplyModel::StoredMessage(text::opt_view(m)),
        x matches Reply::Saved(p) ==> x@ == ReplyModel::Saved(p@),
{
}

/// A step stands for itself in its model.
pub proof fn steps_are_seen_as_they_are(x: Step)
    ensures
        x matches Step::Ask(e) ==> x@ == StepModel::Ask(e@),
        x is Next ==> x@ == StepModel::Next,
        x is EndRound ==> x@ == StepModel::EndRound,
{
}

/// The client keeps its parts in its model.
pub proof fn client_is_seen_as_it_is(x: App)
    ensures
        x@.account_form == x.account_form@,
        x@.compose == x.compose@,
        x@.folder_list == x.folder_list@,
        x@.mail_list == x.mail_list@,
        x@.mail_view == x.mail_view@,
        x@.status_bar == x.status_bar@,
        x@.should_quit == x.should_quit,
        x@.should_suspend == x.should_suspend,
        x@.mode == x.mode,
        x@.connecting == x.connecting,
        x@.accounts == text::views(x.accounts@),
        x@.active_account_id == x.active_account_id,
        x@.mail_client == x.mail_client@,
        x@.last_tick_key_events == x.last_tick_key_events@,
        x@.pending == text::views(x.pending@),
        x@.current == x.current@,
        x@.waiting == x.waiting@,
{
}

/// A request keeps what it names, in its order, in its model.
pub proof fn requests_are_seen_as_they_are(x: Request<String, Vec<u32>, Vec<MailFlag>>)
    ensures
        x is ListFolders ==> x@ == RequestModel::ListFolders,
        x matches Request::CreateFolder(n) ==> x@ == RequestModel::CreateFolder(n@),
        x matches Request::DeleteFolder(n) ==> x@ == RequestModel::DeleteFolder(n@),
        x matches Request::RenameFolder(a, b) ==> x@ == RequestModel::RenameFolder(a@, b@),
        x matches Request::Latest(f, n) ==> x@ == RequestModel::Latest(f@, n),
        x matches Request::Before(f, u, n) ==> x@ == RequestModel::Before(f@, u, n),
        x matches Request::Since(f, u) ==> x@ == RequestModel::Since(f@, u),
        x matches Request::Message(f, u) ==> x@ == RequestModel::Message(f@, u),
        x matches Request::Attachment(f, u, p, e)
            ==> x@ == RequestModel::Attachment(f@, u, p@, text::opt_view(e)),
        x matches Request::AddFlags(f, u, l)
            ==> x@ == RequestModel::AddFlags(f@, u@, text::views(l@)),
        x matches Request::RemoveFlags(f, u, l)
            ==> x@ == RequestModel::RemoveFlags(f@, u@, text::views(l@)),
        x matches Request::Move(a, b, u) ==> x@ == RequestModel::Move(a@, b@, u@),
        x matches Request::Copy(a, b, u) ==> x@ == RequestModel::Copy(a@, b@, u@),
        x matches Request::MessageCount(f) ==> x@ == RequestModel::MessageCount(f@),
        x matches Request::UnreadCount(f) ==> x@ == RequestModel::UnreadCount(f@),
        x is Noop ==> x@ == RequestModel::Noop,
{
}

/// A command keeps what it names in its model.
pub proof fn commands_are_seen_as_they_are(x: Command<String, Vec<u32>>)
    ensures
        x is Noop ==> x@ == CommandModel::Noop,
        x matches Command::Select(f) ==> x@ == CommandModel::Select(f@),
        x is List ==> x@ == CommandModel::List,
        x matches Command::Create(f) ==> x@ == CommandModel::Create(f@),
        x matches Command::Delete(f) ==> x@ == CommandModel::Delete(f@),
        x matches Command::Rename(a, b) ==> x@ == CommandModel::Rename(a@, b@),
        x is Fetch ==> x@ is Fetch
            && x@->Fetch_sequence == x->Fetch_sequence@
            && x@->Fetch_query == x->Fetch_query@
            && x@->Fetch_by_uid == x->Fetch_by_uid,
        x is Store ==> x@ is Store
            && x@->Store_uids == x->Store_uids@
            && x@->Store_query == x->Store_query@,
        x is Move ==> x@ is Move
            && x@->Move_uids == x->Move_uids@
            && x@->Move_folder == x->Move_folder@,
        x is Copy ==> x@ is Copy
            && x@->Copy_uids == x->Copy_uids@
            && x@->Copy_folder == x->Copy_folder@,
        x is Status ==> x@ is Status
            && x@->Status_folder == x->Status_folder@
            && x@->Status_items == x->Status_items@,
        x matches Command::Section(p) ==> x@ == CommandModel::Section(p@),
{
}

/// An outcome stands for itself in its model.
pub proof fn outcomes_are_seen_as_they_are(x: Outcome<Vec<Folder>, Vec<EmailSummary>, Email, Vec<u8>>)
    ensures
        x is Nothing ==> x@ == OutcomeModel::Nothing,
        x matches Outcome::Folders(v) ==> x@ == OutcomeModel::Folders(text::views(v@)),
        x matches Outcome::Summaries(v) ==> x@ == OutcomeModel::Summaries(text::views(v@)),
        x matches Outcome::Message(m) ==> x@ == OutcomeModel::Message(m@),
        x matches Outcome::Bytes(b) ==> x@ == OutcomeModel::Bytes(b@),
        x matches Outcome::Count(n) ==> x@ == OutcomeModel::Count(n),
{
}

/// What the client does next stands for itself in its model.
pub proof fn what_is_next_is_seen_as_it_is(x: Next<Command, Outcome, MailError>)
    ensures
        x matches Next::Send(c) ==> x@ == NextModel::Send(c@),
        x matches Next::Finish(o) ==> x@ == NextModel::Finish(o@),
        x matches Next::Fail(e) ==> x@ == NextModel::Fail(e@),
{
}

/// The connection keeps its settings in its model.
pub proof fn connection_is_seen_as_it_is(x: MailClient<AccountConfig>)
    ensures
        x@.config == text::opt_view(x.config),
        x@.session == x.session,
{
}

/// A field of a message that is written keeps its label and its text.
pub proof fn pieces_are_seen_as_they_are(x: ComposeField<&'static str, String>)
    ensures
        x@.label == x.label@,
        x@.value == x.value@,
{
}

/// A message that is written keeps its fields in its model.
pub proof fn written_message_is_seen_as_it_is(x: Compose<Vec<ComposeField>, Vec<AttachmentData>, String>)
    ensures
        x@.fields == text::views(x.fields@),
        x@.focus == x.focus,
        x@.attachments == text::views(x.attachments@),
        x@.att_focus == x.att_focus,
        x@.reply_to == text::opt_view(x.reply_to),
        x@.reply_all == x.reply_all,
        x@.forward == x.forward,
{
}

/// A provider keeps its servers and ports in its model.
pub proof fn providers_are_seen_as_they_are(x: ProviderInfo<&'static str>)
    ensures
        x@.domain == x.domain@,
        x@.imap_host == x.imap_host@,
        x@.imap_port == x.imap_port,
        x@.smtp_host == x.smtp_host@,
        x@.smtp_port == x.smtp_port,
        x@.security == x.security@,
{
}

/// A field of the form keeps its label, its text and its signs.
pub proof fn form_fields_are_seen_as_they_are(x: FormField<&'static str, String>)
    ensures
        x@.label == x.label@,
        x@.value == x.value@,
        x@.is_password == x.is_password,
        x@.auto_filled == x.auto_filled,
{
}

/// What is entered in the form stands in its own places in its model.
pub proof fn form_data_are_seen_as_they_are(x: AccountFormData<String>)
    ensures
        x@.email == x.email@,
        x@.display_name == x.display_name@,
        x@.imap_host == x.imap_host@,
        x@.imap_port == x.imap_port,
        x@.smtp_host == x.smtp_host@,
        x@.smtp_port == x.smtp_port,
        x@.username == x.username@,
        x@.password == x.password@,
        x@.security == x.security@,
{
}

/// The form keeps its fields in its model.
pub proof fn form_is_seen_as_it_is(x: AccountForm<Vec<FormField>>)
    ensures
        x@.fields == text::views(x.fields@),
        x@.focus == x.focus,
        x@.security_idx == x.security_idx,
{
}

/// The list of folders keeps its folders in its model.
pub proof fn folder_view_is_seen_as_it_is(x: FolderList<Vec<Folder>>)
    ensures
        x@.folders == text::views(x.folders@),
        x@.state == x.state,
{
}

/// The list of messages keeps its messages in its model.
pub proof fn mail_view_is_seen_as_it_is(x: MailList<Vec<EmailSummary>, String, Vec<Item>>)
    ensures
        x@.mails == text::views(x.mails@),
        x@.state == x.state,
        x@.current_folder == x.current_folder@,
        x@.cached_items == text::views(x.cached_items@),
        x@.dirty == x.dirty,
        x@.last_width == x.last_width,
{
}

/// The view of a message keeps its message in its model.
pub proof fn shown_message_is_seen_as_it_is(x: MailView<Email, String>)
    ensures
        x@.mail == text::opt_view(x.mail),
        x@.current_folder == x.current_folder@,
        x@.show_html == x.show_html,
        x@.scroll == x.scroll,
        x@.attachment_idx == x.attachment_idx,
{
}

/// The status bar keeps its signs in its model.
pub proof fn bar_is_seen_as_it_is(x: StatusBar<String>)
    ensures
        x@.connected == x.connected,
        x@.mode == x.mode,
        x@.current_folder == text::opt_view(x.current_folder),
{
}

/// A part of a message keeps its header, its type and its bytes in its model.
pub proof fn parts_are_seen_as_they_are(x: Part<String, Vec<(String, String)>, Vec<u8>>)
    ensures
        x@.headers == text::views(x.headers@),
        x@.mimetype == x.mimetype@,
        x@.params == text::views(x.params@),
        x@.body == text::opt_view(x.body),
        x@.body_size == x.body_size,
        x@.subparts == x.subparts,
{
}

/// An attribute of a folder is told apart from every other in its model.
pub proof fn attributes_are_seen_as_they_are(x: NameAttribute<String>)
    ensures
        x is NoInferiors ==> x@ == NameAttribute::<Seq<char>>::NoInferiors,
        x is NoSelect ==> x@ == NameAttribute::<Seq<char>>::NoSelect,
        x is Marked ==> x@ == NameAttribute::<Seq<char>>::Marked,
        x is Unmarked ==> x@ == NameAttribute::<Seq<char>>::Unmarked,
        x is All ==> x@ == NameAttribute::<Seq<char>>::All,
        x is Archive ==> x@ == NameAttribute::<Seq<char>>::Archive,
        x is Drafts ==> x@ == NameAttribute::<Seq<char>>::Drafts,
        x is Flagged ==> x@ == NameAttribute::<Seq<char>>::Flagged,
        x is Junk ==> x@ == NameAttribute::<Seq<char>>::Junk,
        x is Sent ==> x@ == NameAttribute::<Seq<char>>::Sent,
        x is Trash ==> x@ == NameAttribute::<Seq<char>>::Trash,
        x matches NameAttribute::Extension(s) ==> x@ == NameAttribute::<Seq<char>>::Extension(s@),
        x matches NameAttribute::Other(s) ==> x@ == NameAttribute::<Seq<char>>::Other(s@),
{
}

/// A folder that the server lists keeps its fields in its model.
pub proof fn listed_folders_are_seen_as_they_are(x: ListedFolder<String, Vec<NameAttribute>>)
    ensures
        x@.name == x.name@,
        x@.delimiter == text::opt_view(x.delimiter),
        x@.attributes == text::views(x.attributes@),
{
}

/// The columns of an account stand in their own places in its model.
pub proof fn account_rows_are_seen_as_they_are(x: AccountRow<String>)
    ensures
        x@.email == x.email@,
        x@.display_name == text::opt_view(x.display_name),
        x@.username == x.username@,
        x@.password == x.password@,
        x@.password_encrypted == text::opt_view(x.password_encrypted),
        x@.imap_host == x.imap_host@,
        x@.imap_port == x.imap_port,
        x@.smtp_host == x.smtp_host@,
        x@.smtp_port == x.smtp_port,
        x@.security_mode == x.security_mode@,
{
}

/// The columns of a folder stand in their own places in its model.
pub proof fn folder_rows_are_seen_as_they_are(x: FolderRow<String>)
    ensures
        x@.name == x.name@,
        x@.delimiter == x.delimiter@,
        x@.attributes == x.attributes@,
{
}

/// The columns of a summary stand in their own places in its model.
pub proof fn summary_rows_are_seen_as_they_are(x: SummaryRow<String, Vec<MailFlag>>)
    ensures
        x@.uid == x.uid,
        x@.message_id == text::opt_view(x.message_id),
        x@.sender == x.sender@,
        x@.recipients == x.recipients@,
        x@.cc == x.cc@,
        x@.subject == x.subject@,
        x@.sent_at == text::opt_view(x.sent_at),
        x@.size == x.size,
        x@.flags == text::views(x.flags@),
        x@.has_attachments == x.has_attachments,
{
}

/// The columns of a message stand in their own places in its model.
pub proof fn message_rows_are_seen_as_they_are(x: EmailRow<String, Vec<MailFlag>>)
    ensures
        x@.uid == x.uid,
        x@.message_id == text::opt_view(x.message_id),
        x@.sender == x.sender@,
        x@.recipients == x.recipients@,
        x@.cc == x.cc@,
        x@.bcc == x.bcc@,
        x@.reply_to == text::opt_view(x.reply_to),
        x@.subject == x.subject@,
        x@.sent_at == text::opt_view(x.sent_at),
        x@.flags == text::views(x.flags@),
        x@.has_attachments == x.has_attachments,
        x@.body_text == text::opt_view(x.body_text),
        x@.body_html == text::opt_view(x.body_html),
        x@.in_reply_to == text::opt_view(x.in_reply_to),
        x@.references == x.references@,
{
}

/// The columns of an attachment stand in their own places in its model.
pub proof fn attachment_rows_are_seen_as_they_are(x: AttachmentRow<String>)
    ensures
        x@.filename == x.filename@,
        x@.mime_type == x.mime_type@,
        x@.size == x.size,
        x@.content_id == text::opt_view(x.content_id),
        x@.part_id == x.part_id@,
        x@.transfer_encoding == text::opt_view(x.transfer_encoding),
{
}

/// A flag of the server is told apart from every other in its model.
pub proof fn server_flags_are_seen_as_they_are(x: ServerFlag<String>)
    ensures
        x is Seen ==> x@ == ServerFlag::<Seq<char>>::Seen,
        x is Answered ==> x@ == ServerFlag::<Seq<char>>::Answered,
        x is Flagged ==> x@ == ServerFlag::<Seq<char>>::Flagged,
        x is Deleted ==> x@ == ServerFlag::<Seq<char>>::Deleted,
        x is Draft ==> x@ == ServerFlag::<Seq<char>>::Draft,
        x is Recent ==> x@ == ServerFlag::<Seq<char>>::Recent,
        x is MayCreate ==> x@ == ServerFlag::<Seq<char>>::MayCreate,
        x matches ServerFlag::Custom(s) ==> x@ == ServerFlag::<Seq<char>>::Custom(s@),
{
}

/// An address keeps its name, its mailbox and its host in its model.
pub proof fn addresses_are_seen_as_they_are(x: Address<Vec<u8>>)
    ensures
        x@.name == text::opt_view(x.name),
        x@.mailbox == text::opt_view(x.mailbox),
        x@.host == text::opt_view(x.host),
{
}

/// An envelope keeps its fields in its model.
pub proof fn envelopes_are_seen_as_they_are(x: Envelope<Vec<u8>, Vec<Address>>)
    ensures
        x@.date == text::opt_view(x.date),
        x@.subject == text::opt_view(x.subject),
        x@.from == summary::opt_views(x.from),
        x@.to == summary::opt_views(x.to),
        x@.cc == summary::opt_views(x.cc),
        x@.message_id == text::opt_view(x.message_id),
{
}

/// What the server lists of a message stands in its own places in its model.
pub proof fn listings_are_seen_as_they_are(x: Listed<Vec<u8>, Envelope, Vec<ServerFlag>>)
    ensures
        x@.uid == x.uid,
        x@.size == x.size,
        x@.flags == text::views(x.flags@),
        x@.envelope == text::opt_view(x.envelope),
        x@.header == text::opt_view(x.header),
{
}

/// A span keeps its text and its ink.
pub proof fn spans_are_seen_as_they_are(x: Span<String>)
    ensures
        x@.text == x.text@,
        x@.ink == x.ink,
{
}

/// A block keeps its title and its ink.
pub proof fn blocks_are_seen_as_they_are(x: Block<String>)
    ensures
        x@.title == x.title@,
        x@.ink == x.ink,
{
}

/// What a paragraph shows stands for itself in its model.
pub proof fn contents_are_seen_as_they_are(x: Content<String, Vec<Line>>)
    ensures
        x matches Content::Text(t) ==> x@ == ContentModel::Text(t@),
        x matches Content::Lines(l) ==> x@ == ContentModel::Lines(text::views(l@)),
{
}

/// A paragraph keeps its fields in its model.
pub proof fn paragraphs_are_seen_as_they_are(x: Paragraph<String, Vec<Line>>)
    ensures
        x@.content == x.content@,
        x@.ink == x.ink,
        x@.align == x.align,
        x@.block == text::opt_view(x.block),
        x@.wrap == x.wrap,
        x@.scroll == x.scroll,
{
}

/// What is drawn keeps its area and its contents in its model.
pub proof fn drawings_are_seen_as_they_are(x: Drawn<Paragraph, List>)
    ensures
        x matches Drawn::Paragraph(a, p) ==> x@ == DrawnModel::Paragraph(a, p@),
        x matches Drawn::List(a, l) ==> x@ == DrawnModel::List(a, l@),
{
}

/// What is made of a raw message is seen as its parts or the error.
pub proof fn parsed_parts_are_seen_as_they_are(x: Result<Vec<Part>, String>)
    ensures
        x is Ok <==> mime::parsed_view(x) is Ok,
        x is Ok ==> mime::parsed_view(x)->Ok_0 == text::views(x->Ok_0@),
        x is Err ==> mime::parsed_view(x)->Err_0 == x->Err_0@,
{
}

/// A message that is read, or the error, is seen as it is.
pub proof fn parsed_message_is_seen_as_it_is(x: Result<Email, MailError>)
    ensures
        x is Ok <==> mime::email_view(x) is Ok,
        x is Ok ==> mime::email_view(x)->Ok_0 == x->Ok_0@,
        x is Err ==> mime::email_view(x)->Err_0 == x->Err_0@,
{
}

/// Folders that come, or the error, are seen as they are.
pub proof fn fetched_folders_are_seen_as_they_are(x: Result<Vec<Folder>, String>)
    ensures
        x is Ok <==> replies::folders_view(x) is Ok,
        x is Ok ==> replies::folders_view(x)->Ok_0 == text::views(x->Ok_0@),
        x is Err ==> replies::folders_view(x)->Err_0 == x->Err_0@,
{
}

/// Summaries that come, or the error, are seen as they are.
pub proof fn fetched_mails_are_seen_as_they_are(x: Result<Vec<EmailSummary>, String>)
    ensures
        x is Ok <==> replies::mails_view(x) is Ok,
        x is Ok ==> replies::mails_view(x)->Ok_0 == text::views(x->Ok_0@),
        x is Err ==> replies::mails_view(x)->Err_0 == x->Err_0@,
{
}

/// A message that comes, or the error, is seen as it is.
pub proof fn fetched_message_is_seen_as_it_is(x: Result<Email, String>)
    ensures
        x is Ok <==> replies::message_view(x) is Ok,
        x is Ok ==> replies::message_view(x)->Ok_0 == x->Ok_0@,
        x is Err ==> replies::message_view(x)->Err_0 == x->Err_0@,
{
}

/// An account that is read, or the error, is seen as it is.
pub proof fn read_account_is_seen_as_it_is(x: Result<Account, StoreError>)
    ensures
        x is Ok <==> store::account_view(x) is Ok,
        x is Ok ==> store::account_view(x)->Ok_0 == x->Ok_0@,
        x is Err ==> store::account_view(x)->Err_0 == x->Err_0,
{
}

/// A folder that is read, or the error, is seen as it is.
pub proof fn read_folder_is_seen_as_it_is(x: Result<Folder, StoreError>)
    ensures
        x is Ok <==> store::folder_view(x) is Ok,
        x is Ok ==> store::folder_view(x)->Ok_0 == x->Ok_0@,
        x is Err ==> store::folder_view(x)->Err_0 == x->Err_0,
{
}

/// A summary that is read, or the error, is seen as it is.
pub proof fn read_summary_is_seen_as_it_is(x: Result<EmailSummary, StoreError>)
    ensures
        x is Ok <==> store::summary_view(x) is Ok,
        x is Ok ==> store::summary_view(x)->Ok_0 == x->Ok_0@,
        x is Err ==> store::summary_view(x)->Err_0 == x->Err_0,
{
}

/// A stored message that is read, or the error, is seen as it is.
pub proof fn stored_message_is_seen_as_it_is(x: Result<Email, StoreError>)
    ensures
        x is Ok <==> store::email_view(x) is Ok,
        x is Ok ==> store::email_view(x)->Ok_0 == x->Ok_0@,
        x is Err ==> store::email_view(x)->Err_0 == x->Err_0,
{
}

/// A password that is opened, or the error, is seen as it is.
pub proof fn opened_password_is_seen_as_it_is(x: Result<String, VaultError>)
    ensures
        x is Ok <==> vault::text_view(x) is Ok,
        x is Ok ==> vault::text_view(x)->Ok_0 == x->Ok_0@,
        x is Err ==> vault::text_view(x)->Err_0 == x->Err_0,
{
}

/// The end of a disconnection, or the error, is seen as it is.
pub proof fn disconnection_is_seen_as_it_is(x: Result<(), MailError>)
    ensures
        x is Ok <==> client::unit_view(x) is Ok,
        x is Ok ==> client::unit_view(x)->Ok_0 == (),
        x is Err ==> client::unit_view(x)->Err_0 == x->Err_0@,
{
}

/// A number that is read, or the error, is seen as it is.
pub proof fn read_number_is_seen_as_it_is(x: Result<u32, NumberError>)
    ensures
        x is Ok <==> number::read_as(x) is Ok,
        x is Ok ==> number::read_as(x)->Ok_0 == x->Ok_0,
        x is Err ==> number::read_as(x)->Err_0 == x->Err_0,
{
}

/// Keys, lists and texts that may be missing are seen where they are there, and there only.
pub proof fn optional_values_are_seen_as_they_are(
    key: Option<[u8; 32]>,
    list: Option<Vec<String>>,
    word: Option<&str>,
)
    ensures
        key is None <==> store::key_view(key) is None,
        key is Some ==> store::key_view(key)->Some_0 == key->Some_0@,
        list is None <==> store::list_view(list) is None,
        list is Some ==> store::list_view(list)->Some_0 == text::views(list->Some_0@),
        word is None <==> codec::opt_str(word) is None,
        word is Some ==> codec::opt_str(word)->Some_0 == word->Some_0@,
{
}

/// The message of the status bar is seen with its time.
pub proof fn bar_message_is_seen_as_it_is(x: StatusBar<String>)
    ensures
        x.status_message is None <==> x@.status_message is None,
        x.status_message is Some ==> x@.status_message->Some_0 == (
            x.status_message->Some_0.0@,
            x.status_message->Some_0.1,
        ),
{
}

/// A list that is drawn keeps its items, its frame and what is chosen in it.
pub proof fn drawn_lists_are_seen_as_they_are(x: List<String, Vec<Item>>)
    ensures
        x@.items == text::views(x.items@),
        x@.block == x.block@,
        x.highlight is None <==> x@.highlight is None,
        x.highlight is Some ==> x@.highlight->Some_0.ink == x.highlight->Some_0.ink
            && x@.highlight->Some_0.symbol == x.highlight->Some_0.symbol@
            && x@.highlight->Some_0.state == x.highlight->Some_0.state,
{
}

/// What comes first of an answer is seen as it is.
pub proof fn first_answers_are_seen_as_they_are(x: First<Fetched, String>, y: First<(), String>)
    ensures
        x is Missing <==> x@ is Missing,
        x is Refused <==> x@ is Refused,
        x is Broken <==> x@ is Broken,
        x is Found <==> x@ is Found,
        x is Refused ==> x@->Refused_0 == x->Refused_0@,
        x is Broken ==> x@->Broken_0 == x->Broken_0@,
        x is Found ==> x@->Found_0.uid == x->Found_0.uid && x@->Found_0.flags == text::views(
            x->Found_0.flags@,
        ) && x@->Found_0.body == text::opt_view(x->Found_0.body),
        y is Missing <==> y@ is Missing,
        y is Refused <==> y@ is Refused,
        y is Broken <==> y@ is Broken,
        y is Found <==> y@ is Found,
        y is Refused ==> y@->Refused_0 == y->Refused_0@,
        y is Broken ==> y@->Broken_0 == y->Broken_0@,
{
}

/// What comes in turn of an answer is seen in its order, along with the error that ended it.
pub proof fn streams_are_seen_as_they_are<X: View>(x: Streamed<Vec<X>, String>)
    ensures
        x is Refused <==> x@ is Refused,
        x is Refused ==> x@->Refused_0 == x->Refused_0@,
        x is Items ==> x@->Items_0 == text::views(x->Items_0@) && x@->Items_1 == text::opt_view(
            x->Items_1,
        ),
{
}

/// A step of a connection, its end or its error is seen as it is.
pub proof fn steps_of_a_connection_are_seen_as_they_are(x: Connecting<MailError>)
    ensures
        x is Do <==> x@ is Do,
        x is Connected <==> x@ is Connected,
        x is Failed <==> x@ is Failed,
        x is Do ==> x@->Do_0 == x->Do_0,
        x is Failed ==> x@->Failed_0 == x->Failed_0@,
{
}

} // verus!
