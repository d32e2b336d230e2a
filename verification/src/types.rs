//! What the mail client keeps and hands around: accounts, folders, messages, flags and errors.

use vstd::prelude::*;

use crate::text;

verus! {

/// A value that can be copied so that the copy has the same view.
pub trait Duplicate: View + Sized {
    /// The copy.
    fn duplicate(&self) -> (r: Self)
        ensures
            r@ == self@,
    ;
}

impl Duplicate for String {
    fn duplicate(&self) -> (r: Self) {
        self.clone()
    }
}

/// Copies a list, element by element.
pub fn duplicate_all<T: Duplicate>(v: &Vec<T>) -> (r: Vec<T>)
    ensures
        text::views(r@) == text::views(v@),
{
    let mut r: Vec<T> = Vec::new();
    let mut i: usize = 0;
    while i < v.len()
        invariant
            i <= v.len(),
            r.len() == i,
            forall|j: int| 0 <= j < i ==> (#[trigger] r[j])@ == v[j]@,
        decreases v.len() - i,
    {
        r.push(v[i].duplicate());
        i += 1;
    }
    assert(text::views(r@) =~= text::views(v@));
    r
}

/// Copies an optional value.
pub fn duplicate_opt<T: Duplicate>(o: &Option<T>) -> (r: Option<T>)
    ensures
        text::opt_view(r) == text::opt_view(*o),
{
    match o {
        Some(x) => Some(x.duplicate()),
        None => None,
    }
}

/// How a connection is protected.
#[derive(Clone, Copy, Debug, PartialEq, Eq, Structural)]
pub enum SecurityMode {
    /// TLS from the start.
    Tls,
    /// TLS after the STARTTLS command.
    StartTls,
    /// No protection.
    Unencrypted,
}

/// A flag of a message; `T` is the text of a flag that the protocol does not name.
#[derive(Clone, Debug, PartialEq, Eq)]
pub enum MailFlag<T = String> {
    Seen,
    Answered,
    Flagged,
    Deleted,
    Draft,
    Recent,
    Custom(T),
}

impl View for MailFlag<String> {
    type V = MailFlag<Seq<char>>;

    open spec fn view(&self) -> MailFlag<Seq<char>> {
        match *self {
            MailFlag::Seen => MailFlag::Seen,
            MailFlag::Answered => MailFlag::Answered,
            MailFlag::Flagged => MailFlag::Flagged,
            MailFlag::Deleted => MailFlag::Deleted,
            MailFlag::Draft => MailFlag::Draft,
            MailFlag::Recent => MailFlag::Recent,
            MailFlag::Custom(s) => MailFlag::Custom(s@),
        }
    }
}

impl Duplicate for MailFlag<String> {
    fn duplicate(&self) -> (r: Self) {
        match self {
            MailFlag::Seen => MailFlag::Seen,
            MailFlag::Answered => MailFlag::Answered,
            MailFlag::Flagged => MailFlag::Flagged,
            MailFlag::Deleted => MailFlag::Deleted,
            MailFlag::Draft => MailFlag::Draft,
            MailFlag::Recent => MailFlag::Recent,
            MailFlag::Custom(s) => MailFlag::Custom(s.clone()),
        }
    }
}

/// What went wrong with a mail server; `T` is the text of the message.
#[derive(Clone, Debug, PartialEq, Eq)]
pub enum MailError<T = String> {
    Connection(T),
    Tls(T),
    Protocol(T),
    Authentication(T),
    NotConnected,
    MessageNotFound(T),
    Parse(T),
    FolderNotFound(T),
}

impl View for MailError<String> {
    type V = MailError<Seq<char>>;

    open spec fn view(&self) -> MailError<Seq<char>> {
        match *self {
            MailError::Connection(s) => MailError::Connection(s@),
            MailError::Tls(s) => MailError::Tls(s@),
            MailError::Protocol(s) => MailError::Protocol(s@),
            MailError::Authentication(s) => MailError::Authentication(s@),
            MailError::NotConnected => MailError::NotConnected,
            MailError::MessageNotFound(s) => MailError::MessageNotFound(s@),
            MailError::Parse(s) => MailError::Parse(s@),
            MailError::FolderNotFound(s) => MailError::FolderNotFound(s@),
        }
    }
}

/// Where an account's servers are and how to log in; `T` is text.
#[derive(Clone, Debug, PartialEq, Eq)]
pub struct AccountConfig<T = String> {
    pub imap_host: T,
    pub imap_port: u16,
    pub smtp_host: T,
    pub smtp_port: u16,
    pub username: T,
    pub password: T,
    pub security: SecurityMode,
}

impl View for AccountConfig<String> {
    type V = AccountConfig<Seq<char>>;

    open spec fn view(&self) -> AccountConfig<Seq<char>> {
        AccountConfig {
            imap_host: self.imap_host@,
            imap_port: self.imap_port,
            smtp_host: self.smtp_host@,
            smtp_port: self.smtp_port,
            username: self.username@,
            password: self.password@,
            security: self.security,
        }
    }
}

impl Duplicate for AccountConfig<String> {
    fn duplicate(&self) -> (r: Self) {
        AccountConfig {
            imap_host: self.imap_host.clone(),
            imap_port: self.imap_port,
            smtp_host: self.smtp_host.clone(),
            smtp_port: self.smtp_port,
            username: self.username.clone(),
            password: self.password.clone(),
            security: self.security,
        }
    }
}

/// An account that is kept under a number; `T` is text.
#[derive(Clone, Debug, PartialEq, Eq)]
pub struct Account<T = String> {
    pub id: i64,
    pub email: T,
    pub display_name: Option<T>,
    pub config: AccountConfig<T>,
}

impl View for Account<String> {
    type V = Account<Seq<char>>;

    open spec fn view(&self) -> Account<Seq<char>> {
        Account {
            id: self.id,
            email: self.email@,
            display_name: text::opt_view(self.display_name),
            config: self.config@,
        }
    }
}

impl Duplicate for Account<String> {
    fn duplicate(&self) -> (r: Self) {
        Account {
            id: self.id,
            email: self.email.clone(),
            display_name: duplicate_opt(&self.display_name),
            config: self.config.duplicate(),
        }
    }
}

/// An account that is to be kept; `T` is text.
#[derive(Clone, Debug, PartialEq, Eq)]
pub struct NewAccount<T = String> {
    pub email: T,
    pub display_name: Option<T>,
    pub config: AccountConfig<T>,
}

impl View for NewAccount<String> {
    type V = NewAccount<Seq<char>>;

    open spec fn view(&self) -> NewAccount<Seq<char>> {
        NewAccount {
            email: self.email@,
            display_name: text::opt_view(self.display_name),
            config: self.config@,
        }
    }
}

/// A folder of a mailbox; `T` is text, `L` a list of texts.
#[derive(Clone, Debug, PartialEq, Eq)]
pub struct Folder<T = String, L = Vec<String>> {
    pub name: T,
    pub delimiter: T,
    pub attributes: L,
}

impl View for Folder<String, Vec<String>> {
    type V = Folder<Seq<char>, Seq<Seq<char>>>;

    open spec fn view(&self) -> Folder<Seq<char>, Seq<Seq<char>>> {
        Folder {
            name: self.name@,
            delimiter: self.delimiter@,
            attributes: text::views(self.attributes@),
        }
    }
}

impl Duplicate for Folder<String, Vec<String>> {
    fn duplicate(&self) -> (r: Self) {
        Folder {
            name: self.name.clone(),
            delimiter: self.delimiter.clone(),
            attributes: duplicate_all(&self.attributes),
        }
    }
}

/// What a list of messages shows of one; `T` is text, `F` a list of flags.
#[derive(Clone, Debug, PartialEq, Eq)]
pub struct EmailSummary<T = String, F = Vec<MailFlag>> {
    pub uid: u32,
    pub message_id: Option<T>,
    pub from: T,
    pub to: T,
    pub cc: Option<T>,
    pub subject: T,
    pub date: T,
    pub size: u64,
    pub flags: F,
    pub has_attachments: bool,
}

/// The model of a summary.
pub type SummaryModel = EmailSummary<Seq<char>, Seq<MailFlag<Seq<char>>>>;

impl View for EmailSummary<String, Vec<MailFlag>> {
    type V = SummaryModel;

    open spec fn view(&self) -> SummaryModel {
        EmailSummary {
            uid: self.uid,
            message_id: text::opt_view(self.message_id),
            from: self.from@,
            to: self.to@,
            cc: text::opt_view(self.cc),
            subject: self.subject@,
            date: self.date@,
            size: self.size,
            flags: text::views(self.flags@),
            has_attachments: self.has_attachments,
        }
    }
}

impl Duplicate for EmailSummary<String, Vec<MailFlag>> {
    fn duplicate(&self) -> (r: Self) {
        EmailSummary {
            uid: self.uid,
            message_id: duplicate_opt(&self.message_id),
            from: self.from.clone(),
            to: self.to.clone(),
            cc: duplicate_opt(&self.cc),
            subject: self.subject.clone(),
            date: self.date.clone(),
            size: self.size,
            flags: duplicate_all(&self.flags),
            has_attachments: self.has_attachments,
        }
    }
}

/// What is known of an attachment before it is fetched; `T` is text.
#[derive(Clone, Debug, PartialEq, Eq)]
pub struct AttachmentMeta<T = String> {
    pub filename: T,
    pub mime_type: T,
    pub size: u64,
    pub content_id: Option<T>,
    pub part_id: T,
    pub transfer_encoding: Option<T>,
}

impl View for AttachmentMeta<String> {
    type V = AttachmentMeta<Seq<char>>;

    open spec fn view(&self) -> AttachmentMeta<Seq<char>> {
        AttachmentMeta {
            filename: self.filename@,
            mime_type: self.mime_type@,
            size: self.size,
            content_id: text::opt_view(self.content_id),
            part_id: self.part_id@,
            transfer_encoding: text::opt_view(self.transfer_encoding),
        }
    }
}

impl Duplicate for AttachmentMeta<String> {
    fn duplicate(&self) -> (r: Self) {
        AttachmentMeta {
            filename: self.filename.clone(),
            mime_type: self.mime_type.clone(),
            size: self.size,
            content_id: duplicate_opt(&self.content_id),
            part_id: self.part_id.clone(),
            transfer_encoding: duplicate_opt(&self.transfer_encoding),
        }
    }
}

/// A message; `T` is text, `L` a list of texts, `A` a list of attachments, `F` a list of flags.
#[derive(Clone, Debug, PartialEq, Eq)]
pub struct Email<T = String, L = Vec<String>, A = Vec<AttachmentMeta>, F = Vec<MailFlag>> {
    pub uid: u32,
    pub folder: T,
    pub message_id: Option<T>,
    pub from: T,
    pub to: L,
    pub cc: L,
    pub bcc: L,
    pub reply_to: Option<T>,
    pub date: T,
    pub subject: T,
    pub body_text: Option<T>,
    pub body_html: Option<T>,
    pub attachments: A,
    pub in_reply_to: Option<T>,
    pub references: L,
    pub flags: F,
}

/// The model of a message.
pub type EmailModel = Email<
    Seq<char>,
    Seq<Seq<char>>,
    Seq<AttachmentMeta<Seq<char>>>,
    Seq<MailFlag<Seq<char>>>,
>;

impl View for Email<String, Vec<String>, Vec<AttachmentMeta>, Vec<MailFlag>> {
    type V = EmailModel;

    open spec fn view(&self) -> EmailModel {
        Email {
            uid: self.uid,
            folder: self.folder@,
            message_id: text::opt_view(self.message_id),
            from: self.from@,
            to: text::views(self.to@),
            cc: text::views(self.cc@),
            bcc: text::views(self.bcc@),
            reply_to: text::opt_view(self.reply_to),
            date: self.date@,
            subject: self.subject@,
            body_text: text::opt_view(self.body_text),
            body_html: text::opt_view(self.body_html),
            attachments: text::views(self.attachments@),
            in_reply_to: text::opt_view(self.in_reply_to),
            references: text::views(self.references@),
            flags: text::views(self.flags@),
        }
    }
}

impl Duplicate for Email<String, Vec<String>, Vec<AttachmentMeta>, Vec<MailFlag>> {
    fn duplicate(&self) -> (r: Self) {
        Email {
            uid: self.uid,
            folder: self.folder.clone(),
            message_id: duplicate_opt(&self.message_id),
            from: self.from.clone(),
            to: duplicate_all(&self.to),
            cc: duplicate_all(&self.cc),
            bcc: duplicate_all(&self.bcc),
            reply_to: duplicate_opt(&self.reply_to),
            date: self.date.clone(),
            subject: self.subject.clone(),
            body_text: duplicate_opt(&self.body_text),
            body_html: duplicate_opt(&self.body_html),
            attachments: duplicate_all(&self.attachments),
            in_reply_to: duplicate_opt(&self.in_reply_to),
            references: duplicate_all(&self.references),
            flags: duplicate_all(&self.flags),
        }
    }
}

/// A file that goes out with a message; `T` is text, `B` the bytes.
#[derive(Clone, Debug, PartialEq, Eq)]
pub struct AttachmentData<T = String, B = Vec<u8>> {
    pub filename: T,
    pub mime_type: T,
    pub data: B,
}

impl View for AttachmentData<String, Vec<u8>> {
    type V = AttachmentData<Seq<char>, Seq<u8>>;

    open spec fn view(&self) -> AttachmentData<Seq<char>, Seq<u8>> {
        AttachmentData { filename: self.filename@, mime_type: self.mime_type@, data: self.data@ }
    }
}

impl Duplicate for AttachmentData<String, Vec<u8>> {
    fn duplicate(&self) -> (r: Self) {
        AttachmentData {
            filename: self.filename.clone(),
            mime_type: self.mime_type.clone(),
            data: crate::codec::copy_bytes(self.data.as_slice()),
        }
    }
}

/// A message that is to be sent; `T` is text, `L` a list of texts, `A` a list of files.
#[derive(Clone, Debug, PartialEq, Eq)]
pub struct OutgoingEmail<T = String, L = Vec<String>, A = Vec<AttachmentData>> {
    pub from: T,
    pub to: L,
    pub cc: L,
    pub bcc: L,
    pub subject: T,
    pub body_text: Option<T>,
    pub body_html: Option<T>,
    pub attachments: A,
    pub in_reply_to: Option<T>,
    pub references: L,
}

/// The model of a message that is to be sent.
pub type OutgoingModel = OutgoingEmail<
    Seq<char>,
    Seq<Seq<char>>,
    Seq<AttachmentData<Seq<char>, Seq<u8>>>,
>;

impl View for OutgoingEmail<String, Vec<String>, Vec<AttachmentData>> {
    type V = OutgoingModel;

    open spec fn view(&self) -> OutgoingModel {
        OutgoingEmail {
            from: self.from@,
            to: text::views(self.to@),
            cc: text::views(self.cc@),
            bcc: text::views(self.bcc@),
            subject: self.subject@,
            body_text: text::opt_view(self.body_text),
            body_html: text::opt_view(self.body_html),
            attachments: text::views(self.attachments@),
            in_reply_to: text::opt_view(self.in_reply_to),
            references: text::views(self.references@),
        }
    }
}

} // verus!
