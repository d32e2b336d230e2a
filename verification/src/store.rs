//! What is written to the store and read from it: accounts, folders and messages as rows of plain
//! columns.

use vstd::prelude::*;
use vstd::string::*;

use crate::header;
use crate::header::split_addr_list;
use crate::imap::FolderModel;
use crate::text;
use crate::text::{join, same, Sep};
use crate::types::{
    duplicate_all, duplicate_opt, Account, AccountConfig, AttachmentMeta, Email, EmailModel,
    EmailSummary, Folder, MailFlag, NewAccount, SecurityMode, SummaryModel,
};
use crate::vault;
use crate::vault::{decrypt_password, encrypt_password, VaultError};

verus! {

broadcast use vstd::string::group_string_axioms;

/// The notation of a security.
pub open spec fn security_text(s: SecurityMode) -> Seq<char> {
    match s {
        SecurityMode::Tls => "tls"@,
        SecurityMode::StartTls => "start_tls"@,
        SecurityMode::Unencrypted => "none"@,
    }
}

/// The security of a notation; one that is not known is TLS.
pub open spec fn security_of(s: Seq<char>) -> SecurityMode {
    if s == "start_tls"@ {
        SecurityMode::StartTls
    } else if s == "none"@ {
        SecurityMode::Unencrypted
    } else {
        SecurityMode::Tls
    }
}

/// The notation of a security.
pub fn security_to_str(s: &SecurityMode) -> (r: &'static str)
    ensures
        r@ == security_text(*s),
{
    match *s {
        SecurityMode::Tls => "tls",
        SecurityMode::StartTls => "start_tls",
        SecurityMode::Unencrypted => "none",
    }
}

/// The security of a notation; one that is not known is TLS.
pub fn security_from_str(s: &str) -> (r: SecurityMode)
    ensures
        r == security_of(s@),
{
    if same(s, "start_tls") {
        SecurityMode::StartTls
    } else if same(s, "none") {
        SecurityMode::Unencrypted
    } else {
        SecurityMode::Tls
    }
}

/// A security is read back from its notation.
pub proof fn security_reads_back(s: SecurityMode)
    ensures
        security_of(security_text(s)) == s,
{
    reveal_strlit("tls");
    reveal_strlit("start_tls");
    reveal_strlit("none");
    assert("tls"@.len() == 3 && "start_tls"@.len() == 9 && "none"@.len() == 4);
}

/// The addresses of a list with commas between them.
pub fn split_addresses(s: &str) -> (r: Vec<String>)
    ensures
        text::views(r@) == header::addresses(s@),
{
    split_addr_list(s)
}

/// The list in JSON.
pub uninterp spec fn json_text(list: Seq<Seq<char>>) -> Seq<char>;

/// The list of texts that is in JSON, if it is one.
pub uninterp spec fn json_list(s: Seq<char>) -> Option<Seq<Seq<char>>>;

/// The model of an optional list.
pub open spec fn list_view(o: Option<Vec<String>>) -> Option<Seq<Seq<char>>> {
    match o {
        Some(v) => Some(text::views(v@)),
        None => None,
    }
}

/// `serde_json::to_string`: the list in JSON, from which it is read back.
#[verifier::external_body]
fn write_json(list: &Vec<String>) -> (r: String)
    ensures
        r@ == json_text(text::views(list@)),
        json_list(r@) == Some(text::views(list@)),
{
    serde_json::to_string(list).unwrap()
}

/// `serde_json::from_str`: the list of texts, or nothing where the text is none.
#[verifier::external_body]
fn read_json(s: &str) -> (r: Option<Vec<String>>)
    ensures
        list_view(r) == json_list(s@),
{
    serde_json::from_str(s).ok()
}

/// Why a row cannot be read.
#[derive(Clone, Copy, Debug, PartialEq, Eq, Structural)]
pub enum StoreError {
    /// The password of an account cannot be kept or read.
    Vault(VaultError),
    /// A column is no list in JSON.
    InvalidList,
}

/// The row of an account; `T` is text.
#[derive(Clone, Debug, PartialEq, Eq)]
pub struct AccountRow<T = String> {
    pub email: T,
    pub display_name: Option<T>,
    pub username: T,
    pub password: T,
    pub password_encrypted: Option<T>,
    pub imap_host: T,
    pub imap_port: i64,
    pub smtp_host: T,
    pub smtp_port: i64,
    pub security_mode: T,
}

/// The model of the row of an account.
pub type AccountRowModel = AccountRow<Seq<char>>;

impl View for AccountRow<String> {
    type V = AccountRowModel;

    open spec fn view(&self) -> AccountRowModel {
        AccountRow {
            email: self.email@,
            display_name: text::opt_view(self.display_name),
            username: self.username@,
            password: self.password@,
            password_encrypted: text::opt_view(self.password_encrypted),
            imap_host: self.imap_host@,
            imap_port: self.imap_port,
            smtp_host: self.smtp_host@,
            smtp_port: self.smtp_port,
            security_mode: self.security_mode@,
        }
    }
}

/// The password of a row: the one that is kept encrypted, or else the plain one.
pub open spec fn row_password(row: AccountRowModel, key: Option<Seq<u8>>) -> Result<
    Seq<char>,
    StoreError,
> {
    match row.password_encrypted {
        Some(v) => if v.len() > 0 {
            match vault::unkept(key, v) {
                Ok(p) => Ok(p),
                Err(e) => Err(StoreError::Vault(e)),
            }
        } else {
            Ok(row.password)
        },
        None => Ok(row.password),
    }
}

/// The account of a row, under this number. Of a port the low sixteen bits count.
pub open spec fn account_of(id: i64, row: AccountRowModel, key: Option<Seq<u8>>) -> Result<
    Account<Seq<char>>,
    StoreError,
> {
    match row_password(row, key) {
        Err(e) => Err(e),
        Ok(password) => Ok(
            Account {
                id,
                email: row.email,
                display_name: row.display_name,
                config: AccountConfig {
                    imap_host: row.imap_host,
                    imap_port: row.imap_port as u16,
                    smtp_host: row.smtp_host,
                    smtp_port: row.smtp_port as u16,
                    username: row.username,
                    password,
                    security: security_of(row.security_mode),
                },
            },
        ),
    }
}

/// The row of a new account whose password is kept like this.
pub open spec fn row_of(account: NewAccount<Seq<char>>, encrypted: Seq<char>) -> AccountRowModel {
    AccountRow {
        email: account.email,
        display_name: account.display_name,
        username: account.config.username,
        password: seq![],
        password_encrypted: Some(encrypted),
        imap_host: account.config.imap_host,
        imap_port: account.config.imap_port as i64,
        smtp_host: account.config.smtp_host,
        smtp_port: account.config.smtp_port as i64,
        security_mode: security_text(account.config.security),
    }
}

/// The account under this number.
pub open spec fn numbered(id: i64, account: NewAccount<Seq<char>>) -> Account<Seq<char>> {
    Account {
        id,
        email: account.email,
        display_name: account.display_name,
        config: account.config,
    }
}

/// The model of an optional key.
pub open spec fn key_view(key: Option<[u8; 32]>) -> Option<Seq<u8>> {
    match key {
        Some(k) => Some(k@),
        None => None,
    }
}

/// The model of an account or an error.
pub open spec fn account_view(r: Result<Account, StoreError>) -> Result<
    Account<Seq<char>>,
    StoreError,
> {
    match r {
        Ok(a) => Ok(a@),
        Err(e) => Err(e),
    }
}

/// Reads the account of a row, under this number.
pub fn account_from_row(id: i64, row: &AccountRow, key: &Option<[u8; 32]>) -> (r: Result<
    Account,
    StoreError,
>)
    ensures
        account_view(r) == account_of(id, row@, key_view(*key)),
{
    let password = match &row.password_encrypted {
        Some(v) => if !v.as_str().is_empty() {
            match decrypt_password(key, v.as_str()) {
                Ok(p) => p,
                Err(e) => {
                    return Err(StoreError::Vault(e));
                },
            }
        } else {
            row.password.clone()
        },
        None => row.password.clone(),
    };
    Ok(
        Account {
            id,
            email: row.email.clone(),
            display_name: duplicate_opt(&row.display_name),
            config: AccountConfig {
                imap_host: row.imap_host.clone(),
                imap_port: row.imap_port as u16,
                smtp_host: row.smtp_host.clone(),
                smtp_port: row.smtp_port as u16,
                username: row.username.clone(),
                password,
                security: security_from_str(row.security_mode.as_str()),
            },
        },
    )
}

/// Makes the row of a new account, with its password encrypted. From the row the account is read
/// back, whatever number it gets, and the password does not stand in it.
pub fn account_to_row(account: &NewAccount, key: &[u8; 32]) -> (r: Result<AccountRow, StoreError>)
    requires
        header::byte_len(account@.config.password) <= usize::MAX / 4,
    ensures
        match r {
            Ok(row) => {
                &&& row@.password.len() == 0
                &&& row@.password_encrypted matches Some(e) && row@ == row_of(account@, e)
                    && vault::unkept(Some(key@), e) == Ok::<Seq<char>, VaultError>(
                    account@.config.password,
                ) && text::occurs(e, "v1:"@, 0)
                &&& forall|id: i64| #[trigger]
                    account_of(id, row@, Some(key@)) == Ok::<Account<Seq<char>>, StoreError>(
                        numbered(id, account@),
                    )
            },
            Err(e) => e == StoreError::Vault(VaultError::EncryptionFailed) && header::byte_len(
                account@.config.password,
            ) > vault::LONGEST_MESSAGE,
        },
{
    match encrypt_password(key, account.config.password.as_str()) {
        Err(e) => {
            proof {
                let nonce = choose|nonce: Seq<u8>|
                    nonce.len() == 12 && vault::text_view(Err::<String, VaultError>(e))
                        == #[trigger] vault::kept(key@, nonce, account@.config.password);
                assert(vault::kept(key@, nonce, account@.config.password) is Err);
            }
            Err(StoreError::Vault(e))
        },
        Ok(encrypted) => {
            let row = AccountRow {
                email: account.email.clone(),
                display_name: duplicate_opt(&account.display_name),
                username: account.config.username.clone(),
                password: String::new(),
                password_encrypted: Some(encrypted),
                imap_host: account.config.imap_host.clone(),
                imap_port: account.config.imap_port as i64,
                smtp_host: account.config.smtp_host.clone(),
                smtp_port: account.config.smtp_port as i64,
                security_mode: security_to_str(&account.config.security).to_owned(),
            };
            proof {
                assert(row@.password =~= seq![]);
                security_reads_back(account.config.security);
                reveal_strlit("v1:");
            }
            Ok(row)
        },
    }
}

/// Whether the row holds a password as it is.
pub open spec fn holds_plaintext(row: AccountRowModel) -> bool {
    row.password.len() > 0 && (row.password_encrypted matches Some(e) ==> e.len() == 0)
}

/// The row with its password kept like this.
pub open spec fn protected(row: AccountRowModel, encrypted: Seq<char>) -> AccountRowModel {
    AccountRow { password: seq![], password_encrypted: Some(encrypted), ..row }
}

/// Encrypts the password of a row that holds it as it is, and says what is to be kept in its
/// place. The account that is read from the row stays the same.
pub fn migrate_plaintext_password(row: &AccountRow, key: &[u8; 32]) -> (r: Result<
    Option<String>,
    StoreError,
>)
    requires
        header::byte_len(row@.password) <= usize::MAX / 4,
    ensures
        match r {
            Ok(Some(e)) => {
                &&& holds_plaintext(row@)
                &&& text::occurs(e@, "v1:"@, 0)
                &&& !holds_plaintext(protected(row@, e@))
                &&& forall|id: i64| #[trigger]
                    account_of(id, protected(row@, e@), Some(key@)) == account_of(
                        id,
                        row@,
                        Some(key@),
                    )
            },
            Ok(None) => !holds_plaintext(row@),
            Err(e) => holds_plaintext(row@) && e == StoreError::Vault(VaultError::EncryptionFailed)
                && header::byte_len(row@.password) > vault::LONGEST_MESSAGE,
        },
{
    let encrypted = match &row.password_encrypted {
        Some(v) => !v.as_str().is_empty(),
        None => false,
    };
    if encrypted || row.password.as_str().is_empty() {
        return Ok(None);
    }
    match encrypt_password(key, row.password.as_str()) {
        Err(e) => {
            proof {
                let nonce = choose|nonce: Seq<u8>|
                    nonce.len() == 12 && vault::text_view(Err::<String, VaultError>(e))
                        == #[trigger] vault::kept(key@, nonce, row@.password);
                assert(vault::kept(key@, nonce, row@.password) is Err);
            }
            Err(StoreError::Vault(e))
        },
        Ok(encrypted) => {
            proof {
                reveal_strlit("v1:");
            }
            Ok(Some(encrypted))
        },
    }
}

/// The row of a folder; `T` is text.
#[derive(Clone, Debug, PartialEq, Eq)]
pub struct FolderRow<T = String> {
    pub name: T,
    pub delimiter: T,
    /// The attributes in JSON.
    pub attributes: T,
}

/// The model of the row of a folder.
pub type FolderRowModel = FolderRow<Seq<char>>;

impl View for FolderRow<String> {
    type V = FolderRowModel;

    open spec fn view(&self) -> FolderRowModel {
        FolderRow {
            name: self.name@,
            delimiter: self.delimiter@,
            attributes: self.attributes@,
        }
    }
}

/// The folder of a row, if its attributes can be read.
pub open spec fn folder_of(row: FolderRowModel) -> Result<FolderModel, StoreError> {
    match json_list(row.attributes) {
        Some(attributes) => Ok(Folder { name: row.name, delimiter: row.delimiter, attributes }),
        None => Err(StoreError::InvalidList),
    }
}

/// The model of a folder or an error.
pub open spec fn folder_view(r: Result<Folder, StoreError>) -> Result<FolderModel, StoreError> {
    match r {
        Ok(f) => Ok(f@),
        Err(e) => Err(e),
    }
}

/// Makes the row of a folder, from which it is read back.
pub fn folder_to_row(folder: &Folder) -> (r: FolderRow)
    ensures
        r@ == (FolderRow {
            name: folder@.name,
            delimiter: folder@.delimiter,
            attributes: json_text(folder@.attributes),
        }),
        folder_of(r@) == Ok::<FolderModel, StoreError>(folder@),
{
    FolderRow {
        name: folder.name.clone(),
        delimiter: folder.delimiter.clone(),
        attributes: write_json(&folder.attributes),
    }
}

/// Reads the folder of a row.
pub fn folder_from_row(row: &FolderRow) -> (r: Result<Folder, StoreError>)
    ensures
        folder_view(r) == folder_of(row@),
{
    match read_json(row.attributes.as_str()) {
        Some(attributes) => Ok(
            Folder { name: row.name.clone(), delimiter: row.delimiter.clone(), attributes },
        ),
        None => Err(StoreError::InvalidList),
    }
}

/// A size as a column holds it: no more than the greatest number there is.
pub open spec fn column_size(size: u64) -> i64 {
    if size > i64::MAX {
        i64::MAX
    } else {
        size as i64
    }
}

/// The size that a column holds: no less than zero.
pub open spec fn size_in(column: i64) -> u64 {
    if column < 0 {
        0
    } else {
        column as u64
    }
}

fn to_column(size: u64) -> (r: i64)
    ensures
        r == column_size(size),
{
    if size > i64::MAX as u64 {
        i64::MAX
    } else {
        size as i64
    }
}

fn from_column(column: i64) -> (r: u64)
    ensures
        r == size_in(column),
{
    if column < 0 {
        0
    } else {
        column as u64
    }
}

/// The row of a summary; `T` is text, `F` a list of flags.
#[derive(Clone, Debug, PartialEq, Eq)]
pub struct SummaryRow<T = String, F = Vec<MailFlag>> {
    pub uid: i64,
    pub message_id: Option<T>,
    pub sender: T,
    /// The recipients in JSON.
    pub recipients: T,
    /// The recipients of copies in JSON.
    pub cc: T,
    pub subject: T,
    pub sent_at: Option<T>,
    pub size: i64,
    pub flags: F,
    pub has_attachments: bool,
}

/// The model of the row of a summary.
pub type SummaryRowModel = SummaryRow<Seq<char>, Seq<MailFlag<Seq<char>>>>;

impl View for SummaryRow<String, Vec<MailFlag>> {
    type V = SummaryRowModel;

    open spec fn view(&self) -> SummaryRowModel {
        SummaryRow {
            uid: self.uid,
            message_id: text::opt_view(self.message_id),
            sender: self.sender@,
            recipients: self.recipients@,
            cc: self.cc@,
            subject: self.subject@,
            sent_at: text::opt_view(self.sent_at),
            size: self.size,
            flags: text::views(self.flags@),
            has_attachments: self.has_attachments,
        }
    }
}

/// The recipients of copies as a list; none where there are none.
pub open spec fn copies(cc: Option<Seq<char>>) -> Seq<Seq<char>> {
    match cc {
        Some(s) => header::addresses(s),
        None => seq![],
    }
}

/// The row of a summary.
pub open spec fn summary_row(m: SummaryModel) -> SummaryRowModel {
    SummaryRow {
        uid: m.uid as i64,
        message_id: m.message_id,
        sender: m.from,
        recipients: json_text(header::addresses(m.to)),
        cc: json_text(copies(m.cc)),
        subject: m.subject,
        sent_at: Some(m.date),
        size: column_size(m.size),
        flags: m.flags,
        has_attachments: m.has_attachments,
    }
}

/// The summary with these recipients, and these of copies.
pub open spec fn summary_of(row: SummaryRowModel, to: Seq<Seq<char>>, cc: Seq<Seq<char>>) -> SummaryModel {
    EmailSummary {
        uid: row.uid as u32,
        message_id: row.message_id,
        from: row.sender,
        to: text::joined(to, ", "@),
        cc: if cc.len() == 0 {
            None
        } else {
            Some(text::joined(cc, ", "@))
        },
        subject: row.subject,
        date: match row.sent_at {
            Some(d) => d,
            None => seq![],
        },
        size: size_in(row.size),
        flags: row.flags,
        has_attachments: row.has_attachments,
    }
}

/// The summary of a row, if its lists can be read. Of the identifier the low bits count.
pub open spec fn row_summary(row: SummaryRowModel) -> Result<SummaryModel, StoreError> {
    match json_list(row.recipients) {
        None => Err(StoreError::InvalidList),
        Some(to) => match json_list(row.cc) {
            None => Err(StoreError::InvalidList),
            Some(cc) => Ok(summary_of(row, to, cc)),
        },
    }
}

/// A summary as the store gives it back: its lists are written with a comma and a space.
pub open spec fn stored_summary(m: SummaryModel) -> SummaryModel {
    EmailSummary {
        to: text::joined(header::addresses(m.to), ", "@),
        cc: if copies(m.cc).len() == 0 {
            None
        } else {
            Some(text::joined(copies(m.cc), ", "@))
        },
        size: size_in(column_size(m.size)),
        ..m
    }
}

/// The model of a summary or an error.
pub open spec fn summary_view(r: Result<EmailSummary, StoreError>) -> Result<
    SummaryModel,
    StoreError,
> {
    match r {
        Ok(m) => Ok(m@),
        Err(e) => Err(e),
    }
}

/// Makes the row of a summary, from which it is read back with its lists in order.
pub fn summary_to_row(m: &EmailSummary) -> (r: SummaryRow)
    ensures
        r@ == summary_row(m@),
        row_summary(r@) == Ok::<SummaryModel, StoreError>(stored_summary(m@)),
{
    let cc = match &m.cc {
        Some(s) => split_addresses(s.as_str()),
        None => {
            let none: Vec<String> = Vec::new();
            assert(text::views(none@) =~= seq![]);
            none
        },
    };
    assert(text::views(cc@) == copies(m@.cc));
    SummaryRow {
        uid: m.uid as i64,
        message_id: duplicate_opt(&m.message_id),
        sender: m.from.clone(),
        recipients: write_json(&split_addresses(m.to.as_str())),
        cc: write_json(&cc),
        subject: m.subject.clone(),
        sent_at: Some(m.date.clone()),
        size: to_column(m.size),
        flags: duplicate_all(&m.flags),
        has_attachments: m.has_attachments,
    }
}

fn text_or_empty(o: &Option<String>) -> (r: String)
    ensures
        r@ == (match text::opt_view(*o) {
            Some(d) => d,
            None => seq![],
        }),
{
    match o {
        Some(d) => d.clone(),
        None => {
            let none = String::new();
            assert(none@ =~= seq![]);
            none
        },
    }
}

/// Reads the summary of a row.
pub fn summary_from_row(row: &SummaryRow) -> (r: Result<EmailSummary, StoreError>)
    ensures
        summary_view(r) == row_summary(row@),
{
    let to = match read_json(row.recipients.as_str()) {
        Some(v) => v,
        None => {
            return Err(StoreError::InvalidList);
        },
    };
    let cc = match read_json(row.cc.as_str()) {
        Some(v) => v,
        None => {
            return Err(StoreError::InvalidList);
        },
    };
    Ok(
        EmailSummary {
            uid: row.uid as u32,
            message_id: duplicate_opt(&row.message_id),
            from: row.sender.clone(),
            to: join(&to, ", "),
            cc: if cc.len() == 0 {
                None
            } else {
                Some(join(&cc, ", "))
            },
            subject: row.subject.clone(),
            date: text_or_empty(&row.sent_at),
            size: from_column(row.size),
            flags: duplicate_all(&row.flags),
            has_attachments: row.has_attachments,
        },
    )
}

/// The row of a message; `T` is text, `F` a list of flags.
#[derive(Clone, Debug, PartialEq, Eq)]
pub struct EmailRow<T = String, F = Vec<MailFlag>> {
    pub uid: i64,
    pub message_id: Option<T>,
    pub sender: T,
    /// The recipients in JSON.
    pub recipients: T,
    /// The recipients of copies in JSON.
    pub cc: T,
    /// The recipients of hidden copies in JSON.
    pub bcc: T,
    pub reply_to: Option<T>,
    pub subject: T,
    pub sent_at: Option<T>,
    pub flags: F,
    pub has_attachments: bool,
    pub body_text: Option<T>,
    pub body_html: Option<T>,
    pub in_reply_to: Option<T>,
    /// The identifiers of the messages referred to in JSON.
    pub references: T,
}

/// The model of the row of a message.
pub type EmailRowModel = EmailRow<Seq<char>, Seq<MailFlag<Seq<char>>>>;

impl View for EmailRow<String, Vec<MailFlag>> {
    type V = EmailRowModel;

    open spec fn view(&self) -> EmailRowModel {
        EmailRow {
            uid: self.uid,
            message_id: text::opt_view(self.message_id),
            sender: self.sender@,
            recipients: self.recipients@,
            cc: self.cc@,
            bcc: self.bcc@,
            reply_to: text::opt_view(self.reply_to),
            subject: self.subject@,
            sent_at: text::opt_view(self.sent_at),
            flags: text::views(self.flags@),
            has_attachments: self.has_attachments,
            body_text: text::opt_view(self.body_text),
            body_html: text::opt_view(self.body_html),
            in_reply_to: text::opt_view(self.in_reply_to),
            references: self.references@,
        }
    }
}

/// The row of an attachment; `T` is text.
#[derive(Clone, Debug, PartialEq, Eq)]
pub struct AttachmentRow<T = String> {
    pub filename: T,
    pub mime_type: T,
    pub size: i64,
    pub content_id: Option<T>,
    pub part_id: T,
    pub transfer_encoding: Option<T>,
}

/// The model of the row of an attachment.
pub type AttachmentRowModel = AttachmentRow<Seq<char>>;

impl View for AttachmentRow<String> {
    type V = AttachmentRowModel;

    open spec fn view(&self) -> AttachmentRowModel {
        AttachmentRow {
            filename: self.filename@,
            mime_type: self.mime_type@,
            size: self.size,
            content_id: text::opt_view(self.content_id),
            part_id: self.part_id@,
            transfer_encoding: text::opt_view(self.transfer_encoding),
        }
    }
}

/// The row of an attachment.
pub open spec fn attachment_row(a: AttachmentMeta<Seq<char>>) -> AttachmentRowModel {
    AttachmentRow {
        filename: a.filename,
        mime_type: a.mime_type,
        size: column_size(a.size),
        content_id: a.content_id,
        part_id: a.part_id,
        transfer_encoding: a.transfer_encoding,
    }
}

/// The attachment of a row.
pub open spec fn attachment_of(row: AttachmentRowModel) -> AttachmentMeta<Seq<char>> {
    AttachmentMeta {
        filename: row.filename,
        mime_type: row.mime_type,
        size: size_in(row.size),
        content_id: row.content_id,
        part_id: row.part_id,
        transfer_encoding: row.transfer_encoding,
    }
}

/// Makes the row of an attachment.
pub fn attachment_to_row(a: &AttachmentMeta) -> (r: AttachmentRow)
    ensures
        r@ == attachment_row(a@),
{
    AttachmentRow {
        filename: a.filename.clone(),
        mime_type: a.mime_type.clone(),
        size: to_column(a.size),
        content_id: duplicate_opt(&a.content_id),
        part_id: a.part_id.clone(),
        transfer_encoding: duplicate_opt(&a.transfer_encoding),
    }
}

/// Reads the attachment of a row.
pub fn attachment_from_row(row: &AttachmentRow) -> (r: AttachmentMeta)
    ensures
        r@ == attachment_of(row@),
{
    AttachmentMeta {
        filename: row.filename.clone(),
        mime_type: row.mime_type.clone(),
        size: from_column(row.size),
        content_id: duplicate_opt(&row.content_id),
        part_id: row.part_id.clone(),
        transfer_encoding: duplicate_opt(&row.transfer_encoding),
    }
}

/// An attachment is read back from its row, unless it is larger than a column can say.
pub proof fn attachment_reads_back(a: AttachmentMeta<Seq<char>>)
    ensures
        a.size <= i64::MAX ==> attachment_of(attachment_row(a)) == a,
        a.size > i64::MAX ==> attachment_of(attachment_row(a)).size == i64::MAX,
{
}

/// The row of a message.
pub open spec fn email_row(m: EmailModel) -> EmailRowModel {
    EmailRow {
        uid: m.uid as i64,
        message_id: m.message_id,
        sender: m.from,
        recipients: json_text(m.to),
        cc: json_text(m.cc),
        bcc: json_text(m.bcc),
        reply_to: m.reply_to,
        subject: m.subject,
        sent_at: Some(m.date),
        flags: m.flags,
        has_attachments: m.attachments.len() > 0,
        body_text: m.body_text,
        body_html: m.body_html,
        in_reply_to: m.in_reply_to,
        references: json_text(m.references),
    }
}

/// The message of a row, if its lists can be read. Of the identifier the low bits count.
pub open spec fn row_email(
    row: EmailRowModel,
    folder: Seq<char>,
    attachments: Seq<AttachmentMeta<Seq<char>>>,
) -> Result<EmailModel, StoreError> {
    if json_list(row.recipients) is None || json_list(row.cc) is None || json_list(row.bcc) is None
        || json_list(row.references) is None {
        Err(StoreError::InvalidList)
    } else {
        Ok(
            Email {
                uid: row.uid as u32,
                folder,
                message_id: row.message_id,
                from: row.sender,
                to: json_list(row.recipients)->Some_0,
                cc: json_list(row.cc)->Some_0,
                bcc: json_list(row.bcc)->Some_0,
                reply_to: row.reply_to,
                date: match row.sent_at {
                    Some(d) => d,
                    None => seq![],
                },
                subject: row.subject,
                body_text: row.body_text,
                body_html: row.body_html,
                attachments,
                in_reply_to: row.in_reply_to,
                references: json_list(row.references)->Some_0,
                flags: row.flags,
            },
        )
    }
}

/// The model of a message or an error.
pub open spec fn email_view(r: Result<Email, StoreError>) -> Result<EmailModel, StoreError> {
    match r {
        Ok(m) => Ok(m@),
        Err(e) => Err(e),
    }
}

/// What is read back of attachments from their rows.
pub open spec fn stored_attachments(all: Seq<AttachmentMeta<Seq<char>>>) -> Seq<
    AttachmentMeta<Seq<char>>,
> {
    all.map_values(|a: AttachmentMeta<Seq<char>>| attachment_of(attachment_row(a)))
}

/// Whether a column can say the size of every attachment.
pub open spec fn sizes_fit(all: Seq<AttachmentMeta<Seq<char>>>) -> bool {
    forall|i: int| 0 <= i < all.len() ==> (#[trigger] all[i]).size <= i64::MAX
}

/// A message whose row gives it back with its attachments is given back with what their rows
/// give: all of it, with the attachments in their order. That its row gives it back is what
/// `email_to_row` states of every message.
pub proof fn email_reads_back(m: EmailModel, row: EmailRowModel)
    requires
        sizes_fit(m.attachments),
        row_email(row, m.folder, m.attachments) == Ok::<EmailModel, StoreError>(m),
    ensures
        row_email(row, m.folder, stored_attachments(m.attachments)) == Ok::<
            EmailModel,
            StoreError,
        >(m),
{
    let all = m.attachments;
    assert forall|i: int| 0 <= i < all.len() implies stored_attachments(all)[i] == all[i] by {
        attachment_reads_back(all[i]);
    }
    assert(stored_attachments(all) =~= all);
}

/// Makes the row of a message. The message is read back from it and from the rows of its
/// attachments, unless one of these is larger than a column can say.
pub fn email_to_row(m: &Email) -> (r: EmailRow)
    ensures
        r@ == email_row(m@),
        row_email(r@, m@.folder, m@.attachments) == Ok::<EmailModel, StoreError>(m@),
        sizes_fit(m@.attachments) ==> row_email(
            r@,
            m@.folder,
            stored_attachments(m@.attachments),
        ) == Ok::<EmailModel, StoreError>(m@),
{
    let row = EmailRow {
        uid: m.uid as i64,
        message_id: duplicate_opt(&m.message_id),
        sender: m.from.clone(),
        recipients: write_json(&m.to),
        cc: write_json(&m.cc),
        bcc: write_json(&m.bcc),
        reply_to: duplicate_opt(&m.reply_to),
        subject: m.subject.clone(),
        sent_at: Some(m.date.clone()),
        flags: duplicate_all(&m.flags),
        has_attachments: m.attachments.len() > 0,
        body_text: duplicate_opt(&m.body_text),
        body_html: duplicate_opt(&m.body_html),
        in_reply_to: duplicate_opt(&m.in_reply_to),
        references: write_json(&m.references),
    };
    proof {
        if sizes_fit(m@.attachments) {
            email_reads_back(m@, row@);
        }
    }
    row
}

/// Reads the message of a row, which has these attachments.
pub fn email_from_row(row: &EmailRow, folder: &str, attachments: Vec<AttachmentMeta>) -> (r: Result<
    Email,
    StoreError,
>)
    ensures
        email_view(r) == row_email(row@, folder@, text::views(attachments@)),
{
    let to = read_json(row.recipients.as_str());
    let cc = read_json(row.cc.as_str());
    let bcc = read_json(row.bcc.as_str());
    let references = read_json(row.references.as_str());
    match (to, cc, bcc, references) {
        (Some(to), Some(cc), Some(bcc), Some(references)) => Ok(
            Email {
                uid: row.uid as u32,
                folder: folder.to_owned(),
                message_id: duplicate_opt(&row.message_id),
                from: row.sender.clone(),
                to,
                cc,
                bcc,
                reply_to: duplicate_opt(&row.reply_to),
                date: text_or_empty(&row.sent_at),
                subject: row.subject.clone(),
                body_text: duplicate_opt(&row.body_text),
                body_html: duplicate_opt(&row.body_html),
                attachments,
                in_reply_to: duplicate_opt(&row.in_reply_to),
                references,
                flags: duplicate_all(&row.flags),
            },
        ),
        _ => Err(StoreError::InvalidList),
    }
}

proof fn lemma_part_of(s: Seq<char>, sep: text::Sep, start: int, i: int)
    requires
        0 <= start <= i <= s.len(),
        forall|j: int| start <= j < i ==> !sep.at(#[trigger] s[j]),
    ensures
        forall|k: int|
            0 <= k < text::pieces_from(s, sep, start, i).len() ==> text::unparted(
                #[trigger] text::pieces_from(s, sep, start, i)[k],
                sep,
            ),
    decreases s.len() - i,
{
    if i < s.len() {
        if sep.at(s[i]) {
            lemma_part_of(s, sep, i + 1, i + 1);
            let first = s.subrange(start, i);
            assert(text::unparted(first, sep)) by {
                assert forall|j: int| 0 <= j < first.len() implies !sep.at(#[trigger] first[j]) by {
                    assert(first[j] == s[start + j]);
                }
            }
            let rest = text::pieces_from(s, sep, i + 1, i + 1);
            let all = text::pieces_from(s, sep, start, i);
            assert(all =~= seq![first] + rest);
            assert forall|k: int| 0 <= k < all.len() implies text::unparted(
                #[trigger] all[k],
                sep,
            ) by {
                if k > 0 {
                    assert(all[k] == rest[k - 1]);
                }
            }
        } else {
            lemma_part_of(s, sep, start, i + 1);
            assert(text::pieces_from(s, sep, start, i) == text::pieces_from(s, sep, start, i + 1));
        }
    } else {
        let last = s.subrange(start, s.len() as int);
        assert(text::unparted(last, sep)) by {
            assert forall|j: int| 0 <= j < last.len() implies !sep.at(#[trigger] last[j]) by {
                assert(last[j] == s[start + j]);
            }
        }
        let all = text::pieces_from(s, sep, start, i);
        assert(all =~= seq![last]);
        assert forall|k: int| 0 <= k < all.len() implies text::unparted(#[trigger] all[k], sep) by {
            assert(all[k] == last);
        }
    }
}

proof fn lemma_filled_entries(parts: Seq<Seq<char>>)
    requires
        forall|k: int|
            0 <= k < parts.len() ==> text::unparted(#[trigger] parts[k], text::Sep::Char(',')),
    ensures
        forall|k: int| 0 <= k < text::filled(parts).len() ==> text::entry(
            #[trigger] text::filled(parts)[k],
            text::Sep::Char(','),
        ),
    decreases parts.len(),
{
    if parts.len() > 0 {
        let front = parts.drop_last();
        assert forall|k: int| 0 <= k < front.len() implies text::unparted(
            #[trigger] front[k],
            text::Sep::Char(','),
        ) by {
            assert(front[k] == parts[k]);
        }
        lemma_filled_entries(front);
        let s = parts.last();
        assert(text::unparted(s, text::Sep::Char(',')));
        let t = text::trimmed(s);
        text::trimmed_ends(s);
        let a = text::skip_space(s, 0);
        text::lemma_skip_space(s, 0);
        text::lemma_drop_space(s, a, s.len() as int);
        assert forall|j: int| 0 <= j < t.len() implies !text::Sep::Char(',').at(
            #[trigger] t[j],
        ) by {
            assert(t[j] == s[a + j]);
        }
        let all = text::filled(parts);
        let rest = text::filled(front);
        assert forall|k: int| 0 <= k < all.len() implies text::entry(
            #[trigger] all[k],
            text::Sep::Char(','),
        ) by {
            if k < rest.len() {
                assert(all[k] == rest[k]);
            } else {
                assert(all[k] == t);
            }
        }
    }
}

/// The addresses of a list are entries.
pub proof fn addresses_are_entries(s: Seq<char>, k: int)
    requires
        0 <= k < header::addresses(s).len(),
    ensures
        text::entry(header::addresses(s)[k], text::Sep::Char(',')),
{
    lemma_part_of(s, text::Sep::Char(','), 0, 0);
    lemma_filled_entries(text::pieces(s, text::Sep::Char(',')));
}

/// A list of addresses that is written with commas and spaces is read back.
pub proof fn addresses_read_back(s: Seq<char>)
    ensures
        header::addresses(text::joined(header::addresses(s), ", "@)) == header::addresses(s),
{
    reveal_strlit(", ");
    let list = header::addresses(s);
    let sep = text::Sep::Char(',');
    assert forall|k: int| 0 <= k < list.len() implies text::entry(#[trigger] list[k], sep) by {
        addresses_are_entries(s, k);
    }
    assert(", "@ =~= seq![',', ' ']);
    text::list_reads_back(list, ',', sep);
}

/// What the store gives back of a summary it gives back again, if it is stored again.
pub proof fn stored_once(m: SummaryModel)
    ensures
        stored_summary(stored_summary(m)) == stored_summary(m),
{
    addresses_read_back(m.to);
    if let Some(cc) = m.cc {
        addresses_read_back(cc);
    }
}

/// Whether this is the name of a file or a directory on every system, and no more than a name.
pub open spec fn plain_name(s: Seq<char>) -> bool {
    s.len() > 0 && s != "."@ && s != ".."@ && !s.contains('\\') && !s.contains(':')
}

/// Whether a path is made of plain names with slashes between them. One that begins with a slash
/// has at least two names.
pub open spec fn plain_path(path: Seq<char>) -> bool {
    let names = text::pieces(path, Sep::Char('/'));
    &&& plain_name(names[0]) || names[0].len() == 0 && names.len() > 2
    &&& forall|i: int| 1 <= i < names.len() ==> plain_name(#[trigger] names[i])
}

/// A path without its last name.
pub open spec fn without_name(path: Seq<char>) -> Seq<char> {
    text::joined(text::pieces(path, Sep::Char('/')).drop_last(), "/"@)
}

/// `std::path::Path::parent`: the path without its last name; the empty path has none. What else
/// can stand in a path depends on the system, and what is made of that is left open.
#[verifier::external_body]
fn directory_of(path: &str) -> (r: Option<String>)
    ensures
        path@.len() == 0 ==> r is None,
        plain_path(path@) ==> text::opt_view(r) == Some(without_name(path@)),
{
    std::path::Path::new(path).parent().map(|p| p.to_string_lossy().into_owned())
}

/// The directory, or, where there is none, the one at hand.
pub fn or_here(directory: Option<String>) -> (r: String)
    ensures
        r@ == (match text::opt_view(directory) {
            Some(d) => d,
            None => "."@,
        }),
{
    match directory {
        Some(d) => d,
        None => ".".to_owned(),
    }
}

/// The directory that holds the path, or the one at hand.
pub fn parent_path(path: &str) -> (r: String)
    ensures
        path@.len() == 0 ==> r@ == "."@,
        plain_path(path@) ==> r@ == without_name(path@),
{
    or_here(directory_of(path))
}

} // verus!
