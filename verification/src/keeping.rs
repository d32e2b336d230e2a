//! What is kept: the columns of accounts, folders and messages, how passwords are kept, and what is
//! read back of them.

use vstd::prelude::*;

use crate::codec;
use crate::header;
use crate::store;
use crate::store::{
    AccountRowModel, AttachmentRowModel, EmailRowModel, FolderRowModel, StoreError, SummaryRowModel,
};
use crate::text;
use crate::text::Sep;
use crate::types::{AttachmentMeta, EmailModel, NewAccount, SecurityMode, SummaryModel};
use crate::vault;
use crate::vault::{PasswordError, VaultError};

verus! {

broadcast use vstd::string::group_string_axioms;

/// Each kind of security has its own notation, and what has another notation is TLS.
pub proof fn securities_have_their_notation(s: Seq<char>)
    ensures
        store::security_text(SecurityMode::Tls) == "tls"@,
        store::security_text(SecurityMode::StartTls) == "start_tls"@,
        store::security_text(SecurityMode::Unencrypted) == "none"@,
        store::security_of("tls"@) == SecurityMode::Tls,
        store::security_of("start_tls"@) == SecurityMode::StartTls,
        store::security_of("none"@) == SecurityMode::Unencrypted,
        s != "start_tls"@ && s != "none"@ ==> store::security_of(s) == SecurityMode::Tls,
{
    reveal_strlit("tls");
    reveal_strlit("start_tls");
    reveal_strlit("none");
    assert("tls"@.len() == 3 && "start_tls"@.len() == 9 && "none"@.len() == 4);
}

/// Each part of an account has its own column. The password is never among them as it is: its own
/// column is empty.
pub proof fn account_has_its_columns(account: NewAccount<Seq<char>>, encrypted: Seq<char>)
    ensures
        ({
            let row = store::row_of(account, encrypted);
            &&& row.email == account.email
            &&& row.display_name == account.display_name
            &&& row.username == account.config.username
            &&& row.password.len() == 0
            &&& row.password_encrypted == Some(encrypted)
            &&& row.imap_host == account.config.imap_host
            &&& row.imap_port == account.config.imap_port
            &&& row.smtp_host == account.config.smtp_host
            &&& row.smtp_port == account.config.smtp_port
            &&& account.config.security == SecurityMode::Tls ==> row.security_mode == "tls"@
            &&& account.config.security == SecurityMode::StartTls ==> row.security_mode
                == "start_tls"@
            &&& account.config.security == SecurityMode::Unencrypted ==> row.security_mode
                == "none"@
        }),
{
}

/// Each part of an account is read from its own column, and its password is the one that is kept
/// encrypted; only where none is, it is the plain one.
pub proof fn account_is_read_from_its_columns(
    id: i64,
    row: AccountRowModel,
    key: Option<Seq<u8>>,
)
    requires
        0 <= row.imap_port <= 65535,
        0 <= row.smtp_port <= 65535,
    ensures
        store::account_of(id, row, key) matches Ok(a) ==> {
            &&& a.id == id
            &&& a.email == row.email
            &&& a.display_name == row.display_name
            &&& a.config.imap_host == row.imap_host
            &&& a.config.imap_port == row.imap_port
            &&& a.config.smtp_host == row.smtp_host
            &&& a.config.smtp_port == row.smtp_port
            &&& a.config.username == row.username
            &&& row.security_mode == "start_tls"@ ==> a.config.security == SecurityMode::StartTls
            &&& row.security_mode == "none"@ ==> a.config.security == SecurityMode::Unencrypted
            &&& row.security_mode == "tls"@ ==> a.config.security == SecurityMode::Tls
        },
        row.password_encrypted is Some && row.password_encrypted->Some_0.len() > 0 ==> match vault::unkept(
            key,
            row.password_encrypted->Some_0,
        ) {
            Ok(p) => store::account_of(id, row, key) matches Ok(a) && a.config.password == p,
            Err(e) => store::account_of(id, row, key) matches Err(w) && w == StoreError::Vault(e),
        },
        row.password_encrypted is None || row.password_encrypted->Some_0.len() == 0
            ==> (store::account_of(id, row, key) matches Ok(a) && a.config.password == row.password),
{
    securities_have_their_notation(row.security_mode);
}

/// A password that was stored as it is is known by its column, and once it is kept encrypted that
/// column is empty, and all the others are what they were.
pub proof fn plain_password_is_found_and_taken_out(row: AccountRowModel, encrypted: Seq<char>)
    ensures
        store::holds_plaintext(row) <==> row.password.len() > 0 && (row.password_encrypted is None
            || row.password_encrypted->Some_0.len() == 0),
        ({
            let r = store::protected(row, encrypted);
            &&& r.password.len() == 0
            &&& r.password_encrypted == Some(encrypted)
            &&& r.email == row.email && r.display_name == row.display_name
            &&& r.username == row.username
            &&& r.imap_host == row.imap_host && r.imap_port == row.imap_port
            &&& r.smtp_host == row.smtp_host && r.smtp_port == row.smtp_port
            &&& r.security_mode == row.security_mode
        }),
{
}

/// Each part of a summary has its own column: the lists as lists, the size as far as a column can say
/// it.
pub proof fn summary_has_its_columns(m: SummaryModel)
    ensures
        ({
            let row = store::summary_row(m);
            &&& row.uid == m.uid
            &&& row.message_id == m.message_id
            &&& row.sender == m.from
            &&& row.recipients == store::json_text(header::addresses(m.to))
            &&& m.cc is Some ==> row.cc == store::json_text(header::addresses(m.cc->Some_0))
            &&& m.cc is None ==> row.cc == store::json_text(seq![])
            &&& row.subject == m.subject
            &&& row.sent_at == Some(m.date)
            &&& m.size <= i64::MAX ==> row.size == m.size
            &&& m.size > i64::MAX ==> row.size == i64::MAX
            &&& row.flags == m.flags
            &&& row.has_attachments == m.has_attachments
        }),
{
}

/// Each part of a summary is read from its own column, and its lists are written with commas.
pub proof fn summary_is_read_from_its_columns(
    row: SummaryRowModel,
    to: Seq<Seq<char>>,
    cc: Seq<Seq<char>>,
)
    requires
        0 <= row.uid <= u32::MAX,
    ensures
        store::json_list(row.recipients) == Some(to) && store::json_list(row.cc) == Some(cc)
            ==> (store::row_summary(row) matches Ok(m) && {
            &&& m.uid == row.uid
            &&& m.message_id == row.message_id
            &&& m.from == row.sender
            &&& m.to == text::joined(to, ", "@)
            &&& cc.len() > 0 ==> m.cc == Some(text::joined(cc, ", "@))
            &&& cc.len() == 0 ==> m.cc is None
            &&& m.subject == row.subject
            &&& row.sent_at is Some ==> m.date == row.sent_at->Some_0
            &&& row.sent_at is None ==> m.date.len() == 0
            &&& row.size >= 0 ==> m.size == row.size
            &&& row.size < 0 ==> m.size == 0
            &&& m.flags == row.flags
            &&& m.has_attachments == row.has_attachments
        }),
        store::json_list(row.recipients) is None || store::json_list(row.cc) is None
            ==> store::row_summary(row) is Err,
{
}

/// Each part of a message has its own column; recipients, copies and hidden copies are told apart.
pub proof fn message_has_its_columns(m: EmailModel)
    ensures
        ({
            let row = store::email_row(m);
            &&& row.uid == m.uid
            &&& row.message_id == m.message_id
            &&& row.sender == m.from
            &&& row.recipients == store::json_text(m.to)
            &&& row.cc == store::json_text(m.cc)
            &&& row.bcc == store::json_text(m.bcc)
            &&& row.reply_to == m.reply_to
            &&& row.subject == m.subject
            &&& row.sent_at == Some(m.date)
            &&& row.flags == m.flags
            &&& row.has_attachments <==> m.attachments.len() > 0
            &&& row.body_text == m.body_text
            &&& row.body_html == m.body_html
            &&& row.in_reply_to == m.in_reply_to
            &&& row.references == store::json_text(m.references)
        }),
{
}

/// Each part of a message is read from its own column.
pub proof fn message_is_read_from_its_columns(
    row: EmailRowModel,
    folder: Seq<char>,
    attachments: Seq<AttachmentMeta<Seq<char>>>,
)
    requires
        0 <= row.uid <= u32::MAX,
    ensures
        store::row_email(row, folder, attachments) matches Ok(m) ==> {
            &&& m.uid == row.uid
            &&& m.folder == folder
            &&& m.message_id == row.message_id
            &&& m.from == row.sender
            &&& store::json_list(row.recipients) == Some(m.to)
            &&& store::json_list(row.cc) == Some(m.cc)
            &&& store::json_list(row.bcc) == Some(m.bcc)
            &&& m.reply_to == row.reply_to
            &&& m.subject == row.subject
            &&& row.sent_at is Some ==> m.date == row.sent_at->Some_0
            &&& row.sent_at is None ==> m.date.len() == 0
            &&& m.body_text == row.body_text
            &&& m.body_html == row.body_html
            &&& m.attachments == attachments
            &&& m.in_reply_to == row.in_reply_to
            &&& store::json_list(row.references) == Some(m.references)
            &&& m.flags == row.flags
        },
        store::row_email(row, folder, attachments) is Ok <==> store::json_list(row.recipients)
            is Some && store::json_list(row.cc) is Some && store::json_list(row.bcc) is Some
            && store::json_list(row.references) is Some,
{
}

/// Each part of an attachment has its own column, and is read from it.
pub proof fn attachment_has_its_columns(
    a: AttachmentMeta<Seq<char>>,
    row: AttachmentRowModel,
)
    ensures
        ({
            let r = store::attachment_row(a);
            &&& r.filename == a.filename
            &&& r.mime_type == a.mime_type
            &&& a.size <= i64::MAX ==> r.size == a.size
            &&& r.content_id == a.content_id
            &&& r.part_id == a.part_id
            &&& r.transfer_encoding == a.transfer_encoding
        }),
        ({
            let b = store::attachment_of(row);
            &&& b.filename == row.filename
            &&& b.mime_type == row.mime_type
            &&& row.size >= 0 ==> b.size == row.size
            &&& b.content_id == row.content_id
            &&& b.part_id == row.part_id
            &&& b.transfer_encoding == row.transfer_encoding
        }),
{
}

/// Each part of a folder is read from its own column.
pub proof fn folder_is_read_from_its_columns(row: FolderRowModel)
    ensures
        store::folder_of(row) matches Ok(f) ==> f.name == row.name && f.delimiter == row.delimiter
            && store::json_list(row.attributes) == Some(f.attributes),
        store::folder_of(row) is Ok <==> store::json_list(row.attributes) is Some,
{
}

/// A password is kept as the mark of this version, the nonce and what it was sealed to, with colons
/// between them, and never as it is.
pub proof fn password_is_kept_sealed(key: Seq<u8>, nonce: Seq<u8>, password: Seq<char>)
    ensures
        match vault::sealed(key, nonce, vstd::utf8::encode_utf8(password)) {
            Some(c) => vault::kept(key, nonce, password) == Ok::<Seq<char>, VaultError>(
                "v1:"@ + codec::base64_text(nonce) + ":"@ + codec::base64_text(c),
            ),
            None => vault::kept(key, nonce, password) == Err::<Seq<char>, VaultError>(
                VaultError::EncryptionFailed,
            ),
        },
{
}

/// What was kept is opened by the nonce and the key that sealed it: the password comes back where the
/// parts can be read, there is a key, and it opens them; and every fault has its own error.
pub proof fn kept_password_is_opened(
    key: Seq<u8>,
    nonce_text: Seq<char>,
    data_text: Seq<char>,
)
    requires
        !nonce_text.contains(':'),
        !data_text.contains(':'),
    ensures
        ({
            let value = "v1:"@ + nonce_text + ":"@ + data_text;
            let nonce = codec::base64_bytes(vstd::utf8::encode_utf8(nonce_text));
            let data = codec::base64_bytes(vstd::utf8::encode_utf8(data_text));
            let r = vault::unkept(Some(key), value);
            &&& nonce is None ==> r == Err::<Seq<char>, VaultError>(VaultError::InvalidBase64)
            &&& nonce is Some && nonce->Some_0.len() != 12 ==> r == Err::<Seq<char>, VaultError>(
                VaultError::InvalidNonce,
            )
            &&& nonce is Some && nonce->Some_0.len() == 12 && data is None ==> r == Err::<
                Seq<char>,
                VaultError,
            >(VaultError::InvalidBase64)
            &&& nonce is Some && nonce->Some_0.len() == 12 && data is Some ==> match vault::opened(
                key,
                nonce->Some_0,
                data->Some_0,
            ) {
                None => r == Err::<Seq<char>, VaultError>(VaultError::DecryptionFailed),
                Some(m) => if vstd::utf8::valid_utf8(m) {
                    r == Ok::<Seq<char>, VaultError>(vstd::utf8::decode_utf8(m))
                } else {
                    r == Err::<Seq<char>, VaultError>(VaultError::InvalidText)
                },
            }
            &&& vault::unkept(None, value) == Err::<Seq<char>, VaultError>(VaultError::KeyMissing)
        }),
{
    reveal_strlit("v1:");
    reveal_strlit("v1");
    reveal_strlit(":");
    let sep = Sep::Char(':');
    let value = "v1:"@ + nonce_text + ":"@ + data_text;
    assert(text::unparted("v1"@, sep));
    assert(text::unparted(nonce_text, sep));
    assert(text::unparted(data_text, sep));
    assert(value =~= "v1"@.push(':') + (nonce_text.push(':') + data_text));
    text::pieces_of_more("v1"@, ':', nonce_text.push(':') + data_text, sep);
    text::pieces_of_more(nonce_text, ':', data_text, sep);
    text::pieces_of_one(data_text, sep);
    assert(seq!["v1"@] + (seq![nonce_text] + seq![data_text]) =~= seq![
        "v1"@,
        nonce_text,
        data_text,
    ]);
}

/// A new master password is taken if it is repeated and has at least four bytes; else it is said what
/// is wrong.
pub proof fn new_passwords_are_tested(password: Seq<char>, confirm: Seq<char>)
    ensures
        password != confirm ==> vault::new_password(password, confirm) == Err::<(), PasswordError>(
            PasswordError::Different,
        ),
        password == confirm && header::byte_len(password) < 4 ==> vault::new_password(
            password,
            confirm,
        ) == Err::<(), PasswordError>(PasswordError::Short),
        password == confirm && header::byte_len(password) >= 4 ==> vault::new_password(
            password,
            confirm,
        ) is Ok,
        PasswordError::Different.text() == "两次输入的密码不一致"@,
        PasswordError::Short.text() == "密码至少需要 4 个字符"@,
{
}

/// A key file is its first thirty-two bytes, and one with fewer is none.
pub proof fn key_file_is_its_first_bytes(key: Seq<u8>, more: Seq<u8>)
    ensures
        key.len() == 32 ==> vault::key_in(key + more) == Some(key),
        key.len() < 32 ==> vault::key_in(key) is None,
{
    if key.len() == 32 {
        assert((key + more).take(32) =~= key);
    }
}

/// The bytes by which a master key is known are a nonce of twelve bytes and what the key opens by it
/// to the word that was sealed.
pub proof fn master_key_is_known_by_its_word(key: Seq<u8>, nonce: Seq<u8>, data: Seq<u8>)
    requires
        nonce.len() == 12,
    ensures
        vault::checks(key, nonce + data) <==> vault::opened(key, nonce, data) == Some(
            vstd::utf8::encode_utf8("RUST_EMAIL_MASTER_OK"@),
        ),
{
    assert((nonce + data).take(12) =~= nonce);
    assert((nonce + data).skip(12) =~= data);
}

/// The password of an account is the one that is kept sealed, if there is one, and else the plain
/// one. One that cannot be opened is no password.
pub proof fn sealed_password_comes_first(row: AccountRowModel, key: Option<Seq<u8>>, v: Seq<char>)
    ensures
        row.password_encrypted is None ==> store::row_password(row, key) == Ok::<
            Seq<char>,
            StoreError,
        >(row.password),
        row.password_encrypted == Some(v) && v.len() == 0 ==> store::row_password(row, key) == Ok::<
            Seq<char>,
            StoreError,
        >(row.password),
        row.password_encrypted == Some(v) && v.len() > 0 ==> match vault::unkept(key, v) {
            Ok(word) => store::row_password(row, key) == Ok::<Seq<char>, StoreError>(word),
            Err(e) => store::row_password(row, key) == Err::<Seq<char>, StoreError>(
                StoreError::Vault(e),
            ),
        },
{
}

/// What is wrong with a password is told.
pub proof fn wrong_passwords_are_told()
    ensures
        VaultError::EncryptionFailed.text() == "password encryption failed"@,
        VaultError::KeyMissing.text() == "password key is not initialized"@,
        VaultError::UnsupportedFormat.text() == "unsupported password format"@,
        VaultError::InvalidPassword.text() == "invalid password"@,
        VaultError::InvalidBase64.text() == "invalid base64"@,
        VaultError::InvalidNonce.text() == "invalid password nonce"@,
        VaultError::DecryptionFailed.text() == "password decryption failed"@,
        VaultError::InvalidText.text() == "invalid utf-8 sequence"@,
        PasswordError::Different.text() == "两次输入的密码不一致"@,
        PasswordError::Short.text() == "密码至少需要 4 个字符"@,
{
}

} // verus!
