//! Passwords, and the rows of the store.

use aes_gcm::aead::{Aead, KeyInit};
use base64::Engine;
use rust_email::store::{
    account_from_row, account_to_row, attachment_from_row, attachment_to_row, email_from_row,
    email_to_row, folder_from_row, folder_to_row, migrate_plaintext_password, or_here,
    parent_path, security_from_str, security_to_str, split_addresses, summary_from_row,
    summary_to_row, AccountRow, StoreError,
};
use rust_email::types::{
    AccountConfig, AttachmentMeta, Email, EmailSummary, Folder, MailFlag, NewAccount, SecurityMode,
};
use rust_email::vault::{
    check_new_password, decrypt_password, derive_master_key, encrypt_password, encrypt_with,
    make_check_with, make_master_check, new_key, new_salt, read_key, read_salt,
    set_master_password, try_master_password, verify_master_key, PasswordError, VaultError,
};

const KEY: [u8; 32] = [7; 32];

fn account() -> NewAccount {
    NewAccount {
        email: "u@example.com".to_string(),
        display_name: Some("U".to_string()),
        config: AccountConfig {
            imap_host: "imap.example.com".to_string(),
            imap_port: 993,
            smtp_host: "smtp.example.com".to_string(),
            smtp_port: 465,
            username: "u@example.com".to_string(),
            password: "secret".to_string(),
            security: SecurityMode::Tls,
        },
    }
}

fn summary() -> EmailSummary {
    EmailSummary {
        uid: 1,
        message_id: None,
        from: "a".to_string(),
        to: "b".to_string(),
        cc: None,
        subject: "s".to_string(),
        date: "d".to_string(),
        size: 1,
        flags: vec![MailFlag::Seen],
        has_attachments: false,
    }
}

fn file() -> AttachmentMeta {
    AttachmentMeta {
        filename: "f.pdf".to_string(),
        mime_type: "application/pdf".to_string(),
        size: 12,
        content_id: Some("<c>".to_string()),
        part_id: "2".to_string(),
        transfer_encoding: None,
    }
}

#[test]
fn passwords_come_back() {
    for password in ["", "secret", "密码 with : colons", "v1:x:y"] {
        let kept = encrypt_password(&KEY, password).unwrap();
        assert!(kept.starts_with("v1:"));
        assert_eq!(decrypt_password(&Some(KEY), &kept), Ok(password.to_string()));
    }
    let kept = encrypt_password(&KEY, "secret").unwrap();
    assert!(!kept.contains("secret"));
    assert_ne!(kept, encrypt_password(&KEY, "secret").unwrap());
}

#[test]
fn password_in_its_notation() {
    let kept = encrypt_with(&KEY, &[0; 12], "secret").unwrap();
    let parts: Vec<&str> = kept.split(':').collect();
    assert_eq!(parts.len(), 3);
    assert_eq!(parts[0], "v1");
    assert_eq!(parts[1], "AAAAAAAAAAAAAAAA");
    assert_eq!(parts[2].len(), 32);
    assert_eq!(decrypt_password(&Some(KEY), &format!("{kept}:more")), Ok("secret".to_string()));
}

#[test]
fn passwords_that_cannot_be_read() {
    let read = |value: &str| decrypt_password(&Some(KEY), value).unwrap_err();
    assert_eq!(decrypt_password(&None, "v1:a:b"), Err(VaultError::KeyMissing));
    assert_eq!(read(""), VaultError::UnsupportedFormat);
    assert_eq!(read("v2:a:b"), VaultError::UnsupportedFormat);
    assert_eq!(read("v1"), VaultError::InvalidPassword);
    assert_eq!(read("v1:***"), VaultError::InvalidBase64);
    assert_eq!(read("v1:AAAA"), VaultError::InvalidNonce);
    assert_eq!(read("v1:AAAAAAAAAAAAAAAA"), VaultError::InvalidPassword);
    assert_eq!(read("v1:AAAAAAAAAAAAAAAA:*"), VaultError::InvalidBase64);
    assert_eq!(read("v1:AAAAAAAAAAAAAAAA:AAAA"), VaultError::DecryptionFailed);
    let kept = encrypt_with(&KEY, &[1; 12], "secret").unwrap();
    assert_eq!(
        decrypt_password(&Some([8; 32]), &kept),
        Err(VaultError::DecryptionFailed)
    );
    assert_eq!(VaultError::KeyMissing.message(), "password key is not initialized");
    assert_eq!(VaultError::EncryptionFailed.message(), "password encryption failed");
}

#[test]
fn password_that_is_no_text() {
    let nonce = [3u8; 12];
    let sealed = aes_gcm::Aes256Gcm::new(&KEY.into())
        .encrypt(aes_gcm::Nonce::from_slice(&nonce), &[0xffu8, 0xfe][..])
        .unwrap();
    let b64 = base64::engine::general_purpose::STANDARD;
    let kept = format!("v1:{}:{}", b64.encode(nonce), b64.encode(sealed));
    assert_eq!(decrypt_password(&Some(KEY), &kept), Err(VaultError::InvalidText));
}

#[test]
fn keys_and_salts_in_files() {
    assert_eq!(read_key(&[1; 31]), None);
    assert_eq!(read_key(&[1; 32]), Some([1; 32]));
    let mut long = vec![2; 32];
    long.push(9);
    assert_eq!(read_key(&long), Some([2; 32]));
    assert_eq!(read_salt(&[1; 15]), None);
    assert_eq!(read_salt(&[1; 17]), None);
    assert_eq!(read_salt(&[1; 16]), Some([1; 16]));
    assert_ne!(new_key(), new_key());
    assert_ne!(new_salt(), new_salt());
}

#[test]
fn master_key_by_argon2() {
    let mut expected = [0u8; 32];
    argon2::Argon2::default()
        .hash_password_into(b"pass", &[5; 16], &mut expected)
        .unwrap();
    assert_eq!(derive_master_key("pass", &[5; 16]), expected);
}

#[test]
fn master_key_is_known_again() {
    let check = make_master_check(&KEY);
    assert_eq!(check.len(), 12 + 20 + 16);
    assert!(verify_master_key(&KEY, &check));
    assert!(!verify_master_key(&[8; 32], &check));
    assert!(!verify_master_key(&KEY, &check[..11]));
    assert!(!verify_master_key(&KEY, &check[..40]));
    let fixed = make_check_with(&KEY, &[4; 12]);
    assert_eq!(fixed[..12], [4; 12]);
    assert!(verify_master_key(&KEY, &fixed));
}

#[test]
fn new_master_passwords() {
    assert_eq!(check_new_password("abcd", "abce"), Err(PasswordError::Different));
    assert_eq!(check_new_password("abc", "abc"), Err(PasswordError::Short));
    assert_eq!(check_new_password("abcd", "abcd"), Ok(()));
    assert_eq!(check_new_password("密码", "密码"), Ok(()));
    assert_eq!(PasswordError::Short.message(), "密码至少需要 4 个字符");
    assert_eq!(PasswordError::Different.message(), "两次输入的密码不一致");
    assert!(set_master_password("a", "b").is_err());
    let master = set_master_password("abcd", "abcd").unwrap();
    assert_eq!(try_master_password("abcd", &master.salt, &master.check), Some(master.key));
    assert_eq!(try_master_password("abce", &master.salt, &master.check), None);
}

#[test]
fn securities_come_back() {
    for s in [SecurityMode::Tls, SecurityMode::StartTls, SecurityMode::Unencrypted] {
        assert_eq!(security_from_str(security_to_str(&s)), s);
    }
    assert_eq!(security_to_str(&SecurityMode::Unencrypted), "none");
    assert_eq!(security_from_str("TLS?"), SecurityMode::Tls);
}

#[test]
fn account_in_its_row() {
    let row = account_to_row(&account(), &KEY).unwrap();
    assert_eq!(row.password, "");
    let kept = row.password_encrypted.clone().unwrap();
    assert!(kept.starts_with("v1:"));
    assert!(!kept.contains("secret"));
    assert_eq!((row.imap_port, row.smtp_port, row.security_mode.as_str()), (993, 465, "tls"));
    let back = account_from_row(5, &row, &Some(KEY)).unwrap();
    assert_eq!(back.id, 5);
    assert_eq!(back.email, account().email);
    assert_eq!(back.display_name, account().display_name);
    assert_eq!(back.config, account().config);
    let mut n = account();
    n.config.password = "new".to_string();
    let row = account_to_row(&n, &KEY).unwrap();
    assert_eq!(account_from_row(5, &row, &Some(KEY)).unwrap().config.password, "new");
    assert_eq!(
        account_from_row(5, &row, &None),
        Err(StoreError::Vault(VaultError::KeyMissing))
    );
}

#[test]
fn rows_with_plain_passwords() {
    let row = AccountRow {
        password: "open".to_string(),
        password_encrypted: None,
        imap_port: 65536 + 143,
        ..account_to_row(&account(), &KEY).unwrap()
    };
    let a = account_from_row(1, &row, &None).unwrap();
    assert_eq!((a.config.password.as_str(), a.config.imap_port), ("open", 143));
    let kept = migrate_plaintext_password(&row, &KEY).unwrap().unwrap();
    let moved =
        AccountRow { password: String::new(), password_encrypted: Some(kept), ..row.clone() };
    assert_eq!(account_from_row(1, &moved, &Some(KEY)).unwrap(), a);
    assert_eq!(migrate_plaintext_password(&moved, &KEY), Ok(None));
    let blank = AccountRow { password_encrypted: Some(String::new()), ..row.clone() };
    assert!(matches!(migrate_plaintext_password(&blank, &KEY), Ok(Some(_))));
    let none = AccountRow { password: String::new(), ..row };
    assert_eq!(migrate_plaintext_password(&none, &KEY), Ok(None));
}

#[test]
fn folder_in_its_row() {
    let f = Folder {
        name: "INBOX".to_string(),
        delimiter: "/".to_string(),
        attributes: vec!["\\Sent".to_string(), "a\"b".to_string()],
    };
    let mut row = folder_to_row(&f);
    assert_eq!(row.attributes, "[\"\\\\Sent\",\"a\\\"b\"]");
    assert_eq!(folder_from_row(&row), Ok(f));
    row.attributes = "{}".to_string();
    assert_eq!(folder_from_row(&row), Err(StoreError::InvalidList));
}

#[test]
fn addresses_of_a_summary() {
    assert_eq!(split_addresses(" a@x, ,B <b@x> "), vec!["a@x", "B <b@x>"]);
    assert!(split_addresses("").is_empty());
}

#[test]
fn summary_in_its_row() {
    let row = summary_to_row(&summary());
    assert_eq!((row.recipients.as_str(), row.cc.as_str()), ("[\"b\"]", "[]"));
    assert_eq!(summary_from_row(&row), Ok(summary()));
    let mut s = summary();
    s.to = " a@x ,b@x,, ".to_string();
    s.cc = Some("c@x".to_string());
    s.size = u64::MAX;
    let back = summary_from_row(&summary_to_row(&s)).unwrap();
    assert_eq!(back.to, "a@x, b@x");
    assert_eq!(back.cc.as_deref(), Some("c@x"));
    assert_eq!(back.size, i64::MAX as u64);
    assert_eq!(summary_from_row(&summary_to_row(&back)), Ok(back));
    let mut row = summary_to_row(&summary());
    row.sent_at = None;
    row.size = -1;
    let back = summary_from_row(&row).unwrap();
    assert_eq!((back.date.as_str(), back.size), ("", 0));
    row.recipients = "no json".to_string();
    assert_eq!(summary_from_row(&row), Err(StoreError::InvalidList));
}

#[test]
fn attachment_in_its_row() {
    assert_eq!(attachment_from_row(&attachment_to_row(&file())), file());
}

#[test]
fn message_in_its_row() {
    let mut second = file();
    second.filename = "two".to_string();
    second.size = i64::MAX as u64;
    second.content_id = Some(String::new());
    let m = Email {
        uid: 9,
        folder: "F".to_string(),
        message_id: Some("<m>".to_string()),
        from: "a".to_string(),
        to: vec!["b".to_string()],
        cc: vec![],
        bcc: vec!["c".to_string()],
        reply_to: Some(String::new()),
        date: "d".to_string(),
        subject: "s".to_string(),
        body_text: Some("t".to_string()),
        body_html: None,
        attachments: vec![file(), second],
        in_reply_to: None,
        references: vec!["r".to_string()],
        flags: vec![MailFlag::Custom("x".to_string())],
    };
    let row = email_to_row(&m);
    assert_eq!((row.bcc.as_str(), row.references.as_str()), ("[\"c\"]", "[\"r\"]"));
    assert!(row.has_attachments);
    let files = m.attachments.iter().map(|a| attachment_from_row(&attachment_to_row(a))).collect();
    assert_eq!(email_from_row(&row, "F", files), Ok(m));
    let mut bad = row.clone();
    bad.references = "x".to_string();
    assert_eq!(email_from_row(&bad, "F", vec![]), Err(StoreError::InvalidList));
}

#[test]
fn directories_of_paths() {
    assert_eq!(parent_path("a/b/c.db"), "a/b");
    assert_eq!(parent_path("/data/x.db"), "/data");
    assert_eq!(parent_path("x.db"), "");
    assert_eq!(parent_path(""), ".");
    assert_eq!(or_here(None), ".");
    assert_eq!(or_here(Some("d".to_string())), "d");
}
