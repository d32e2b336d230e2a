//! The way to a session, and what is asked of the server.

use rust_email::client::{
    after_attachment, after_folders, after_message, after_section, after_store, Command,
    Connecting, Fetched, First, MailClient, Next, Outcome, Query, Request, Stage, Streamed,
};
use rust_email::imap::{
    build_folder, build_store_query, join_uids, keep_before, mail_flag_to_imap,
    name_attr_to_string, plan_before, plan_latest, plan_new, sort_down, ListedFolder,
    NameAttribute,
};
use rust_email::summary::ServerFlag;
use rust_email::types::{AccountConfig, EmailSummary, MailError, MailFlag, SecurityMode};

fn config(security: SecurityMode) -> AccountConfig {
    AccountConfig {
        imap_host: "imap.example.com".to_string(),
        imap_port: 993,
        smtp_host: "smtp.example.com".to_string(),
        smtp_port: 465,
        username: "u@example.com".to_string(),
        password: "secret".to_string(),
        security,
    }
}

fn mail(uid: u32) -> EmailSummary {
    EmailSummary {
        uid,
        message_id: None,
        from: "a".to_string(),
        to: "b".to_string(),
        cc: None,
        subject: format!("s{uid}"),
        date: "d".to_string(),
        size: 1,
        flags: vec![],
        has_attachments: false,
    }
}

fn uids(mails: &[EmailSummary]) -> Vec<u32> {
    mails.iter().map(|m| m.uid).collect()
}

fn connected() -> MailClient {
    let c = config(SecurityMode::Tls);
    let mut client = MailClient::new();
    let mut step = client.connect(&c);
    while let Connecting::Do(stage) = step {
        step = client.connect_next(&c, stage, &Ok(()));
    }
    assert_eq!(step, Connecting::Connected);
    client
}

fn failed(e: &str) -> Result<(), String> {
    Err(e.to_string())
}

fn fetch(sequence: &str, query: &str, by_uid: bool) -> Next {
    Next::Send(Command::Fetch {
        sequence: sequence.to_string(),
        query: query.to_string(),
        by_uid,
    })
}

const ENVELOPE: &str = "(UID FLAGS RFC822.SIZE ENVELOPE)";
const FIELDS: &str =
    "(UID FLAGS RFC822.SIZE BODY.PEEK[HEADER.FIELDS (FROM TO CC SUBJECT DATE MESSAGE-ID)])";
const BASIC: &str = "(UID FLAGS RFC822.SIZE)";

#[test]
fn session_by_tls() {
    let c = config(SecurityMode::Tls);
    let mut client = MailClient::new();
    let mut stages = vec![];
    let mut step = client.connect(&c);
    while let Connecting::Do(stage) = step {
        assert!(!client.is_connected());
        stages.push(stage);
        step = client.connect_next(&c, stage, &Ok(()));
    }
    assert_eq!(
        stages,
        vec![Stage::Tcp, Stage::Handshake, Stage::Identify, Stage::Login, Stage::Inbox]
    );
    assert!(client.is_connected());
    assert_eq!(client.sending_account(), Ok(c));
}

#[test]
fn session_by_start_tls() {
    let c = config(SecurityMode::StartTls);
    let mut client = MailClient::default();
    assert_eq!(client.connect(&c), Connecting::Do(Stage::Tcp));
    assert_eq!(client.connect_next(&c, Stage::Tcp, &Ok(())), Connecting::Do(Stage::StartTls));
    assert_eq!(client.connect_next(&c, Stage::StartTls, &Ok(())), Connecting::Do(Stage::Handshake));
}

#[test]
fn name_and_password_come_after_the_handshake() {
    for security in [SecurityMode::Tls, SecurityMode::StartTls] {
        let c = config(security);
        let mut client = MailClient::new();
        let mut stages = vec![];
        let mut step = client.connect(&c);
        while let Connecting::Do(stage) = step {
            stages.push(stage);
            step = client.connect_next(&c, stage, &Ok(()));
        }
        let login = stages.iter().position(|s| *s == Stage::Login).unwrap();
        assert_eq!(stages[login - 2], Stage::Handshake);
    }
}

#[test]
fn no_session_without_protection() {
    let mut client = MailClient::new();
    assert_eq!(
        client.connect(&config(SecurityMode::Unencrypted)),
        Connecting::Failed(MailError::Connection("unencrypted IMAP not supported".to_string()))
    );
    let mut client = connected();
    let c = config(SecurityMode::Unencrypted);
    assert_eq!(client.connect(&c), Connecting::Do(Stage::Logout));
    assert!(matches!(client.connect_next(&c, Stage::Logout, &Ok(())), Connecting::Failed(_)));
    assert!(!client.is_connected());
}

#[test]
fn steps_that_fail() {
    let c = config(SecurityMode::StartTls);
    let mut client = MailClient::new();
    let cases = [
        (Stage::Tcp, MailError::Connection("TCP connect: e".to_string())),
        (Stage::StartTls, MailError::Tls("STARTTLS: e".to_string())),
        (Stage::Handshake, MailError::Tls("TLS handshake: e".to_string())),
        (Stage::Identify, MailError::Protocol("ID: e".to_string())),
        (Stage::Login, MailError::Authentication("login failed: e".to_string())),
    ];
    for (stage, error) in cases {
        assert_eq!(client.connect_next(&c, stage, &failed("e")), Connecting::Failed(error));
        assert!(!client.is_connected());
    }
    assert_eq!(client.connect_next(&c, Stage::Inbox, &failed("e")), Connecting::Connected);
    assert!(client.is_connected());
}

#[test]
fn end_of_a_session() {
    let mut client = connected();
    assert!(client.disconnect());
    assert!(!client.is_connected());
    assert_eq!(
        client.disconnected(&failed("gone")),
        Err(MailError::Protocol("logout: gone".to_string()))
    );
    assert!(client.sending_account().is_ok());
    assert_eq!(client.disconnected(&Ok(())), Ok(()));
    assert_eq!(client.sending_account(), Err(MailError::NotConnected));
    assert!(!client.disconnect());
}

#[test]
fn nothing_is_asked_without_a_session() {
    let client = MailClient::new();
    for r in [Request::ListFolders, Request::Noop, Request::Latest("INBOX".to_string(), 5)] {
        assert_eq!(r.begin(&client), Next::Fail(MailError::NotConnected));
    }
}

#[test]
fn first_commands() {
    let client = connected();
    let f = || "F".to_string();
    assert_eq!(Request::ListFolders.begin(&client), Next::Send(Command::List));
    assert_eq!(Request::CreateFolder(f()).begin(&client), Next::Send(Command::Create(f())));
    assert_eq!(Request::DeleteFolder(f()).begin(&client), Next::Send(Command::Delete(f())));
    assert_eq!(
        Request::RenameFolder(f(), "G".to_string()).begin(&client),
        Next::Send(Command::Rename(f(), "G".to_string()))
    );
    assert_eq!(
        Request::MessageCount(f()).begin(&client),
        Next::Send(Command::Status { folder: f(), items: "(MESSAGES)".to_string() })
    );
    assert_eq!(
        Request::UnreadCount(f()).begin(&client),
        Next::Send(Command::Status { folder: f(), items: "(UNSEEN)".to_string() })
    );
    assert_eq!(Request::Message(f(), 1).begin(&client), Next::Send(Command::Noop));
}

#[test]
fn folder_is_selected_whatever_the_noop_says() {
    let r = Request::Latest("F".to_string(), 5);
    let select = Next::Send(Command::Select("F".to_string()));
    assert_eq!(r.after_noop(&Ok(())), select);
    assert_eq!(r.after_noop(&failed("e")), select);
    assert_eq!(Request::Noop.after_noop(&Ok(())), Next::Finish(Outcome::Nothing));
    assert_eq!(
        Request::Noop.after_noop(&failed("e")),
        Next::Fail(MailError::Protocol("NOOP: e".to_string()))
    );
}

#[test]
fn folder_that_is_not_there() {
    let r = Request::Message("F".to_string(), 5);
    assert_eq!(
        r.after_select(&Err("no".to_string())),
        Next::Fail(MailError::FolderNotFound("select 'F': no".to_string()))
    );
}

#[test]
fn commands_in_a_folder() {
    let f = || "F".to_string();
    assert_eq!(Request::Latest(f(), 50).after_select(&Ok(120)), fetch("71:*", ENVELOPE, false));
    assert_eq!(
        Request::Latest(f(), 50).after_select(&Ok(0)),
        Next::Finish(Outcome::Summaries(vec![]))
    );
    assert_eq!(Request::Before(f(), 9, 2).after_select(&Ok(3)), fetch("5:9", ENVELOPE, true));
    assert_eq!(Request::Since(f(), 9).after_select(&Ok(3)), fetch("10:*", ENVELOPE, true));
    assert_eq!(
        Request::Message(f(), 7).after_select(&Ok(3)),
        fetch("7", "(UID FLAGS BODY[])", true)
    );
    assert_eq!(
        Request::Attachment(f(), 7, "2.1".to_string(), None).after_select(&Ok(3)),
        fetch("7", "BODY[2.1]", true)
    );
    assert_eq!(
        Request::AddFlags(f(), vec![1, 2], vec![MailFlag::Seen]).after_select(&Ok(3)),
        Next::Send(Command::Store {
            uids: "1,2".to_string(),
            query: build_store_query(true, &vec![MailFlag::Seen]),
        })
    );
    assert_eq!(
        Request::Move(f(), "G".to_string(), vec![4]).after_select(&Ok(3)),
        Next::Send(Command::Move { uids: "4".to_string(), folder: "G".to_string() })
    );
    assert_eq!(
        Request::Copy(f(), "G".to_string(), vec![4, 5]).after_select(&Ok(3)),
        Next::Send(Command::Copy { uids: "4,5".to_string(), folder: "G".to_string() })
    );
}

#[test]
fn summaries_are_asked_for_three_times_at_most() {
    let r = Request::Latest("F".to_string(), 50);
    let refused = || Streamed::Refused("e".to_string());
    let broken = || Streamed::Items(vec![mail(1)], Some("cut".to_string()));
    let header = fetch("1:9", FIELDS, false);
    assert_eq!(r.after_summaries("1:9", Query::Envelope, refused()), header);
    assert_eq!(r.after_summaries("1:9", Query::Envelope, broken()), header);
    let basic = fetch("1:9", BASIC, false);
    assert_eq!(r.after_summaries("1:9", Query::Header, refused()), basic);
    assert_eq!(r.after_summaries("1:9", Query::Header, broken()), basic);
    assert_eq!(
        r.after_summaries("1:9", Query::Basic, broken()),
        Next::Fail(MailError::Protocol("fetch: cut".to_string()))
    );
    assert_eq!(
        r.after_summaries("1:9", Query::Basic, refused()),
        Next::Fail(MailError::Protocol("FETCH: e".to_string()))
    );
    assert_eq!(
        Request::Since("F".to_string(), 1).after_summaries("2:*", Query::Basic, refused()),
        Next::Fail(MailError::Protocol("UID FETCH: e".to_string()))
    );
    match r.after_summaries("1:9", Query::Basic, Streamed::Items(vec![mail(2), mail(4)], None)) {
        Next::Finish(Outcome::Summaries(v)) => assert_eq!(uids(&v), vec![4, 2]),
        other => panic!("{other:?}"),
    }
    assert_eq!(Query::Envelope.fallback(), Some(Query::Header));
    assert_eq!(Query::Header.fallback(), Some(Query::Basic));
    assert_eq!(Query::Basic.fallback(), None);
}

#[test]
fn summaries_come_from_the_newest_down() {
    let r = Request::Latest("F".to_string(), 50);
    let all = vec![mail(3), mail(9), mail(1), mail(9)];
    match r.after_summaries("1:4", Query::Envelope, Streamed::Items(all, None)) {
        Next::Finish(Outcome::Summaries(v)) => assert_eq!(uids(&v), vec![9, 9, 3, 1]),
        other => panic!("{other:?}"),
    }
    let r = Request::Before("F".to_string(), 9, 2);
    let all = vec![mail(3), mail(9), mail(1), mail(8), mail(10)];
    match r.after_summaries("5:8", Query::Header, Streamed::Items(all, None)) {
        Next::Finish(Outcome::Summaries(v)) => assert_eq!(uids(&v), vec![8, 3]),
        other => panic!("{other:?}"),
    }
}

#[test]
fn order_keeps_equals_as_they_came() {
    let mut a = mail(5);
    a.subject = "first".to_string();
    let mut b = mail(5);
    b.subject = "second".to_string();
    let v = sort_down(vec![mail(1), a, mail(7), b], None);
    assert_eq!(uids(&v), vec![7, 5, 5, 1]);
    assert_eq!(v[1].subject, "first");
    assert_eq!(v[2].subject, "second");
    assert_eq!(uids(&keep_before(v, 7, 1)), vec![5]);
}

#[test]
fn sequences() {
    assert_eq!(plan_latest(0, 50), None);
    assert_eq!(plan_latest(10, 50), Some("1:*".to_string()));
    assert_eq!(plan_latest(120, 50), Some("71:*".to_string()));
    assert_eq!(plan_new(41), "42:*");
    assert_eq!(join_uids(&[]), "");
    assert_eq!(join_uids(&[3]), "3");
    assert_eq!(join_uids(&[3, 20, 100]), "3,20,100");
    assert_eq!(plan_latest(10, 0), None);
    assert_eq!(plan_before(100, 10), "80:100");
    assert_eq!(plan_before(5, 10), "1:5");
}

#[test]
fn flags_in_the_notation_of_the_protocol() {
    let all = [
        (MailFlag::Seen, "\\Seen"),
        (MailFlag::Answered, "\\Answered"),
        (MailFlag::Flagged, "\\Flagged"),
        (MailFlag::Deleted, "\\Deleted"),
        (MailFlag::Draft, "\\Draft"),
        (MailFlag::Recent, "\\Recent"),
        (MailFlag::Custom("$x".to_string()), "$x"),
    ];
    for (flag, text) in all {
        assert_eq!(mail_flag_to_imap(&flag), text);
    }
    assert_eq!(
        build_store_query(true, &vec![MailFlag::Seen, MailFlag::Deleted]),
        "+FLAGS (\\Seen \\Deleted)"
    );
    assert_eq!(build_store_query(false, &vec![MailFlag::Flagged]), "-FLAGS (\\Flagged)");
}

#[test]
fn folders_of_the_server() {
    let listed = ListedFolder {
        name: "INBOX".to_string(),
        delimiter: None,
        attributes: vec![NameAttribute::NoSelect, NameAttribute::Extension("\\X".to_string())],
    };
    let f = build_folder(&listed);
    assert_eq!(f.name, "INBOX");
    assert_eq!(f.attributes, vec!["\\NoSelect", "\\X"]);
    assert_eq!(name_attr_to_string(&NameAttribute::Trash), "\\Trash");
    assert_eq!(name_attr_to_string(&NameAttribute::Other("Odd".to_string())), "Odd");
    match after_folders(&Streamed::Items(vec![listed.clone()], None)) {
        Next::Finish(Outcome::Folders(v)) => assert_eq!(v, vec![f]),
        other => panic!("{other:?}"),
    }
    assert_eq!(
        after_folders(&Streamed::Refused("e".to_string())),
        Next::Fail(MailError::Protocol("LIST: e".to_string()))
    );
    assert_eq!(
        after_folders(&Streamed::Items(vec![listed], Some("e".to_string()))),
        Next::Fail(MailError::Protocol("LIST stream: e".to_string()))
    );
}

#[test]
fn changes_and_counts() {
    let f = || "F".to_string();
    assert_eq!(after_store(&Streamed::Items(vec![()], None)), Next::Finish(Outcome::Nothing));
    assert_eq!(
        after_store(&Streamed::Refused("e".to_string())),
        Next::Fail(MailError::Protocol("UID STORE: e".to_string()))
    );
    assert_eq!(
        after_store(&Streamed::Items(vec![], Some("e".to_string()))),
        Next::Fail(MailError::Protocol("STORE stream: e".to_string()))
    );
    let prefixes = [
        (Request::CreateFolder(f()), "CREATE: e"),
        (Request::DeleteFolder(f()), "DELETE: e"),
        (Request::RenameFolder(f(), f()), "RENAME: e"),
        (Request::Move(f(), f(), vec![1]), "UID MOVE: e"),
        (Request::Copy(f(), f(), vec![1]), "UID COPY: e"),
    ];
    for (r, text) in prefixes {
        assert_eq!(r.after_change(&Ok(())), Next::Finish(Outcome::Nothing));
        assert_eq!(
            r.after_change(&failed("e")),
            Next::Fail(MailError::Protocol(text.to_string()))
        );
    }
    assert_eq!(
        Request::MessageCount(f()).after_status(&Ok((9, Some(2)))),
        Next::Finish(Outcome::Count(9))
    );
    assert_eq!(
        Request::UnreadCount(f()).after_status(&Ok((9, Some(2)))),
        Next::Finish(Outcome::Count(2))
    );
    assert_eq!(
        Request::UnreadCount(f()).after_status(&Ok((9, None))),
        Next::Finish(Outcome::Count(0))
    );
    assert_eq!(
        Request::UnreadCount(f()).after_status(&Err("e".to_string())),
        Next::Fail(MailError::Protocol("STATUS: e".to_string()))
    );
}

#[test]
fn message_of_the_server() {
    let found = |body: Option<&str>, uid: Option<u32>| {
        First::Found(Fetched {
            uid,
            flags: vec![ServerFlag::Seen],
            body: body.map(|b| b.as_bytes().to_vec()),
        })
    };
    match after_message("F", 7, &found(Some("Subject: s\r\n\r\nbody"), None)) {
        Next::Finish(Outcome::Message(m)) => {
            assert_eq!((m.uid, m.subject.as_str()), (7, "s"));
            assert_eq!(m.flags, vec![MailFlag::Seen]);
        }
        other => panic!("{other:?}"),
    }
    match after_message("F", 7, &found(Some("Subject: s\r\n\r\nbody"), Some(8))) {
        Next::Finish(Outcome::Message(m)) => assert_eq!(m.uid, 8),
        other => panic!("{other:?}"),
    }
    assert_eq!(
        after_message("F", 7, &found(None, None)),
        Next::Fail(MailError::Parse("empty message body".to_string()))
    );
    assert_eq!(
        after_message("F", 7, &First::Missing),
        Next::Fail(MailError::MessageNotFound("message 7 not found in F".to_string()))
    );
    assert_eq!(
        after_message("F", 7, &First::Broken("e".to_string())),
        Next::Fail(MailError::Protocol("fetch: e".to_string()))
    );
    assert_eq!(
        after_message("F", 7, &First::Refused("e".to_string())),
        Next::Fail(MailError::Protocol("UID FETCH: e".to_string()))
    );
}

#[test]
fn attachment_of_the_server() {
    assert_eq!(
        after_attachment(7, "2.10", &First::Found(())),
        Next::Send(Command::Section(vec![2, 10]))
    );
    let error = "x".parse::<u32>().unwrap_err().to_string();
    assert_eq!(
        after_attachment(7, "2.x", &First::Found(())),
        Next::Fail(MailError::Protocol(format!("invalid part_id 2.x: {error}")))
    );
    let error = "".parse::<u32>().unwrap_err().to_string();
    assert_eq!(
        after_attachment(7, "", &First::Found(())),
        Next::Fail(MailError::Protocol(format!("invalid part_id : {error}")))
    );
    assert_eq!(
        after_attachment(7, "2", &First::Missing),
        Next::Fail(MailError::MessageNotFound("attachment 2 not found in message 7".to_string()))
    );
    assert_eq!(
        after_attachment(7, "2", &First::Refused("e".to_string())),
        Next::Fail(MailError::Protocol("UID FETCH attachment: e".to_string()))
    );
    assert_eq!(
        after_attachment(7, "2", &First::Broken("e".to_string())),
        Next::Fail(MailError::Protocol("fetch: e".to_string()))
    );
    assert_eq!(after_section(&Some(b"aGk=".to_vec()), Some("base64")), b"hi");
    assert_eq!(after_section(&Some(b"raw".to_vec()), None), b"raw");
    assert_eq!(after_section(&None, Some("base64")), b"");
}
