//! Messages and their parts, and what a list shows of them.

use rust_email::client::{after_attachment, Command, First, Next};
use rust_email::mime::{
    build_email, child_prefix, collect_attachments, decode_body_part, extract_attachments,
    extract_body_html, extract_body_text, get_header, is_text_html, is_text_plain, mime_to_ext,
    parse_email, parse_references, Part,
};
use rust_email::summary::{
    build_summary, envelope_cc, envelope_from, envelope_to, format_addr, parse_flag, parse_flags,
    try_build_summary, Address, Envelope, Listed, ServerFlag,
};
use rust_email::types::{MailError, MailFlag};

fn part(mimetype: &str, body: &str, subparts: usize) -> Part {
    Part {
        headers: vec![],
        mimetype: mimetype.to_string(),
        params: vec![],
        body: Some(body.as_bytes().to_vec()),
        body_size: Some(body.len() as u64),
        subparts,
    }
}

fn with_header(mut p: Part, name: &str, value: &str) -> Part {
    p.headers.push((name.to_string(), value.to_string()));
    p
}

fn bytes(s: &str) -> Option<Vec<u8>> {
    Some(s.as_bytes().to_vec())
}

fn address(name: Option<&str>, mailbox: &str, host: &str) -> Address {
    Address {
        name: name.map(|n| n.as_bytes().to_vec()),
        mailbox: bytes(mailbox),
        host: bytes(host),
    }
}

const MULTIPART: &str = "From: A <a@x>\r\n\
To: b@x, =?UTF-8?B?5Lit5paH?= <c@x>\r\n\
Cc: d@x\r\n\
Reply-To: r@x\r\n\
Subject: =?UTF-8?B?5Lit5paH?= report\r\n\
Date: Tue, 01 Jul 2003 10:52:37 +0200\r\n\
Message-ID: <m1@x>\r\n\
In-Reply-To: <m0@x>\r\n\
References: <r1@x> <r2@x>\r\n\
MIME-Version: 1.0\r\n\
Content-Type: multipart/mixed; boundary=\"B\"\r\n\
\r\n\
--B\r\n\
Content-Type: multipart/alternative; boundary=\"C\"\r\n\
\r\n\
--C\r\n\
Content-Type: text/plain; charset=utf-8\r\n\
\r\n\
hello world\r\n\
--C\r\n\
Content-Type: text/html; charset=utf-8\r\n\
Content-Transfer-Encoding: quoted-printable\r\n\
\r\n\
<p>h=C3=A9</p>\r\n\
--C--\r\n\
--B\r\n\
Content-Type: application/pdf\r\n\
Content-Disposition: attachment; filename=\"r.pdf\"\r\n\
Content-ID: <p1>\r\n\
Content-Transfer-Encoding: base64\r\n\
\r\n\
aGVsbG8=\r\n\
--B\r\n\
Content-Type: image/png; name=pic\r\n\
\r\n\
12345\r\n\
--B\r\n\
Content-Type: text/plain\r\n\
Content-Disposition: ATTACHMENT\r\n\
\r\n\
note\r\n\
--B--\r\n";

#[test]
fn message_of_many_parts() {
    let m = parse_email(MULTIPART.as_bytes(), "INBOX", 7, vec![MailFlag::Seen]).unwrap();
    assert_eq!(m.uid, 7);
    assert_eq!(m.folder, "INBOX");
    assert_eq!(m.from, "A <a@x>");
    assert_eq!(m.to, vec!["b@x", "中文 <c@x>"]);
    assert_eq!(m.cc, vec!["d@x"]);
    assert!(m.bcc.is_empty());
    assert_eq!(m.reply_to.as_deref(), Some("r@x"));
    assert_eq!(m.subject, "中文 report");
    assert_eq!(m.date, "Tue, 01 Jul 2003 10:52:37 +0200");
    assert_eq!(m.body_text.as_deref(), Some("hello world"));
    assert_eq!(m.body_html.as_deref(), Some("<p>hé</p>"));
    assert_eq!(m.references, vec!["r1@x", "r2@x"]);
    assert_eq!(m.flags, vec![MailFlag::Seen]);
    let files: Vec<(&str, &str, u64, &str)> = m
        .attachments
        .iter()
        .map(|a| (a.filename.as_str(), a.mime_type.as_str(), a.size, a.part_id.as_str()))
        .collect();
    assert_eq!(
        files,
        vec![
            ("r.pdf", "application/pdf", 5, "2"),
            ("pic.png", "image/png", 5, "3"),
            ("part_4.txt", "text/plain", 4, "4"),
        ]
    );
    assert_eq!(m.attachments[0].content_id.as_deref(), Some("<p1>"));
    assert_eq!(m.attachments[0].transfer_encoding.as_deref(), Some("base64"));
    assert_eq!(m.attachments[1].transfer_encoding, None);
}

#[test]
fn plain_message() {
    let raw = b"Subject: s\r\n\r\nbody";
    let m = parse_email(raw, "F", 1, vec![]).unwrap();
    assert_eq!(m.subject, "s");
    assert_eq!(m.from, "");
    assert!(m.to.is_empty());
    assert_eq!(m.message_id, None);
    assert_eq!(m.body_text.as_deref(), Some("body"));
    assert_eq!(m.body_html, None);
    assert!(m.attachments.is_empty());
    assert!(m.references.is_empty());
}

#[test]
fn broken_message_is_an_error() {
    let raw = b"bad header line without colon\r\n\r\nbody";
    match (parse_email(raw, "F", 1, vec![]), mailparse::parse_mail(raw)) {
        (Err(MailError::Parse(e)), Err(outside)) => assert!(e.contains(&outside.to_string())),
        (Ok(_), Ok(_)) => {}
        (a, b) => panic!("{a:?} {}", b.is_ok()),
    }
}

#[test]
fn header_names_ignore_case() {
    let p = with_header(with_header(part("text/plain", "", 0), "sUbject", "1"), "Subject", "2");
    assert_eq!(get_header(&p, "SUBJECT").as_deref(), Some("1"));
    assert_eq!(get_header(&p, "To"), None);
}

#[test]
fn kinds_of_text() {
    assert!(is_text_plain(&part("Text/Plain", "", 0)));
    assert!(!is_text_plain(&part("text/html", "", 0)));
    assert!(is_text_html(&part("TEXT/HTML", "", 0)));
    assert!(!is_text_html(&part("text/htm", "", 0)));
}

#[test]
fn body_by_its_declared_charset() {
    let mut p = part("text/plain", "", 0);
    p.body = Some(b"\xd6\xd0".to_vec());
    p.params = vec![("CharSet".to_string(), "gbk".to_string())];
    assert_eq!(decode_body_part(&p).as_deref(), Some("中"));
    p.body = None;
    assert_eq!(decode_body_part(&p), None);
}

#[test]
fn first_text_in_depth_counts() {
    let parts = vec![
        part("multipart/mixed", "", 2),
        part("multipart/alternative", "", 2),
        part("text/html", "<b>", 0),
        part("text/plain", "one", 0),
        part("text/plain", "two", 0),
    ];
    assert_eq!(extract_body_text(&parts).as_deref(), Some("one"));
    assert_eq!(extract_body_html(&parts).as_deref(), Some("<b>"));
    assert_eq!(extract_body_html(&vec![part("text/plain", "x", 0)]), None);
}

#[test]
fn unreadable_text_ends_the_search_on_its_level() {
    let mut bad = part("text/plain", "", 0);
    bad.body = None;
    let parts = vec![part("multipart/mixed", "", 2), bad.clone(), part("text/plain", "two", 0)];
    assert_eq!(extract_body_text(&parts), None);
    let deep = vec![
        part("multipart/mixed", "", 2),
        part("multipart/alternative", "", 1),
        bad,
        part("text/plain", "two", 0),
    ];
    assert_eq!(extract_body_text(&deep).as_deref(), Some("two"));
}

#[test]
fn numbers_of_parts() {
    assert_eq!(child_prefix("", 0), "1");
    assert_eq!(child_prefix("", 9), "10");
    assert_eq!(child_prefix("2.1", 3), "2.1.4");
}

#[test]
fn attachments_have_names_with_extensions() {
    let parts = vec![
        part("multipart/mixed", "", 4),
        part("text/plain", "inline", 0),
        with_header(part("application/zip", "zz", 0), "Content-Disposition", "attachment; filename=a"),
        with_header(part("image/jpeg", "j", 0), "content-type", "image/jpeg; name=\"p.jpeg\""),
        part("x/unknown", "u", 0),
    ];
    let files = extract_attachments(&parts);
    let names: Vec<&str> = files.iter().map(|a| a.filename.as_str()).collect();
    assert_eq!(names, vec!["a.zip", "p.jpeg", "part_4.bin"]);
    for name in names {
        assert!(name.contains('.'));
    }
    let ids: Vec<&str> = files.iter().map(|a| a.part_id.as_str()).collect();
    assert_eq!(ids, vec!["2", "3", "4"]);
}

#[test]
fn attachments_are_told_apart_by_their_numbers() {
    let file = |name: &str| {
        with_header(
            part("application/zip", "zz", 0),
            "Content-Disposition",
            &format!("attachment; filename={name}"),
        )
    };
    let parts = vec![
        part("multipart/mixed", "", 3),
        part("multipart/mixed", "", 2),
        file("same.zip"),
        file("same.zip"),
        part("text/plain", "inline", 0),
        part("multipart/related", "", 1),
        file("same.zip"),
    ];
    let files = extract_attachments(&parts);
    let ids: Vec<&str> = files.iter().map(|a| a.part_id.as_str()).collect();
    assert_eq!(ids, vec!["1.1", "1.2", "3.1"]);
    for (i, one) in ids.iter().enumerate() {
        for other in &ids[i + 1..] {
            assert_ne!(one, other);
        }
    }
    let places: Vec<Vec<u32>> = vec![vec![1, 1], vec![1, 2], vec![3, 1]];
    for (id, place) in ids.iter().zip(places) {
        match after_attachment(7, id, &First::Found(())) {
            Next::Send(Command::Section(asked)) => assert_eq!(asked, place),
            _ => panic!("{id}"),
        }
    }
}

#[test]
fn attachments_below_a_part() {
    let parts = vec![
        part("multipart/mixed", "", 2),
        part("application/pdf", "p", 0),
        part("multipart/mixed", "", 1),
        part("application/zip", "z", 0),
    ];
    let mut files = vec![];
    collect_attachments(&parts, 0, "2.5", &mut files);
    let ids: Vec<&str> = files.iter().map(|a| a.part_id.as_str()).collect();
    assert_eq!(ids, vec!["2.5.1", "2.5.2.1"]);
    let mut files = vec![];
    collect_attachments(&parts, 1, "x", &mut files);
    assert_eq!(files[0].part_id, "x");
}

#[test]
fn attachment_alone() {
    let files = extract_attachments(&vec![part("application/pdf", "p", 0)]);
    assert_eq!(files.len(), 1);
    assert_eq!(files[0].filename, "part_.pdf");
    assert_eq!(files[0].part_id, "");
    let mut unread = part("application/pdf", "p", 0);
    unread.body_size = None;
    assert_eq!(extract_attachments(&vec![unread])[0].size, 0);
}

#[test]
fn extensions() {
    assert_eq!(mime_to_ext("Application/PDF"), "pdf");
    assert_eq!(mime_to_ext("image/svg+xml"), "svg");
    assert_eq!(mime_to_ext("text/xml"), "xml");
    assert_eq!(mime_to_ext("application/vnd.ms-excel"), "xls");
    assert_eq!(mime_to_ext("x/y"), "bin");
}

#[test]
fn references_lose_their_brackets() {
    let p = with_header(part("text/plain", "", 0), "References", "<a@x>\t<<b@x>>  c@x");
    assert_eq!(parse_references(&p), vec!["a@x", "b@x", "c@x"]);
    assert!(parse_references(&part("text/plain", "", 0)).is_empty());
}

#[test]
fn message_from_given_parts() {
    let p = with_header(part("text/plain", "body", 0), "From", "me");
    let m = build_email(&vec![p], "F", 3, vec![]);
    assert_eq!((m.uid, m.from.as_str(), m.folder.as_str()), (3, "me", "F"));
    assert_eq!(m.body_text.as_deref(), Some("body"));
}

#[test]
fn flags_of_the_server() {
    assert_eq!(parse_flag(&ServerFlag::MayCreate), MailFlag::Custom("\\*".to_string()));
    assert_eq!(
        parse_flags(&vec![
            ServerFlag::Seen,
            ServerFlag::Answered,
            ServerFlag::Flagged,
            ServerFlag::Deleted,
            ServerFlag::Draft,
            ServerFlag::Recent,
            ServerFlag::Custom("$Work".to_string()),
        ]),
        vec![
            MailFlag::Seen,
            MailFlag::Answered,
            MailFlag::Flagged,
            MailFlag::Deleted,
            MailFlag::Draft,
            MailFlag::Recent,
            MailFlag::Custom("$Work".to_string()),
        ]
    );
}

#[test]
fn addresses_in_envelopes() {
    assert_eq!(format_addr(&address(Some("=?UTF-8?B?5Lit?="), "a", "x")), "中 <a@x>");
    assert_eq!(format_addr(&address(None, "a", "x")), "a@x");
    assert_eq!(format_addr(&address(Some(""), "a", "x")), "a@x");
    assert_eq!(format_addr(&address(Some("Group"), "", "x")), "Group");
    assert_eq!(format_addr(&Address { name: None, mailbox: None, host: None }), "");
    let e = Envelope {
        date: None,
        subject: None,
        from: Some(vec![address(None, "a", "x"), address(Some("B"), "b", "y")]),
        to: Some(vec![]),
        cc: Some(vec![]),
        message_id: None,
    };
    assert_eq!(envelope_from(&Some(e.clone())).as_deref(), Some("a@x, B <b@y>"));
    assert_eq!(envelope_to(&Some(e.clone())), None);
    assert_eq!(envelope_cc(&Some(e.clone())), None);
    let none = Address { name: None, mailbox: None, host: None };
    let blank = Envelope { to: Some(vec![none.clone()]), cc: Some(vec![none]), ..e };
    assert_eq!(envelope_to(&Some(blank.clone())), None);
    assert_eq!(envelope_cc(&Some(blank)).as_deref(), Some(""));
    assert_eq!(envelope_from(&None), None);
}

#[test]
fn summary_by_envelope() {
    let item = Listed {
        uid: Some(9),
        size: Some(1234),
        flags: vec![ServerFlag::Seen],
        envelope: Some(Envelope {
            date: bytes("D"),
            subject: bytes("=?UTF-8?B?5Lit5paH?="),
            from: Some(vec![address(Some("A"), "a", "x")]),
            to: Some(vec![address(None, "b", "x")]),
            cc: None,
            message_id: bytes("<m>"),
        }),
        header: None,
    };
    let s = build_summary(&item);
    assert_eq!((s.uid, s.size, s.has_attachments), (9, 1234, false));
    assert_eq!(s.subject, "中文");
    assert_eq!(s.from, "A <a@x>");
    assert_eq!(s.to, "b@x");
    assert_eq!(s.cc, None);
    assert_eq!(s.date, "D");
    assert_eq!(s.message_id.as_deref(), Some("<m>"));
    assert_eq!(s.flags, vec![MailFlag::Seen]);
    assert_eq!(try_build_summary(&item), Some(s));
}

#[test]
fn summary_by_header_fields() {
    let header = "From: a@x\r\nTo: b@x\r\nCC: c@x\r\nSubject: =?UTF-8?B?5Lit?=\r\n\
                  Date: D\r\nMessage-ID: <m>\r\n";
    let item = Listed { uid: None, size: None, flags: vec![], envelope: None, header: bytes(header) };
    let s = build_summary(&item);
    assert_eq!((s.uid, s.size), (0, 0));
    assert_eq!((s.from.as_str(), s.to.as_str(), s.cc.as_deref()), ("a@x", "b@x", Some("c@x")));
    assert_eq!(s.subject, "=?UTF-8?B?5Lit?=");
    assert_eq!((s.date.as_str(), s.message_id.as_deref()), ("D", Some("<m>")));
    let empty = Listed { header: None, ..item };
    let s = build_summary(&empty);
    assert_eq!((s.from.as_str(), s.to.as_str(), s.subject.as_str()), ("", "", ""));
    assert_eq!((s.cc, s.message_id), (None, None));
}

#[test]
fn summary_that_cannot_be_read() {
    let item = Listed {
        uid: Some(1),
        size: None,
        flags: vec![],
        envelope: Some(Envelope {
            date: None,
            subject: bytes("=?UTF-8?Q?é=é1?="),
            from: None,
            to: None,
            cc: None,
            message_id: None,
        }),
        header: None,
    };
    assert_eq!(try_build_summary(&item), None);
}
