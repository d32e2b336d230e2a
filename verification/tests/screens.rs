//! The views: what keys do in them, and what they draw.

use rust_email::account_form::{build_provider_map, find_provider, AccountForm, FormField};
use rust_email::action::{Action, Mode};
use rust_email::columns::{
    display_width, is_cjk, pad_left, pad_right, shorten_sender, truncate_cols,
};
use rust_email::compose::{build_body_lines, split_recipients, Compose};
use rust_email::dates::{format_mail_date, reformat_date};
use rust_email::flags::{has_flag, remove_flag, same_flag};
use rust_email::folder_list::FolderList;
use rust_email::keys::{Key, KeyCode};
use rust_email::mail_list::{build_items, MailList};
use rust_email::mail_view::{decode_html_entities, MailView};
use rust_email::status_bar::{right_hint_width, StatusBar};
use rust_email::types::{
    AttachmentData, AttachmentMeta, Email, EmailSummary, Folder, MailFlag,
};
use rust_email::ui::{
    split_across, split_down, Area, Content, Drawn, Line, ListState, Room, Tint,
};
use rust_email::utils::{folder_display_name, is_sound_name, translate_folder};

fn key(code: KeyCode) -> Key {
    Key { code, shift: false, control: false, others: 0, kind: 0, state: 0 }
}

fn control(c: char) -> Key {
    Key { control: true, ..key(KeyCode::Char(c)) }
}

fn type_in_form(form: &mut AccountForm, text: &str) {
    for c in text.chars() {
        assert_eq!(form.handle_key_event(key(KeyCode::Char(c))), None);
    }
}

fn type_in_compose(compose: &mut Compose, text: &str) {
    for c in text.chars() {
        assert_eq!(compose.handle_key_event(key(KeyCode::Char(c))), None);
    }
}

fn mail(uid: u32, flags: Vec<MailFlag>) -> EmailSummary {
    EmailSummary {
        uid,
        message_id: None,
        from: "Alice <alice@example.com>".to_string(),
        to: "b".to_string(),
        cc: None,
        subject: "Hello".to_string(),
        date: "Tue, 1 Jul 2003 10:52:37 +0200".to_string(),
        size: 1,
        flags,
        has_attachments: false,
    }
}

fn email() -> Email {
    Email {
        uid: 7,
        folder: "INBOX".to_string(),
        message_id: None,
        from: "a@x".to_string(),
        to: vec!["b@x".to_string(), "c@x".to_string()],
        cc: vec![],
        bcc: vec![],
        reply_to: None,
        date: "Tue, 1 Jul 2003 10:52:37 +0200".to_string(),
        subject: "Hi".to_string(),
        body_text: Some("some text".to_string()),
        body_html: None,
        attachments: vec![],
        in_reply_to: None,
        references: vec![],
        flags: vec![],
    }
}

fn file(name: &str, size: usize) -> AttachmentData {
    AttachmentData {
        filename: name.to_string(),
        mime_type: "x/y".to_string(),
        data: vec![0; size],
    }
}

fn folder(name: &str) -> Folder {
    Folder { name: name.to_string(), delimiter: "/".to_string(), attributes: vec![] }
}

fn line_text(line: &Line) -> String {
    line.spans.iter().map(|s| s.text.as_str()).collect()
}

fn paragraph_text(d: &Drawn) -> String {
    match d {
        Drawn::Paragraph(_, p) => match &p.content {
            Content::Text(t) => t.clone(),
            Content::Lines(l) => {
                l.iter().map(line_text).collect::<Vec<String>>().join("\n")
            }
        },
        Drawn::List(_, l) => l
            .items
            .iter()
            .flat_map(|i| i.lines.iter().map(line_text))
            .collect::<Vec<String>>()
            .join("\n"),
    }
}

const SCREEN: Area = Area { x: 0, y: 0, width: 100, height: 30 };

#[test]
fn providers() {
    assert_eq!(build_provider_map().len(), 18);
    let p = find_provider("gmail.com").unwrap();
    assert_eq!((p.imap_host, p.imap_port), ("imap.gmail.com", 993));
    assert_eq!((p.smtp_host, p.smtp_port), ("smtp.gmail.com", 587));
    assert_eq!(p.security, "start_tls");
    let p = find_provider("protonmail.com").unwrap();
    assert_eq!((p.imap_host, p.imap_port, p.smtp_port, p.security), ("127.0.0.1", 1143, 1025, "none"));
    assert!(find_provider("example.com").is_none());
}

#[test]
fn provider_domains_differ() {
    let all = build_provider_map();
    for i in 0..all.len() {
        for j in 0..i {
            assert_ne!(all[i].domain, all[j].domain);
        }
    }
}

#[test]
fn hidden_fields() {
    let mut f = FormField::new("密码", true);
    assert_eq!(f.display(), "");
    f.value = "abc".to_string();
    assert_eq!(f.display(), "•••");
    f.value = "密".to_string();
    assert_eq!(f.display(), "•••");
    let mut open = FormField::new("邮箱", false);
    open.value = "a@x".to_string();
    assert_eq!(open.display(), "a@x");
}

#[test]
fn form_is_filled_in_for_known_providers() {
    let mut form = AccountForm::new();
    type_in_form(&mut form, "me@GMAIL.com");
    assert_eq!(form.handle_key_event(key(KeyCode::Tab)), None);
    assert_eq!(form.focus, 1);
    assert_eq!(form.fields[2].value, "imap.gmail.com");
    assert!(form.fields[2].auto_filled);
    assert_eq!(form.fields[3].value, "993");
    assert_eq!(form.fields[5].value, "587");
    assert_eq!(form.fields[6].value, "me@GMAIL.com");
    assert!(!form.fields[6].auto_filled);
    assert_eq!(form.security_idx, 1);
    let data = form.get_data().unwrap();
    assert_eq!(data.imap_host, "imap.gmail.com");
    assert_eq!((data.imap_port, data.smtp_port), (993, 587));
    assert_eq!(data.username, "me@GMAIL.com");
    assert_eq!(data.security, "start_tls");
}

#[test]
fn form_gives_what_was_typed() {
    let mut form = AccountForm::new();
    assert!(form.get_data().is_none());
    for text in ["a@b.c", "Me", "h", "x", "s", "25", "", "pw"] {
        type_in_form(&mut form, text);
        form.handle_key_event(key(KeyCode::Enter));
    }
    assert_eq!(form.focus, 8);
    form.handle_key_event(key(KeyCode::Enter));
    form.handle_key_event(key(KeyCode::Enter));
    let data = form.get_data().unwrap();
    assert_eq!((data.email.as_str(), data.display_name.as_str()), ("a@b.c", "Me"));
    assert_eq!((data.imap_host.as_str(), data.imap_port), ("h", 993));
    assert_eq!((data.smtp_host.as_str(), data.smtp_port), ("s", 25));
    assert_eq!((data.username.as_str(), data.password.as_str()), ("a@b.c", "pw"));
    assert_eq!(data.security, "none");
}

#[test]
fn keys_of_the_form() {
    let mut form = AccountForm::new();
    assert_eq!(
        form.handle_key_event(control('s')),
        Some(Action::Error("邮箱不能为空".to_string()))
    );
    form.handle_key_event(key(KeyCode::Up));
    assert_eq!(form.focus, 0);
    type_in_form(&mut form, "xy");
    form.handle_key_event(key(KeyCode::Backspace));
    assert_eq!(form.fields[0].value, "x");
    assert_eq!(form.handle_key_event(control('s')), Some(Action::SaveAccount));
    for _ in 0..8 {
        form.handle_key_event(key(KeyCode::Down));
    }
    assert_eq!(form.focus, 8);
    form.handle_key_event(key(KeyCode::Char('z')));
    form.handle_key_event(key(KeyCode::Down));
    assert_eq!(form.focus, 0);
    assert_eq!(form.handle_key_event(key(KeyCode::Esc)), Some(Action::Back));
    assert_eq!(form.fields[0].value, "");
}

#[test]
fn typing_takes_the_mark_of_a_filled_in_field() {
    let mut form = AccountForm::new();
    type_in_form(&mut form, "a@qq.com");
    for _ in 0..2 {
        form.handle_key_event(key(KeyCode::Tab));
    }
    assert!(form.fields[2].auto_filled);
    form.handle_key_event(key(KeyCode::Backspace));
    assert!(!form.fields[2].auto_filled);
    assert_eq!(form.fields[2].value, "imap.qq.co");
}

#[test]
fn form_as_it_is_drawn() {
    let mut form = AccountForm::new();
    type_in_form(&mut form, "a@qq.com");
    form.handle_key_event(key(KeyCode::Tab));
    let drawn = form.draw(SCREEN);
    assert_eq!(drawn.len(), 3);
    assert_eq!(paragraph_text(&drawn[0]), " ➕ 添加邮箱账户 ");
    let rows = paragraph_text(&drawn[1]);
    let rows: Vec<&str> = rows.split('\n').collect();
    assert_eq!(rows.len(), 9);
    assert_eq!(rows[0], format!("   {:<12}a@qq.com", "邮箱"));
    assert_eq!(rows[1], format!("▸  {:<12}", "显示名称"));
    assert_eq!(rows[2], format!("   {:<12}imap.qq.com (自动)", "IMAP 主机"));
    assert_eq!(rows[7], format!("   {:<12} <输入密码>", "密码"));
    assert_eq!(rows[8], "   安全模式  TLS (993/465)");
    assert_eq!(
        paragraph_text(&drawn[2]),
        " Tab/↑↓ 切换   Enter 确认/下一项   Ctrl+S 保存   Esc 取消"
    );
}

#[test]
fn recipients_by_comma_and_semicolon() {
    assert_eq!(split_recipients(" a@x; b@x ,,c@x;"), vec!["a@x", "b@x", "c@x"]);
    assert!(split_recipients("").is_empty());
}

#[test]
fn replies_and_forwards() {
    let mut c = Compose::new();
    c.set_reply("a@x", "Re: Re: Hi ");
    assert_eq!((c.fields[0].value.as_str(), c.fields[3].value.as_str()), ("a@x", "Re: Hi"));
    assert!(c.reply_to.is_some());
    let mut c = Compose::new();
    c.set_reply_all("a@x", &vec!["b@x".to_string(), "c@x".to_string()], "Hi");
    assert_eq!((c.fields[1].value.as_str(), c.fields[3].value.as_str()), ("b@x; c@x", "Re: Hi"));
    assert!(c.reply_all);
    let mut c = Compose::new();
    c.set_reply_all("a@x", &vec![], "Hi");
    assert_eq!(c.fields[1].value, "");
    let mut c = Compose::new();
    c.set_forward("Fwd: Hi");
    assert_eq!((c.fields[0].value.as_str(), c.fields[3].value.as_str()), ("", "Fwd: Hi"));
    assert!(c.forward);
}

#[test]
fn reply_to_all_goes_to_all() {
    let copies = vec!["b@x".to_string(), "C D <c@x>".to_string(), "b@x".to_string()];
    let mut c = Compose::new();
    c.set_reply_all("A <a@x>", &copies, "Hi");
    let m = c.build_outgoing("me@x");
    assert_eq!(m.to, vec!["A <a@x>"]);
    assert_eq!(m.cc, copies);
    let mut reply = Compose::new();
    reply.set_reply("A <a@x>", "Hi");
    assert_eq!(m.subject, reply.build_outgoing("me@x").subject);
    assert_eq!(reply.build_outgoing("me@x").to, vec!["A <a@x>"]);
    let mut c = Compose::new();
    c.set_reply_all("a@x", &vec![], "Hi");
    assert!(c.build_outgoing("me@x").cc.is_empty());
}

#[test]
fn answer_to_an_answer_is_marked_once() {
    let mut c = Compose::new();
    c.set_reply("a", "Hi");
    let once = c.fields[3].value.clone();
    c.set_reply("a", &once);
    assert_eq!(c.fields[3].value, once);
}

#[test]
fn message_that_goes_out() {
    let mut c = Compose::new();
    type_in_compose(&mut c, "a@x, b@x");
    for _ in 0..4 {
        c.handle_key_event(key(KeyCode::Tab));
    }
    type_in_compose(&mut c, "one");
    c.handle_key_event(key(KeyCode::Enter));
    type_in_compose(&mut c, "two");
    c.add_attachment(file("f", 3));
    let m = c.build_outgoing("me@x");
    assert_eq!(m.from, "me@x");
    assert_eq!(m.to, vec!["a@x", "b@x"]);
    assert!(m.cc.is_empty() && m.bcc.is_empty() && m.references.is_empty());
    assert_eq!(m.body_text.as_deref(), Some("one\ntwo"));
    assert_eq!((m.body_html, m.in_reply_to), (None, None));
    assert_eq!(m.attachments, vec![file("f", 3)]);
}

#[test]
fn files_are_added_and_taken_out() {
    let mut c = Compose::new();
    c.fields[5].value = "path".to_string();
    c.add_attachment(file("a", 1));
    assert_eq!(c.fields[5].value, "");
    c.add_attachment(file("b", 2));
    c.att_focus = 1;
    c.remove_attachment(5);
    assert_eq!(c.attachments.len(), 2);
    c.remove_attachment(1);
    assert_eq!(c.attachments, vec![file("a", 1)]);
    assert_eq!(c.att_focus, 0);
    c.remove_attachment(0);
    assert!(c.attachments.is_empty());
}

#[test]
fn keys_of_the_writing_view() {
    let mut c = Compose::new();
    assert_eq!(
        c.handle_key_event(control('s')),
        Some(Action::Error("收件人不能为空".to_string()))
    );
    c.handle_key_event(key(KeyCode::Up));
    assert_eq!(c.focus, 5);
    assert_eq!(c.handle_key_event(key(KeyCode::Enter)), None);
    type_in_compose(&mut c, " /tmp/f ");
    assert_eq!(
        c.handle_key_event(key(KeyCode::Enter)),
        Some(Action::AddAttachment("/tmp/f".to_string()))
    );
    c.handle_key_event(key(KeyCode::Tab));
    assert_eq!(c.focus, 0);
    type_in_compose(&mut c, "ab");
    c.handle_key_event(key(KeyCode::Backspace));
    assert_eq!(c.handle_key_event(control('s')), Some(Action::Send));
    assert_eq!(c.handle_key_event(key(KeyCode::Esc)), Some(Action::CancelCompose));
    assert_eq!(c.fields[0].value, "");
}

#[test]
fn keys_among_the_files() {
    let mut c = Compose::new();
    c.add_attachment(file("a", 1));
    c.add_attachment(file("b", 1));
    c.handle_key_event(key(KeyCode::Up));
    assert_eq!(c.focus, 6);
    c.handle_key_event(key(KeyCode::Right));
    c.handle_key_event(key(KeyCode::Right));
    assert_eq!(c.att_focus, 1);
    assert_eq!(c.handle_key_event(key(KeyCode::Char('d'))), Some(Action::RemoveAttachment(1)));
    c.handle_key_event(key(KeyCode::Left));
    assert_eq!(c.att_focus, 0);
    assert_eq!(c.handle_key_event(key(KeyCode::Esc)), None);
    c.handle_key_event(key(KeyCode::Up));
    assert_eq!(c.focus, 5);
    c.handle_key_event(key(KeyCode::Down));
    c.handle_key_event(key(KeyCode::Down));
    assert_eq!(c.focus, 0);
}

#[test]
fn body_as_it_is_edited() {
    let text = |value: &str, focused: bool| -> Vec<String> {
        build_body_lines(value, focused).iter().map(line_text).collect()
    };
    assert_eq!(text("", false), vec!["   正文   <输入正文>"]);
    assert_eq!(text("", true), vec!["▸  正文  |"]);
    assert_eq!(text("a\nb", false), vec!["   正文  a", "        b"]);
    assert_eq!(text("a\n", true), vec!["▸  正文  a", "        |"]);
    let long: String = (0..31).map(|i| format!("{i}\n")).collect();
    let rows = text(&long, true);
    assert_eq!(rows.len(), 31);
    assert_eq!(rows[29], "        29|");
    assert_eq!(rows[30], "        … 共 32 行");
}

#[test]
fn writing_view_as_it_is_drawn() {
    let mut c = Compose::new();
    c.set_forward("Hi");
    let drawn = c.draw(SCREEN);
    assert_eq!(drawn.len(), 4);
    assert_eq!(paragraph_text(&drawn[0]), " ➡️ 转发邮件 ");
    let rows = paragraph_text(&drawn[1]);
    assert!(rows.contains(&format!("   {:<6}Fwd: Hi", "主题")), "{rows}");
    assert!(rows.contains(" <抄送，可选>"));
    assert_eq!(paragraph_text(&drawn[2]), " 在上方「附件路径」输入文件路径，按回车添加");
    c.add_attachment(file("f", 2048));
    let drawn = c.draw(SCREEN);
    assert!(paragraph_text(&drawn[2]).starts_with("  [0] f  (2.0 KB)\n\n"));
}

#[test]
fn columns_of_text() {
    assert!(is_cjk('中') && is_cjk('，') && is_cjk('。') && !is_cjk('a') && !is_cjk('é'));
    assert_eq!(display_width("a中b"), 4);
    assert_eq!(truncate_cols("abcdef", 4), "abc…");
    assert_eq!(truncate_cols("abc", 4), "abc");
    assert_eq!(truncate_cols("abcd", 4), "abc…");
    assert_eq!(truncate_cols("中文字", 4), "中…");
    assert_eq!(truncate_cols("a", 1), "");
    assert_eq!(pad_right("中", 4), "中  ");
    assert_eq!(pad_left("中", 4), "  中");
    assert_eq!(pad_right("abcde", 4), "abcde");
}

#[test]
fn cut_text_fits_and_padded_text_fills() {
    for s in ["", "a", "中文 mixed 文字", "plain text that is long"] {
        for n in 0..20 {
            let cut = truncate_cols(s, n);
            assert!(display_width(&cut) <= n);
            assert_eq!(display_width(&pad_right(&cut, n)), n);
            assert_eq!(display_width(&pad_left(&cut, n)), n);
        }
    }
}

#[test]
fn senders() {
    assert_eq!(shorten_sender("Alice B <a@x>"), "Alice B");
    assert_eq!(shorten_sender("<a@x>"), "<a@x>");
    assert_eq!(shorten_sender("a@x"), "a@x");
}

#[test]
fn dates_in_beijing() {
    let date = "Tue, 1 Jul 2003 20:52:37 +0200";
    assert_eq!(reformat_date(date), "2003/07/02");
    assert_eq!(reformat_date(&format!(" {date} ")), "2003/07/02");
    assert_eq!(format_mail_date(date), "2003/07/02 周三 02:52");
    assert_eq!(format_mail_date("Sun, 31 Dec 2023 15:59:00 +0000"), "2023/12/31 周日 23:59");
    assert_eq!(reformat_date("no date"), "no date");
    assert_eq!(format_mail_date("no date"), "no date");
}

#[test]
fn flags_of_a_message() {
    let mut v = vec![MailFlag::Seen, MailFlag::Flagged, MailFlag::Flagged];
    assert!(has_flag(&v, &MailFlag::Flagged));
    assert!(!has_flag(&v, &MailFlag::Custom("x".to_string())));
    remove_flag(&mut v, &MailFlag::Flagged);
    assert_eq!(v, vec![MailFlag::Seen]);
    assert!(same_flag(&MailFlag::Custom("x".to_string()), &MailFlag::Custom("x".to_string())));
    assert!(!same_flag(&MailFlag::Custom("x".to_string()), &MailFlag::Custom("y".to_string())));
}

#[test]
fn moves_in_a_list() {
    let mut s = ListState { offset: 3, selected: Some(1) };
    s.next(3);
    assert_eq!(s.selected, Some(2));
    s.next(3);
    assert_eq!(s.selected, Some(2));
    s.prev();
    assert_eq!(s, ListState { offset: 3, selected: Some(1) });
    s.select(None);
    assert_eq!(s, ListState { offset: 0, selected: None });
    s.prev();
    assert_eq!(s.selected, Some(0));
    s.next(0);
    assert_eq!(s.selected, Some(0));
}

#[test]
fn folders_in_their_list() {
    let mut l = FolderList::new();
    assert!(l.selected_folder().is_none());
    l.set_folders(vec![folder("INBOX"), folder("Sent")]);
    assert_eq!(l.selected_folder().unwrap().name, "INBOX");
    l.handle_key_event(key(KeyCode::Char('j')));
    assert_eq!(
        l.handle_key_event(key(KeyCode::Enter)),
        Some(Action::SelectFolder("Sent".to_string()))
    );
    l.handle_key_event(key(KeyCode::Up));
    assert!(l.has_sound_names());
    let drawn = l.draw(SCREEN);
    assert_eq!(drawn.len(), 1);
    assert_eq!(paragraph_text(&drawn[0]), " 收件箱 \n 已发送 ");
    l.set_folders(vec![]);
    assert_eq!(l.handle_key_event(key(KeyCode::Enter)), None);
    assert_eq!(paragraph_text(&l.draw(SCREEN)[1]), "暂无文件夹\n按 q 返回");
}

#[test]
fn names_of_folders() {
    assert_eq!(folder_display_name("INBOX"), "收件箱");
    assert_eq!(folder_display_name("Deleted Items"), "垃圾箱");
    assert_eq!(folder_display_name("Projects"), "Projects");
    assert_eq!(folder_display_name("a&-b"), utf7_imap::decode_utf7_imap("a&-b".to_string()));
    let name = utf7_imap::encode_utf7_imap("其他文件夹".to_string());
    assert!(is_sound_name(&name));
    assert_eq!(folder_display_name(&name), "其他文件夹");
    assert!(!is_sound_name("&***-"));
    assert_eq!(translate_folder("Starred"), "星标邮件");
    assert_eq!(translate_folder("x"), "x");
    assert_eq!(translate_folder(&translate_folder("INBOX")), translate_folder("INBOX"));
}

#[test]
fn messages_in_their_list() {
    let mut l = MailList::new();
    assert_eq!(l.selected_uid(), None);
    l.set_mails(vec![mail(3, vec![]), mail(2, vec![]), mail(1, vec![])]);
    assert_eq!(l.selected_uid(), Some(3));
    l.handle_key_event(key(KeyCode::Down));
    assert_eq!(l.handle_key_event(key(KeyCode::Enter)), Some(Action::ViewMail));
    assert_eq!(l.remove_selected(), Some(2));
    assert_eq!(l.selected_uid(), Some(1));
    assert_eq!(l.remove_selected(), Some(1));
    assert_eq!(l.selected_uid(), Some(3));
    assert_eq!(l.remove_selected(), Some(3));
    assert_eq!(l.remove_selected(), None);
    assert_eq!(l.handle_key_event(key(KeyCode::Enter)), None);
}

#[test]
fn star_goes_on_and_off() {
    let mut l = MailList::new();
    assert_eq!(l.toggle_flag(), None);
    l.set_mails(vec![mail(3, vec![MailFlag::Seen])]);
    assert_eq!(l.toggle_flag(), Some((3, true)));
    assert!(l.mails[0].flags.contains(&MailFlag::Flagged));
    assert_eq!(l.toggle_flag(), Some((3, false)));
    assert_eq!(l.mails[0].flags, vec![MailFlag::Seen]);
}

#[test]
fn message_is_marked_as_seen_once() {
    let mut l = MailList::new();
    l.set_mails(vec![mail(3, vec![])]);
    l.mark_seen();
    l.mark_seen();
    assert_eq!(l.mails[0].flags, vec![MailFlag::Seen]);
}

#[test]
fn list_follows_the_folder() {
    let mut l = MailList::new();
    l.update(&Action::SelectFolder("X".to_string()));
    assert_eq!(l.current_folder, "X");
    assert!(l.dirty);
    l.update(&Action::Tick);
    assert_eq!(l.current_folder, "X");
}

#[test]
fn lines_of_the_list() {
    let mut starred = mail(1, vec![MailFlag::Flagged]);
    starred.has_attachments = true;
    let items = build_items(&vec![mail(3, vec![]), mail(2, vec![MailFlag::Seen]), starred], 80);
    let rows: Vec<String> = items.iter().map(|i| line_text(&i.lines[0])).collect();
    let subject = format!("Hello{}", " ".repeat(80 - 28 - 5));
    assert_eq!(rows[0], format!("● {:<14}2003/07/01 {subject}", "Alice"));
    assert_eq!(rows[1], format!("  {:<14}2003/07/01 {subject}", "Alice"));
    assert_eq!(rows[2], format!("★ {:<14}2003/07/01 {subject} 📎", "Alice"));
    assert_eq!(items[0].lines[0].spans[4].ink.fg, Some(Tint::White));
    assert_eq!(items[1].lines[0].spans[4].ink.fg, Some(Tint::DarkGray));
    let narrow = build_items(&vec![mail(3, vec![])], 40);
    assert_eq!(
        line_text(&narrow[0].lines[0]),
        format!("● {:<14} Hello{}", "Alice", " ".repeat(40 - 18 - 5))
    );
}

#[test]
fn list_as_it_is_drawn() {
    let mut l = MailList::new();
    l.current_folder = "INBOX".to_string();
    let drawn = l.draw(SCREEN);
    assert_eq!(drawn.len(), 2);
    assert_eq!(paragraph_text(&drawn[1]), "暂无邮件\n按 Esc 返回文件夹列表");
    l.set_mails(vec![mail(3, vec![])]);
    let drawn = l.draw(SCREEN);
    assert_eq!(drawn.len(), 1);
    assert!(!l.dirty);
    assert_eq!(l.last_width, 98);
    match &drawn[0] {
        Drawn::List(area, list) => {
            assert_eq!(*area, SCREEN);
            assert_eq!(list.block.title, " 📨 收件箱 ");
            assert_eq!(list.items, build_items(&l.mails, 98));
            assert_eq!(list.highlight.as_ref().unwrap().symbol, "▸ ");
        }
        other => panic!("{other:?}"),
    }
}

#[test]
fn entities() {
    assert_eq!(decode_html_entities("a &lt;b&gt; &amp; &quot;c&quot;"), "a <b> & \"c\"");
    assert_eq!(decode_html_entities("x<br>y<br/>z<br />"), "x\ny\nz\n");
    assert_eq!(decode_html_entities("&#20013;&#x6587;&#39;&#x27;&apos;"), "中文'''");
    assert_eq!(decode_html_entities("&nbsp;"), "\u{a0}");
    assert_eq!(decode_html_entities("&#xD800; &#; &#12a; &#1"), "&#xD800; &#; &#12a; &#1");
    assert_eq!(decode_html_entities("&amp;lt;"), "<");
    assert_eq!(decode_html_entities("&amp;#65;"), "A");
}

#[test]
fn text_without_entities_stays() {
    for s in ["", "plain", "a & b", "1 < 2", "# & ;"] {
        assert_eq!(decode_html_entities(s), s);
    }
}

#[test]
fn keys_of_the_message_view() {
    let mut v = MailView::new();
    assert_eq!(v.handle_key_event(key(KeyCode::Char('E'))), None);
    assert_eq!(v.handle_key_event(key(KeyCode::Char('o'))), None);
    let mut m = email();
    m.body_html = Some("<p>".to_string());
    for name in ["a", "b"] {
        m.attachments.push(AttachmentMeta {
            filename: name.to_string(),
            mime_type: "x/y".to_string(),
            size: 10,
            content_id: None,
            part_id: "1".to_string(),
            transfer_encoding: None,
        });
    }
    v.scroll = 5;
    v.set_mail(m);
    assert_eq!((v.scroll, v.attachment_idx), (0, 0));
    v.handle_key_event(key(KeyCode::Up));
    v.handle_key_event(key(KeyCode::Char('j')));
    assert_eq!(v.scroll, 1);
    v.handle_key_event(key(KeyCode::Char('h')));
    assert!(v.show_html);
    v.handle_key_event(key(KeyCode::Char('t')));
    assert!(!v.show_html);
    assert_eq!(v.handle_key_event(key(KeyCode::Char('E'))), Some(Action::SaveHtml));
    v.handle_key_event(key(KeyCode::Right));
    v.handle_key_event(key(KeyCode::Right));
    assert_eq!(
        v.handle_key_event(key(KeyCode::Char('o'))),
        Some(Action::DownloadAttachment(1))
    );
    v.handle_key_event(key(KeyCode::Left));
    assert_eq!(v.attachment_idx, 0);
    v.update(&Action::SelectFolder("X".to_string()));
    assert_eq!(v.current_folder, "X");
    let drawn = v.draw(SCREEN);
    assert_eq!(drawn.len(), 3);
    assert!(paragraph_text(&drawn[2]).starts_with("▶ [0] a  (10 B)\n  [1] b  (10 B)\n\n"));
}

#[test]
fn message_as_it_is_drawn() {
    let mut v = MailView::new();
    assert_eq!(paragraph_text(&v.draw(SCREEN)[0]), "未选择邮件");
    v.set_mail(email());
    let drawn = v.draw(SCREEN);
    assert_eq!(drawn.len(), 2);
    assert_eq!(
        paragraph_text(&drawn[0]),
        " 发件人: a@x\n 收件人: b@x; c@x\n 日  期: 2003/07/01 周二 16:52"
    );
    assert_eq!(paragraph_text(&drawn[1]), "some text");
    v.handle_key_event(key(KeyCode::Char('h')));
    assert_eq!(paragraph_text(&v.draw(SCREEN)[1]), "(无 HTML 正文)");
    v.handle_key_event(key(KeyCode::Char('t')));
    let mut short = email();
    short.from = String::new();
    short.to = vec![];
    short.body_text = Some(" abc ".to_string());
    v.set_mail(short.clone());
    let drawn = v.draw(SCREEN);
    assert!(paragraph_text(&drawn[0]).starts_with(" 发件人: (未知发件人)\n 收件人: (无收件人)"));
    assert_eq!(paragraph_text(&drawn[1]), "(无正文)");
    short.body_html = Some("<p>".to_string());
    v.set_mail(short);
    assert!(paragraph_text(&v.draw(SCREEN)[1]).contains("此邮件仅包含 HTML 格式内容"));
}

#[test]
fn status_bar_after_actions() {
    let mut b = StatusBar::new();
    b.update(&Action::Connected, 0);
    b.update(&Action::SelectFolder("INBOX".to_string()), 0);
    b.set_mode(Mode::MailView);
    assert!(b.has_sound_folder());
    let drawn = b.draw(SCREEN, 0);
    assert_eq!(drawn.len(), 3);
    assert_eq!(paragraph_text(&drawn[0]), "─".repeat(100));
    assert_eq!(paragraph_text(&drawn[1]), " ● 已连接 | 收件箱");
    assert_eq!(
        paragraph_text(&drawn[2]),
        "q:退出  r:回复  d:删除  h:HTML  t:文本  j/k:上下  s:星标"
    );
    b.update(&Action::Error("oops".to_string()), 1000);
    assert_eq!(paragraph_text(&b.draw(SCREEN, 4999)[2]), " ⓘ oops ");
    b.draw(SCREEN, 5000);
    assert_eq!(b.status_message, None);
    b.update(&Action::Disconnect, 0);
    assert_eq!(paragraph_text(&b.draw(SCREEN, 0)[1]), " ○ 未连接 | 未选择文件夹");
    for (action, text) in [
        (Action::Send, "✓ 邮件已发送"),
        (Action::DeleteMail, "✓ 邮件已删除"),
        (Action::ToggleFlag, "✓ 已切换星标"),
        (Action::ToggleRead, "✓ 已切换已读/未读"),
    ] {
        b.update(&action, 0);
        assert_eq!(b.status_message, Some((text.to_string(), 0)));
    }
    b.update(&Action::SelectFolder("x".to_string()), 0);
    b.clear_folder();
    assert_eq!(b.current_folder, None);
}

#[test]
fn every_hint_has_room() {
    let modes = [
        Mode::Home,
        Mode::AccountForm,
        Mode::FolderList,
        Mode::MailList,
        Mode::MailView,
        Mode::Compose,
    ];
    let mut longest = 0;
    for mode in modes {
        let mut b = StatusBar::new();
        b.set_mode(mode);
        longest = longest.max(display_width(&paragraph_text(&b.draw(SCREEN, 0)[2])));
    }
    assert_eq!(longest, right_hint_width() as usize);
}

#[test]
fn areas_are_split() {
    let parts = split_down(SCREEN, &vec![Room::Length(3), Room::Min(1), Room::Length(3)]);
    assert_eq!(
        parts,
        vec![
            Area { x: 0, y: 0, width: 100, height: 3 },
            Area { x: 0, y: 3, width: 100, height: 24 },
            Area { x: 0, y: 27, width: 100, height: 3 },
        ]
    );
    let sides = split_across(SCREEN, &vec![Room::Length(44), Room::Length(56)]);
    assert_eq!(sides[1], Area { x: 44, y: 0, width: 56, height: 30 });
    assert_eq!(SCREEN.inner(), Area { x: 1, y: 1, width: 98, height: 28 });
    let thin = Area { x: 3, y: 3, width: 1, height: 9 };
    assert_eq!(thin.inner(), Area { x: 0, y: 0, width: 0, height: 0 });
    assert_eq!(thin.bordered(), Area { x: 4, y: 4, width: 0, height: 7 });
}

/// The parts of `size` from `start` on, where all the rooms fit: each as large as its room, and
/// the one that can grow as large as what is left over.
fn sizes(rooms: &[Room], start: u16, size: u16) -> Option<Vec<(u16, u16)>> {
    let least = |r: &Room| match r {
        Room::Min(n) | Room::Length(n) => *n,
    };
    let sum: u32 = rooms.iter().map(|r| least(r) as u32).sum();
    if sum > size as u32 {
        return None;
    }
    let left = size - sum as u16;
    let mut at = start;
    let mut out = Vec::new();
    for r in rooms {
        let own = match r {
            Room::Min(n) => n + left,
            Room::Length(n) => *n,
        };
        out.push((at, own));
        at += own;
    }
    Some(out)
}

#[test]
fn rooms_that_fit_get_what_they_ask_for() {
    let kinds: Vec<Vec<Room>> = vec![
        vec![],
        vec![Room::Min(0)],
        vec![Room::Length(3)],
        vec![Room::Min(0), Room::Length(1)],
        vec![Room::Length(5), Room::Min(1)],
        vec![Room::Length(44), Room::Length(56)],
        vec![Room::Length(0), Room::Length(56)],
        vec![Room::Length(3), Room::Min(1), Room::Length(3)],
        vec![Room::Length(5), Room::Min(7), Room::Length(4)],
        vec![Room::Length(5), Room::Min(7), Room::Length(8)],
        vec![Room::Length(2), Room::Min(1), Room::Length(1), Room::Length(2)],
        vec![Room::Length(2), Room::Min(1), Room::Length(7), Room::Length(2)],
        vec![Room::Length(20), Room::Length(1), Room::Length(30), Room::Length(0), Room::Min(40)],
    ];
    for rooms in &kinds {
        for start in [0u16, 1, 7, 300] {
            for size in (0u16..130).chain([200, 255, 256, 1000, 30_000]) {
                let low = Area { x: 2, y: start, width: 9, height: size };
                let wide = Area { x: start, y: 3, width: size, height: 4 };
                let down = split_down(low, rooms);
                let across = split_across(wide, rooms);
                assert_eq!(down.len(), rooms.len());
                assert_eq!(across.len(), rooms.len());
                for p in &down {
                    assert!(p.x == 2 && p.width == 9);
                    assert!(p.y >= start && p.y + p.height <= start + size);
                }
                for p in &across {
                    assert!(p.y == 3 && p.height == 4);
                    assert!(p.x >= start && p.x + p.width <= start + size);
                }
                if let Some(want) = sizes(rooms, start, size) {
                    let got: Vec<(u16, u16)> = down.iter().map(|p| (p.y, p.height)).collect();
                    assert_eq!(got, want);
                    let got: Vec<(u16, u16)> = across.iter().map(|p| (p.x, p.width)).collect();
                    assert_eq!(got, want);
                }
            }
        }
    }
}

#[test]
fn areas_at_the_edge_are_split() {
    let edge = Area { x: 65_530, y: 65_530, width: 100, height: 100 };
    for p in split_down(edge, &vec![Room::Length(3), Room::Min(1), Room::Length(3)]) {
        assert!(p.x == 65_530 && p.width == 100 && p.y >= 65_530);
    }
    for p in split_across(edge, &vec![Room::Length(3), Room::Length(90)]) {
        assert!(p.y == 65_530 && p.height == 100 && p.x >= 65_530);
    }
}
