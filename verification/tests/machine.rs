//! The client as a whole: events, actions and answers.

use rust_email::action::{Action, Mode};
use rust_email::app::{App, Effect, Reply, Step};
use rust_email::events::{Event, RoundEnd};
use rust_email::keys::{Key, KeyBindings, KeyCode, KeyMap};
use rust_email::types::{
    Account, AccountConfig, Email, EmailSummary, Folder, MailFlag, SecurityMode,
};
use rust_email::ui::{Area, Drawn};

const SCREEN: Area = Area { x: 0, y: 0, width: 100, height: 30 };

fn account(id: i64) -> Account {
    Account {
        id,
        email: "u@example.com".to_string(),
        display_name: None,
        config: AccountConfig {
            imap_host: "imap.example.com".to_string(),
            imap_port: 993,
            smtp_host: "smtp.example.com".to_string(),
            smtp_port: 465,
            username: "u@example.com".to_string(),
            password: "secret".to_string(),
            security: SecurityMode::Tls,
        },
    }
}

fn summary(uid: u32) -> EmailSummary {
    EmailSummary {
        uid,
        message_id: None,
        from: "a".to_string(),
        to: "b".to_string(),
        cc: None,
        subject: "s".to_string(),
        date: "d".to_string(),
        size: 1,
        flags: vec![],
        has_attachments: false,
    }
}

fn email(uid: u32) -> Email {
    Email {
        uid,
        folder: "INBOX".to_string(),
        message_id: None,
        from: "a@x".to_string(),
        to: vec!["b@x".to_string()],
        cc: vec![],
        bcc: vec![],
        reply_to: None,
        date: "d".to_string(),
        subject: " a/b: c?".to_string(),
        body_text: None,
        body_html: Some("<p>".to_string()),
        attachments: vec![],
        in_reply_to: None,
        references: vec![],
        flags: vec![],
    }
}

fn folder(name: &str) -> Folder {
    Folder { name: name.to_string(), delimiter: "/".to_string(), attributes: vec![] }
}

fn key(code: KeyCode) -> Key {
    Key { code, shift: false, control: false, others: 0, kind: 0, state: 0 }
}

fn begin(app: &mut App, action: Action) -> Step {
    app.begin(action, Some(0), 0)
}

fn asked(step: Step) -> Effect {
    match step {
        Step::Ask(e) => e,
        Step::Next => panic!("next"),
        Step::EndRound => panic!("end of the round"),
    }
}

fn is_next(step: Step) -> bool {
    matches!(step, Step::Next)
}

/// A client that is in use for its account, with two messages in the inbox.
fn in_use() -> App {
    let mut app = App::new(vec![account(4)]);
    assert!(matches!(asked(begin(&mut app, Action::Connect)), Effect::Connect(_)));
    assert!(is_next(app.resume(Reply::Outcome(Ok(())), 0)));
    assert!(is_next(begin_folder(&mut app, "INBOX", Ok(vec![summary(2), summary(1)]))));
    app.pending.clear();
    app
}

fn begin_folder(app: &mut App, name: &str, answer: Result<Vec<EmailSummary>, String>) -> Step {
    let step = begin(app, Action::SelectFolder(name.to_string()));
    match asked(step) {
        Effect::FetchLatest(f, n) => assert_eq!((f.as_str(), n), (name, 50)),
        _ => panic!("no fetch"),
    }
    match app.resume(Reply::Mails(answer), 0) {
        Step::Ask(Effect::CacheMails(4, f, _)) => {
            assert_eq!(f, name);
            app.resume(Reply::Done, 0)
        }
        other => other,
    }
}

fn bindings() -> KeyBindings {
    let mut map = KeyMap::new();
    map.insert(vec![key(KeyCode::Char('q'))], Action::Quit);
    map.insert(vec![key(KeyCode::Char('g')), key(KeyCode::Char('g'))], Action::Back);
    let mut all = KeyBindings::new();
    all.insert(Mode::FolderList, map.clone());
    all.insert(Mode::Compose, map);
    all
}

#[test]
fn first_client() {
    let app = App::new(vec![account(1)]);
    assert_eq!(app.mode, Mode::Home);
    assert!(!app.should_quit && !app.should_suspend && !app.connecting);
    assert_eq!(app.active_account_id, None);
    assert!(app.pending.is_empty());
}

#[test]
fn simple_actions() {
    let mut app = App::new(vec![]);
    assert!(is_next(begin(&mut app, Action::Suspend)));
    assert_eq!(app.finish_round(), RoundEnd::Suspend);
    assert_eq!(app.pending, vec![Action::Resume, Action::ClearScreen]);
    assert!(is_next(begin(&mut app, Action::Resume)));
    assert_eq!(app.finish_round(), RoundEnd::Continue);
    assert!(matches!(asked(begin(&mut app, Action::ClearScreen)), Effect::ClearScreen));
    assert!(is_next(app.resume(Reply::Done, 0)));
    assert!(matches!(asked(begin(&mut app, Action::Render)), Effect::Draw));
    assert!(is_next(app.resume(Reply::Done, 0)));
    assert!(is_next(begin(&mut app, Action::Quit)));
    assert_eq!(app.finish_round(), RoundEnd::Stop);
}

#[test]
fn clock_ticks() {
    let mut app = App::new(vec![]);
    app.last_tick_key_events.push(key(KeyCode::Char('g')));
    assert!(is_next(begin(&mut app, Action::Tick)));
    assert!(app.last_tick_key_events.is_empty());
    app.mail_client.session = true;
    assert!(matches!(asked(begin(&mut app, Action::Tick)), Effect::Noop));
    assert!(is_next(app.resume(Reply::Done, 0)));
}

#[test]
fn back_comes_home() {
    for mode in [Mode::AccountForm, Mode::FolderList, Mode::MailList, Mode::MailView, Mode::Compose] {
        let mut app = App::new(vec![]);
        app.mode = mode;
        for _ in 0..3 {
            assert!(is_next(begin(&mut app, Action::Back)));
        }
        assert_eq!(app.mode, Mode::Home);
    }
}

#[test]
fn new_account_is_stored() {
    let mut app = App::new(vec![]);
    begin(&mut app, Action::AddAccount);
    assert_eq!(app.mode, Mode::AccountForm);
    for c in "a@b.c".chars() {
        app.handle_event(Event::Key(key(KeyCode::Char(c))), &KeyBindings::new());
    }
    match asked(begin(&mut app, Action::SaveAccount)) {
        Effect::StoreAccount(a) => {
            assert_eq!((a.email.as_str(), a.display_name), ("a@b.c", None));
            assert_eq!(a.config.security, SecurityMode::Tls);
            assert_eq!((a.config.imap_port, a.config.smtp_port), (993, 465));
        }
        _ => panic!("not stored"),
    }
    let step = app.resume(Reply::Accounts(vec![account(1)]), 0);
    assert!(matches!(asked(step), Effect::ShowAccounts));
    assert_eq!(app.accounts, vec![account(1)]);
    assert!(is_next(app.resume(Reply::Done, 0)));
    assert_eq!(app.mode, Mode::Home);
}

#[test]
fn no_account_is_stored_without_an_address() {
    let mut app = App::new(vec![]);
    begin(&mut app, Action::AddAccount);
    assert!(is_next(begin(&mut app, Action::SaveAccount)));
    assert_eq!(app.mode, Mode::Home);
}

#[test]
fn account_is_removed() {
    let mut app = App::new(vec![account(1), account(2)]);
    match asked(app.begin(Action::DeleteAccount, Some(1), 0)) {
        Effect::RemoveAccount(id) => assert_eq!(id, 2),
        _ => panic!("not removed"),
    }
    assert!(matches!(asked(app.resume(Reply::Done, 0)), Effect::ShowAccounts));
    assert_eq!(app.accounts, vec![account(1)]);
    assert!(is_next(app.resume(Reply::Done, 0)));
    assert!(is_next(app.begin(Action::DeleteAccount, Some(1), 0)));
    assert!(is_next(app.begin(Action::DeleteAccount, None, 0)));
}

#[test]
fn connection() {
    let mut app = App::new(vec![account(4)]);
    match asked(begin(&mut app, Action::Connect)) {
        Effect::Connect(c) => assert_eq!(c, account(4).config),
        _ => panic!("no connection"),
    }
    assert!(app.connecting);
    assert_eq!(app.active_account_id, Some(4));
    assert!(is_next(app.resume(Reply::Outcome(Err("e".to_string())), 0)));
    assert!(!app.connecting);
    assert_eq!(app.pending, vec![Action::ConnectionFailed("连接失败: e".to_string())]);
    app.connecting = true;
    assert!(is_next(begin(&mut app, Action::Connect)));
    let mut none = App::new(vec![]);
    assert!(matches!(begin(&mut none, Action::Connect), Step::EndRound));
    assert_eq!(none.pending, vec![Action::ConnectionFailed("请先添加一个账户".to_string())]);
    assert!(!none.connecting);
}

#[test]
fn folders_after_the_connection() {
    let mut app = in_use();
    assert!(matches!(asked(begin(&mut app, Action::Connected)), Effect::ListFolders));
    match asked(app.resume(Reply::Folders(Ok(vec![folder("INBOX")])), 0)) {
        Effect::CacheFolders(4, f) => assert_eq!(f, vec![folder("INBOX")]),
        _ => panic!("not stored"),
    }
    assert!(is_next(app.resume(Reply::Done, 0)));
    assert_eq!(app.mode, Mode::FolderList);
    assert_eq!(app.folder_list.folders, vec![folder("INBOX")]);
    assert!(app.status_bar.connected);
}

#[test]
fn stored_folders_are_shown_without_a_server() {
    let mut app = in_use();
    begin(&mut app, Action::Connected);
    assert!(matches!(
        asked(app.resume(Reply::Folders(Err("e".to_string())), 0)),
        Effect::RecallFolders(4)
    ));
    assert!(is_next(app.resume(Reply::StoredFolders(vec![folder("X")]), 0)));
    assert_eq!((app.mode, app.pending.len()), (Mode::FolderList, 0));
    assert_eq!(app.folder_list.folders, vec![folder("X")]);
    begin(&mut app, Action::Connected);
    app.resume(Reply::Folders(Err("e".to_string())), 0);
    app.resume(Reply::StoredFolders(vec![]), 0);
    assert_eq!(app.pending, vec![Action::Error("获取文件夹失败: e".to_string())]);
}

#[test]
fn folders_are_listed_again() {
    let mut app = in_use();
    assert!(matches!(asked(begin(&mut app, Action::RefreshFolders)), Effect::ListFolders));
    let mode = app.mode;
    assert!(is_next(app.resume(Reply::Folders(Ok(vec![folder("Y")])), 0)));
    assert_eq!((app.mode, app.folder_list.folders.len()), (mode, 1));
    begin(&mut app, Action::RefreshFolders);
    app.resume(Reply::Folders(Err("e".to_string())), 0);
    assert_eq!(app.pending, vec![Action::Error("刷新文件夹失败: e".to_string())]);
}

#[test]
fn messages_of_a_folder() {
    let app = in_use();
    assert_eq!(app.mode, Mode::MailList);
    assert_eq!(app.mail_list.current_folder, "INBOX");
    assert_eq!(app.mail_list.mails, vec![summary(2), summary(1)]);
    assert_eq!(app.status_bar.current_folder.as_deref(), Some("INBOX"));
}

#[test]
fn stored_messages_are_shown_without_a_server() {
    let mut app = in_use();
    match asked(begin_folder(&mut app, "F", Err("e".to_string()))) {
        Effect::RecallMails(4, f, 50) => assert_eq!(f, "F"),
        _ => panic!("not recalled"),
    }
    assert!(is_next(app.resume(Reply::StoredMails(vec![summary(9)]), 0)));
    assert_eq!(app.mail_list.mails, vec![summary(9)]);
    assert!(app.pending.is_empty());
    begin_folder(&mut app, "F", Err("e".to_string()));
    app.resume(Reply::StoredMails(vec![]), 0);
    assert_eq!(app.pending, vec![Action::Error("获取 F 邮件列表失败: e".to_string())]);
}

#[test]
fn message_is_fetched_marked_stored_and_shown() {
    let mut app = in_use();
    match asked(begin(&mut app, Action::ViewMail)) {
        Effect::FetchMessage(f, uid) => assert_eq!((f.as_str(), uid), ("INBOX", 2)),
        _ => panic!("not fetched"),
    }
    assert_eq!(app.mode, Mode::MailView);
    match asked(app.resume(Reply::Message(Ok(email(2))), 0)) {
        Effect::AddFlag(f, uid, flag) => {
            assert_eq!((f.as_str(), uid, flag), ("INBOX", 2, MailFlag::Seen))
        }
        _ => panic!("not marked"),
    }
    match asked(app.resume(Reply::Done, 0)) {
        Effect::CacheMessage(4, m) => assert_eq!(m, email(2)),
        _ => panic!("not stored"),
    }
    assert!(is_next(app.resume(Reply::Done, 0)));
    assert_eq!(app.mail_view.mail, Some(email(2)));
    assert_eq!(app.mail_list.mails[0].flags, vec![MailFlag::Seen]);
}

#[test]
fn stored_message_is_shown_without_a_server() {
    let mut app = in_use();
    begin(&mut app, Action::ViewMail);
    match asked(app.resume(Reply::Message(Err("e".to_string())), 0)) {
        Effect::RecallMessage(4, f, uid) => assert_eq!((f.as_str(), uid), ("INBOX", 2)),
        _ => panic!("not recalled"),
    }
    assert!(is_next(app.resume(Reply::StoredMessage(Some(email(2))), 0)));
    assert_eq!(app.mail_view.mail, Some(email(2)));
    begin(&mut app, Action::ViewMail);
    app.resume(Reply::Message(Err("e".to_string())), 0);
    app.resume(Reply::StoredMessage(None), 0);
    assert_eq!(app.mode, Mode::MailList);
    assert_eq!(app.pending, vec![Action::Error("查看 INBOX/2 失败: e".to_string())]);
}

#[test]
fn message_is_deleted() {
    let mut app = in_use();
    match asked(begin(&mut app, Action::DeleteMail)) {
        Effect::AddFlag(f, uid, flag) => {
            assert_eq!((f.as_str(), uid, flag), ("INBOX", 2, MailFlag::Deleted))
        }
        _ => panic!("not marked"),
    }
    assert_eq!(app.mail_list.mails, vec![summary(1)]);
    assert!(is_next(app.resume(Reply::Done, 5)));
    assert_eq!(app.pending, vec![Action::Error("邮件已标记为删除".to_string())]);
    assert_eq!(app.status_bar.status_message, Some(("✓ 邮件已删除".to_string(), 5)));
    app.mode = Mode::Home;
    assert!(matches!(begin(&mut app, Action::DeleteMail), Step::EndRound));
    app.mode = Mode::MailView;
    app.mail_view.set_mail(email(9));
    assert!(matches!(asked(begin(&mut app, Action::DeleteMail)), Effect::AddFlag(_, 9, _)));
    assert_eq!(app.mode, Mode::MailList);
}

#[test]
fn star_is_asked_for() {
    let mut app = in_use();
    assert!(matches!(
        asked(begin(&mut app, Action::ToggleFlag)),
        Effect::AddFlag(_, 2, MailFlag::Flagged)
    ));
    assert!(is_next(app.resume(Reply::Done, 0)));
    assert!(matches!(
        asked(begin(&mut app, Action::ToggleFlag)),
        Effect::RemoveFlag(_, 2, MailFlag::Flagged)
    ));
    assert!(is_next(app.resume(Reply::Done, 0)));
    app.mode = Mode::MailView;
    app.mail_view.set_mail(email(9));
    assert!(matches!(
        asked(begin(&mut app, Action::ToggleFlag)),
        Effect::AddFlag(_, 9, MailFlag::Flagged)
    ));
    assert!(is_next(app.resume(Reply::Done, 0)));
    app.mode = Mode::Home;
    assert!(is_next(begin(&mut app, Action::ToggleFlag)));
}

#[test]
fn html_is_saved() {
    let mut app = in_use();
    assert!(is_next(begin(&mut app, Action::SaveHtml)));
    app.mail_view.set_mail(email(9));
    match asked(begin(&mut app, Action::SaveHtml)) {
        Effect::SaveFile(name, html) => {
            assert_eq!(name, "a_b_ c_.html");
            assert_eq!(
                html,
                "<!DOCTYPE html>\n<html><head><meta charset=\"utf-8\">\n<title> a/b: c?</title>\n\
                 <style>body { font-family: sans-serif; padding: 20px; }</style>\n</head><body>\n\
                 <p>\n</body></html>"
            );
        }
        _ => panic!("not saved"),
    }
    assert!(is_next(app.resume(Reply::Saved("/x/y".to_string()), 0)));
    assert_eq!(app.pending, vec![Action::Error("✓ HTML 已保存: /x/y".to_string())]);
    let mut blank = email(12);
    blank.subject = "  ".to_string();
    app.mail_view.set_mail(blank);
    match asked(begin(&mut app, Action::SaveHtml)) {
        Effect::SaveFile(name, _) => assert_eq!(name, "email_12.html"),
        _ => panic!("not saved"),
    }
}

#[test]
fn answers_are_written() {
    let mut app = in_use();
    assert!(is_next(begin(&mut app, Action::Reply)));
    assert_eq!(app.mode, Mode::MailList);
    app.mail_view.set_mail(email(9));
    assert!(is_next(begin(&mut app, Action::Reply)));
    assert_eq!(app.mode, Mode::Compose);
    assert_eq!(app.compose.fields[0].value, "a@x");
    assert_eq!(app.compose.fields[3].value, "Re: a/b: c?");
    begin(&mut app, Action::ReplyAll);
    assert_eq!(app.compose.fields[1].value, "b@x");
    begin(&mut app, Action::Forward);
    assert_eq!(app.compose.fields[0].value, "");
    begin(&mut app, Action::Compose);
    assert_eq!(app.compose.fields[3].value, "");
    begin(&mut app, Action::CancelCompose);
    assert_eq!(app.mode, Mode::MailList);
}

#[test]
fn message_is_sent() {
    let mut app = App::new(vec![account(4)]);
    assert!(is_next(begin(&mut app, Action::Send)));
    assert_eq!(app.pending, vec![Action::Error("未连接账户，无法发送".to_string())]);
    let mut app = in_use();
    begin(&mut app, Action::Compose);
    app.compose.fields[0].value = "x@y".to_string();
    match asked(begin(&mut app, Action::Send)) {
        Effect::SendMail(c, m) => {
            assert_eq!(c, account(4).config);
            assert_eq!((m.from.as_str(), m.to.len()), ("u@example.com", 1));
        }
        _ => panic!("not sent"),
    }
    assert!(is_next(app.resume(Reply::Outcome(Err("e".to_string())), 0)));
    assert_eq!((app.mode, app.compose.fields[0].value.as_str()), (Mode::Compose, "x@y"));
    assert_eq!(app.pending, vec![Action::Error("发送失败: e".to_string())]);
    begin(&mut app, Action::Send);
    assert!(is_next(app.resume(Reply::Outcome(Ok(())), 0)));
    assert_eq!(app.mode, Mode::MailList);
}

#[test]
fn disconnection() {
    let mut app = in_use();
    app.status_bar.connected = true;
    assert!(matches!(asked(begin(&mut app, Action::Disconnect)), Effect::Disconnect));
    assert!(is_next(app.resume(Reply::Done, 0)));
    assert_eq!(app.mode, Mode::Home);
    assert!(!app.status_bar.connected);
    assert_eq!(app.status_bar.current_folder, None);
}

#[test]
fn events_become_actions() {
    let mut app = App::new(vec![]);
    let none = KeyBindings::new();
    for e in [Event::Quit, Event::Tick, Event::Render, Event::Resize(3, 4), Event::Other] {
        app.handle_event(e, &none);
    }
    let expected = [Action::Quit, Action::Tick, Action::Render, Action::Resize(3, 4)];
    for action in expected {
        assert_eq!(app.next_action(), Some(action));
    }
    assert_eq!(app.next_action(), None);
}

#[test]
fn keys_by_their_bindings() {
    let mut app = App::new(vec![]);
    app.mode = Mode::FolderList;
    let b = bindings();
    app.handle_event(Event::Key(key(KeyCode::Char('q'))), &b);
    assert_eq!(app.pending, vec![Action::Quit]);
    app.pending.clear();
    app.handle_event(Event::Key(key(KeyCode::Char('g'))), &b);
    assert!(app.pending.is_empty());
    app.handle_event(Event::Key(key(KeyCode::Char('g'))), &b);
    assert_eq!(app.pending, vec![Action::Back]);
    app.pending.clear();
    app.mode = Mode::Compose;
    app.handle_event(Event::Key(key(KeyCode::Char('q'))), &b);
    assert!(app.pending.is_empty());
    assert_eq!(app.compose.fields[0].value, "q");
    app.mode = Mode::MailView;
    app.handle_event(Event::Key(key(KeyCode::Char('q'))), &b);
    assert!(app.pending.is_empty());
}

#[test]
fn shifted_letters_are_the_same_key() {
    let mut map = KeyMap::new();
    map.insert(vec![key(KeyCode::Char('R'))], Action::RefreshFolders);
    let shifted = Key { shift: true, ..key(KeyCode::Char('r')) };
    assert_eq!(map.get(&vec![shifted]), Some(Action::RefreshFolders));
    assert_eq!(map.get(&vec![key(KeyCode::Char('r'))]), None);
    map.insert(vec![shifted], Action::Back);
    assert_eq!(map.get(&vec![key(KeyCode::Char('R'))]), Some(Action::Back));
    assert_eq!(shifted.normalize(), shifted.normalize().normalize());
    let press = |c: char, m| crossterm::event::KeyEvent::new(crossterm::event::KeyCode::Char(c), m);
    assert_eq!(
        press('R', crossterm::event::KeyModifiers::NONE),
        press('r', crossterm::event::KeyModifiers::SHIFT)
    );
}

#[test]
fn keys_of_the_views() {
    let mut app = in_use();
    let none = KeyBindings::new();
    app.handle_event(Event::Key(key(KeyCode::Down)), &none);
    assert_eq!(app.mail_list.selected_uid(), Some(1));
    app.handle_event(Event::Key(key(KeyCode::Enter)), &none);
    assert_eq!(app.pending, vec![Action::ViewMail]);
}

#[test]
fn screen_is_drawn() {
    let mut app = App::new(vec![]);
    assert!(app.can_render());
    assert_eq!(app.render(SCREEN, 0).len(), 3);
    let mut app = in_use();
    assert!(app.can_render());
    let drawn = app.render(SCREEN, 0);
    assert_eq!(drawn.len(), 4);
    assert!(matches!(&drawn[0], Drawn::List(_, l) if l.block.title == " 📨 收件箱 "));
    app.mail_list.current_folder = "&***-".to_string();
    assert!(!app.can_render());
}
