//! What is shown of folders and messages, and what the keys do there.

use vstd::prelude::*;

use crate::action::{Action, ActionModel, Mode};
use crate::columns;
use crate::dates;
use crate::dates::Moment;
use crate::folder_list;
use crate::folder_list::{FolderList, FoldersModel};
use crate::imap::FolderModel;
use crate::keys::{Key, KeyCode};
use crate::mail_list;
use crate::mail_list::{MailList, MailsModel};
use crate::mail_view;
use crate::mail_view::{MailView, ViewModel};
use crate::number;
use crate::number::NumberError;
use crate::status_bar;
use crate::status_bar::BarModel;
use crate::text;
use crate::text::Sep;
use crate::types::{EmailModel, MailFlag, SummaryModel};
use crate::ui;
use crate::ui::{Area, Content, Drawn, DrawnModel, LineModel};
use crate::utils;

verus! {

broadcast use vstd::string::group_string_axioms;

proof fn lemma_folders()
    ensures
        "INBOX"@.len() == 5,
        "Sent"@.len() == 4,
        "Sent Messages"@.len() == 13,
        "Sent Items"@.len() == 10,
        "Drafts"@.len() == 6,
        "Trash"@.len() == 5,
        "Deleted Messages"@.len() == 16,
        "Deleted Items"@.len() == 13,
        "Junk"@.len() == 4,
        "Spam"@.len() == 4,
        "Junk Email"@.len() == 10,
        "Archive"@.len() == 7,
        "Archives"@.len() == 8,
        "Outbox"@.len() == 6,
        "Important"@.len() == 9,
        "Flagged"@.len() == 7,
        "Starred"@.len() == 7,
        "INBOX"@[0] == 'I',
        "Trash"@[0] == 'T',
        "Sent"@[1] == 'e',
        "Junk"@[1] == 'u',
        "Spam"@[1] == 'p',
        "Sent Messages"@[0] == 'S',
        "Deleted Items"@[0] == 'D',
        "Sent Items"@[0] == 'S',
        "Junk Email"@[0] == 'J',
        "Drafts"@[0] == 'D',
        "Outbox"@[0] == 'O',
        "Archive"@[0] == 'A',
        "Flagged"@[0] == 'F',
        "Starred"@[0] == 'S',
{
    reveal_strlit("INBOX");
    reveal_strlit("Sent");
    reveal_strlit("Sent Messages");
    reveal_strlit("Sent Items");
    reveal_strlit("Drafts");
    reveal_strlit("Trash");
    reveal_strlit("Deleted Messages");
    reveal_strlit("Deleted Items");
    reveal_strlit("Junk");
    reveal_strlit("Spam");
    reveal_strlit("Junk Email");
    reveal_strlit("Archive");
    reveal_strlit("Archives");
    reveal_strlit("Outbox");
    reveal_strlit("Important");
    reveal_strlit("Flagged");
    reveal_strlit("Starred");
}

/// Well-known folders are shown by their Chinese names, name by name, and every other folder by its
/// own.
#[verifier::rlimit(40)]
pub proof fn folders_are_shown_by_name(name: Seq<char>)
    ensures
        name == "INBOX"@ ==> utils::shown_name(name) == "收件箱"@,
        name == "Sent"@ ==> utils::shown_name(name) == "已发送"@,
        name == "Sent Messages"@ ==> utils::shown_name(name) == "已发送"@,
        name == "Sent Items"@ ==> utils::shown_name(name) == "已发送"@,
        name == "Drafts"@ ==> utils::shown_name(name) == "草稿箱"@,
        name == "Trash"@ ==> utils::shown_name(name) == "垃圾箱"@,
        name == "Deleted Messages"@ ==> utils::shown_name(name) == "垃圾箱"@,
        name == "Deleted Items"@ ==> utils::shown_name(name) == "垃圾箱"@,
        name == "Junk"@ ==> utils::shown_name(name) == "垃圾邮件"@,
        name == "Spam"@ ==> utils::shown_name(name) == "垃圾邮件"@,
        name == "Junk Email"@ ==> utils::shown_name(name) == "垃圾邮件"@,
        name == "Archive"@ ==> utils::shown_name(name) == "归档"@,
        name == "Archives"@ ==> utils::shown_name(name) == "归档"@,
        name == "Outbox"@ ==> utils::shown_name(name) == "发件箱"@,
        name == "Important"@ ==> utils::shown_name(name) == "重要邮件"@,
        name == "Flagged"@ ==> utils::shown_name(name) == "星标邮件"@,
        name == "Starred"@ ==> utils::shown_name(name) == "星标邮件"@,
        name != "INBOX"@
            && name != "Sent"@
            && name != "Sent Messages"@
            && name != "Sent Items"@
            && name != "Drafts"@
            && name != "Trash"@
            && name != "Deleted Messages"@
            && name != "Deleted Items"@
            && name != "Junk"@
            && name != "Spam"@
            && name != "Junk Email"@
            && name != "Archive"@
            && name != "Archives"@
            && name != "Outbox"@
            && name != "Important"@
            && name != "Flagged"@
            && name != "Starred"@ ==> utils::shown_name(name)
            == name,
{
    lemma_folders();
}

/// Whether the key goes down.
pub open spec fn goes_down(key: Key) -> bool {
    key.code == KeyCode::Char('j') || key.code == KeyCode::Down
}

/// Whether the key goes up.
pub open spec fn goes_up(key: Key) -> bool {
    key.code == KeyCode::Char('k') || key.code == KeyCode::Up
}

/// Whether `after` is chosen where `before` was, of so many, and the key went down.
pub open spec fn chosen_below(before: Option<usize>, after: Option<usize>, len: nat) -> bool {
    &&& before is None ==> after == Some(0usize)
    &&& before is Some && before->Some_0 + 1 < len ==> after is Some && after->Some_0
        == before->Some_0 + 1
    &&& before is Some && before->Some_0 + 1 >= len && len > 0 ==> after is Some && after->Some_0
        == len - 1
    &&& before is Some && len == 0 ==> after == Some(0usize)
}

/// Whether `after` is chosen where `before` was, and the key went up.
pub open spec fn chosen_above(before: Option<usize>, after: Option<usize>) -> bool {
    &&& before is None ==> after == Some(0usize)
    &&& before is Some && before->Some_0 > 0 ==> after is Some && after->Some_0 == before->Some_0
        - 1
    &&& before == Some(0usize) ==> after == Some(0usize)
}

/// In the list of folders the keys go down and up, one by one, and the enter key opens the folder
/// that is chosen, by its own name; any other key does nothing.
pub proof fn keys_among_folders(l: FoldersModel, key: Key)
    requires
        l.folders.len() <= usize::MAX,
    ensures
        ({
            let (m, action) = folder_list::folders_key(l, key);
            &&& m.folders == l.folders
            &&& goes_down(key) ==> action is None && chosen_below(
                l.state.selected,
                m.state.selected,
                l.folders.len(),
            )
            &&& goes_up(key) ==> action is None && chosen_above(l.state.selected, m.state.selected)
            &&& key.code == KeyCode::Enter ==> m == l
            &&& key.code == KeyCode::Enter && (l.state.selected is Some && l.state.selected->Some_0
                < l.folders.len()) ==> action == Some(
                ActionModel::SelectFolder(l.folders[l.state.selected->Some_0 as int].name),
            )
            &&& key.code == KeyCode::Enter && !(l.state.selected is Some && l.state.selected->Some_0
                < l.folders.len()) ==> action is None
            &&& !goes_down(key) && !goes_up(key) && key.code != KeyCode::Enter ==> m == l && action
                is None
        }),
{
}

/// In the list of messages the keys go down and up, one by one, and the enter key opens the message
/// that is chosen; any other key does nothing.
pub proof fn keys_among_messages(l: MailsModel, key: Key)
    requires
        l.mails.len() <= usize::MAX,
    ensures
        ({
            let (m, action) = mail_list::mails_key(l, key);
            &&& m.mails == l.mails && m.current_folder == l.current_folder
            &&& goes_down(key) ==> action is None && chosen_below(
                l.state.selected,
                m.state.selected,
                l.mails.len(),
            )
            &&& goes_up(key) ==> action is None && chosen_above(l.state.selected, m.state.selected)
            &&& key.code == KeyCode::Enter ==> m == l
            &&& key.code == KeyCode::Enter && (l.state.selected is Some
                && l.state.selected->Some_0 < l.mails.len())
                ==> action == Some(ActionModel::ViewMail)
            &&& key.code == KeyCode::Enter && !(l.state.selected is Some && l.state.selected->Some_0
                < l.mails.len()) ==> action is None
            &&& !goes_down(key) && !goes_up(key) && key.code != KeyCode::Enter ==> m == l && action
                is None
        }),
{
}

/// A list of messages shows just those that it is given, of which the first is chosen, and its items
/// are made anew; and so does a list of folders.
pub proof fn lists_show_what_they_are_given(
    l: MailsModel,
    mails: Seq<SummaryModel>,
    f: FoldersModel,
    folders: Seq<FolderModel>,
)
    ensures
        ({
            let m = mail_list::showing(l, mails);
            &&& m.mails == mails
            &&& m.current_folder == l.current_folder
            &&& mails.len() > 0 ==> m.state.selected == Some(0usize)
            &&& mails.len() == 0 ==> m.state.selected is None
            &&& m.dirty
        }),
        ({
            let g = folder_list::showing(f, folders);
            &&& g.folders == folders
            &&& folders.len() > 0 ==> g.state.selected == Some(0usize)
            &&& folders.len() == 0 ==> g.state.selected is None
        }),
{
}

/// While a message is read the keys scroll it by a line, turn to its HTML and to its text, save its
/// HTML if it has any, and save and choose its attachments; any other key does nothing.
pub proof fn keys_in_a_message(v: ViewModel, m: EmailModel, key: Key)
    requires
        v.mail == Some(m),
        m.attachments.len() <= usize::MAX,
    ensures
        ({
            let (w, action) = mail_view::view_key(v, key);
            let n = m.attachments.len();
            &&& w.mail == v.mail
            &&& goes_down(key) ==> action is None && w.scroll == if v.scroll == u16::MAX {
                u16::MAX as int
            } else {
                v.scroll + 1
            }
            &&& goes_up(key) ==> action is None && w.scroll == if v.scroll == 0 {
                0
            } else {
                v.scroll - 1
            }
            &&& !goes_down(key) && !goes_up(key) ==> w.scroll == v.scroll
            &&& key.code == KeyCode::Char('h') ==> action is None && w.show_html
            &&& key.code == KeyCode::Char('t') ==> action is None && !w.show_html
            &&& key.code != KeyCode::Char('h') && key.code != KeyCode::Char('t') ==> w.show_html
                == v.show_html
            &&& key.code == KeyCode::Char('E') && m.body_html is Some ==> action == Some(
                ActionModel::SaveHtml,
            )
            &&& key.code == KeyCode::Char('E') && m.body_html is None ==> action is None
            &&& key.code == KeyCode::Char('o') && n > 0 ==> action == Some(
                ActionModel::DownloadAttachment(v.attachment_idx),
            )
            &&& key.code == KeyCode::Char('o') && n == 0 ==> action is None
            &&& key.code == KeyCode::Left ==> action is None && w.attachment_idx == if n > 0
                && v.attachment_idx > 0 {
                v.attachment_idx - 1
            } else {
                v.attachment_idx as int
            }
            &&& key.code == KeyCode::Right ==> action is None && w.attachment_idx
                == if v.attachment_idx + 1 < n {
                v.attachment_idx + 1
            } else {
                v.attachment_idx as int
            }
            &&& key.code != KeyCode::Left && key.code != KeyCode::Right ==> w.attachment_idx
                == v.attachment_idx
            &&& key.code != KeyCode::Char('E') && key.code != KeyCode::Char('o') ==> action is None
        }),
{
}

/// The HTML of a message is shown where that was asked for; else its text, with what stands for other
/// characters replaced by them, unless that is too short to be worth it; else a hint where there is
/// HTML, and a word where there is neither.
pub proof fn body_is_chosen(m: EmailModel, html: Seq<char>, t: Seq<char>)
    ensures
        m.body_html == Some(html) ==> mail_view::shown_body(m, true) == (html, false),
        m.body_html is None ==> mail_view::shown_body(m, true).0 == "(无 HTML 正文)"@,
        m.body_text == Some(t) && crate::header::byte_len(text::trimmed(t)) > 3
            ==> mail_view::shown_body(m, false) == (mail_view::entities_decoded(t), false),
        (m.body_text is None || m.body_text == Some(t) && crate::header::byte_len(text::trimmed(t))
            <= 3) && m.body_html is Some ==> mail_view::shown_body(m, false)
            == (mail_view::html_hint(), true),
        (m.body_text is None || m.body_text == Some(t) && crate::header::byte_len(text::trimmed(t))
            <= 3) && m.body_html is None ==> mail_view::shown_body(m, false)
            == ("(无正文)"@, false),
{
}

/// The text of what is drawn, if it is lines.
pub open spec fn lines_of(d: DrawnModel) -> Seq<LineModel> {
    match d {
        Drawn::Paragraph(_, p) => match p.content {
            Content::Lines(l) => l,
            _ => seq![],
        },
        _ => seq![],
    }
}

/// A message is drawn with its subject as the title, its sender, all its recipients and its date in
/// its head, its body below, and the names of its attachments, each with its number and its size, of
/// which the chosen one is marked.
pub proof fn message_is_drawn(v: ViewModel, m: EmailModel, parts: Seq<Area>, i: int)
    requires
        v.mail == Some(m),
    ensures
        ({
            let d = mail_view::view_drawn(v, parts);
            let head = lines_of(d[0]);
            &&& d.len() == if m.attachments.len() == 0 {
                2int
            } else {
                3
            }
            &&& d[0] matches Drawn::Paragraph(at, p) && at == parts[0] && p.block is Some
                && p.block->Some_0.title == " 📄 "@ + m.subject + " "@
            &&& head.len() == 3
            &&& m.from.len() > 0 ==> head[0][0].text == " 发件人: "@ + m.from
            &&& m.from.len() == 0 ==> head[0][0].text == " 发件人: "@ + "(未知发件人)"@
            &&& m.to.len() > 0 ==> head[1][0].text == " 收件人: "@ + text::joined(m.to, "; "@)
            &&& m.to.len() == 0 ==> head[1][0].text == " 收件人: "@ + "(无收件人)"@
            &&& head[2][0].text == " 日  期: "@ + dates::long_date(m.date)
            &&& d[1] matches Drawn::Paragraph(at, p) && at == parts[1] && p.content
                == ui::ContentModel::Text(
                mail_view::shown_body(m, v.show_html).0,
            ) && p.scroll == v.scroll && p.wrap
            &&& 0 <= i < m.attachments.len() ==> lines_of(d[2])[i][0].text == (if i
                == v.attachment_idx {
                "▶ "@
            } else {
                "  "@
            }) + "["@ + number::decimal(i as nat) + "] "@ + m.attachments[i].filename + "  ("@
                + number::size_text(m.attachments[i].size as nat) + ")"@
        }),
{
}

/// Every message has its line in the list, in their order: a star where it has one, else a dot where
/// it was not seen; the name of its sender; its subject; and a clip where it has attachments.
pub proof fn messages_are_listed(mails: Seq<SummaryModel>, width: u16, i: int)
    requires
        0 <= i < mails.len(),
    ensures
        ({
            let items = mail_list::mail_items(mails, width);
            let m = mails[i];
            let line = items[i][0];
            let n = line.len();
            &&& items.len() == mails.len() && items[i].len() == 1
            &&& n == if width >= 70 {
                6int
            } else {
                5
            }
            &&& m.flags.contains(MailFlag::Flagged) ==> line[0].text == "★"@ + " "@
            &&& !m.flags.contains(MailFlag::Flagged) && !m.flags.contains(MailFlag::Seen)
                ==> line[0].text == "●"@ + " "@
            &&& !m.flags.contains(MailFlag::Flagged) && m.flags.contains(MailFlag::Seen)
                ==> line[0].text == " "@ + " "@
            &&& line[1].text == mail_list::cell(columns::sender_name(m.from), 14)
            &&& width >= 70 ==> line[2].text == columns::filling(dates::short_date(m.date), 10)
                + dates::short_date(m.date)
            &&& line[n - 2].text == mail_list::cell(m.subject, mail_list::subject_cols(width))
            &&& m.has_attachments ==> line[n - 1].text == " 📎"@
            &&& !m.has_attachments ==> line[n - 1].text == ""@
        }),
{
}

/// The name of a sender is what stands before its address; without a name it is the whole text.
pub proof fn sender_is_shown_by_name(name: Seq<char>, address: Seq<char>)
    requires
        name.len() > 0,
        !name.contains('<'),
        text::trimmed(name) == name,
    ensures
        columns::sender_name(name + seq![' ', '<'] + address) == name,
        columns::sender_name(name) == name,
        columns::sender_name(seq!['<'] + address) == seq!['<'] + address,
{
    let s = name + seq![' ', '<'] + address;
    let n = name.len() as int;
    assert forall|j: int| 0 <= j < n + 1 implies s[j] != '<' by {
        if j < n {
            assert(name.contains(name[j]));
            assert(s[j] == name[j]);
        }
    }
    assert(s[n + 1] == '<');
    lemma_char_at(s, '<', 0, n + 1);
    assert(s.subrange(0, n + 1) =~= name.push(' '));
    lemma_space_behind(name);
    assert forall|j: int| 0 <= j < n implies name[j] != '<' by {
        assert(name.contains(name[j]));
    }
    lemma_no_char(name, '<', 0);
    let t = seq!['<'] + address;
    assert(t[0] == '<');
    assert(t.subrange(0, 0) =~= seq![]);
    assert(text::trimmed(Seq::<char>::empty()) =~= seq![]) by {
        text::trimmed_ends(Seq::<char>::empty());
    }
}

proof fn lemma_char_at(s: Seq<char>, c: char, i: int, k: int)
    requires
        0 <= i <= k < s.len(),
        s[k] == c,
        forall|j: int| i <= j < k ==> s[j] != c,
    ensures
        text::find_char(s, c, i) == k,
    decreases k - i,
{
    if i < k {
        lemma_char_at(s, c, i + 1, k);
    }
}

proof fn lemma_no_char(s: Seq<char>, c: char, i: int)
    requires
        0 <= i <= s.len(),
        forall|j: int| i <= j < s.len() ==> s[j] != c,
    ensures
        text::find_char(s, c, i) == s.len(),
    decreases s.len() - i,
{
    if i < s.len() {
        lemma_no_char(s, c, i + 1);
    }
}

proof fn lemma_space_behind(s: Seq<char>)
    requires
        s.len() > 0,
        text::trimmed(s) == s,
    ensures
        text::trimmed(s.push(' ')) == s,
{
    let t = s.push(' ');
    text::trimmed_ends(s);
    assert(!text::space(s[0]) && !text::space(s.last()));
    assert(t[0] == s[0]);
    assert(text::skip_space(t, 0) == 0);
    let n = s.len() as int;
    assert(t[n] == ' ');
    assert(t[n - 1] == s.last());
    assert(text::drop_space(t, 0, n) == n);
    assert(text::drop_space(t, 0, n + 1) == n);
    assert(t.subrange(0, n) =~= s);
}

/// Whether the text is the notation of this number.
pub open spec fn writes(s: Seq<char>, n: int) -> bool {
    number::number_of(s, 10, 99999) == Ok::<int, NumberError>(n)
}

proof fn lemma_two_digits(n: nat)
    requires
        n < 100,
    ensures
        number::two_digits(n).len() == 2,
        writes(number::two_digits(n), n as int),
        forall|i: int|
            0 <= i < 2 ==> '0' <= #[trigger] number::two_digits(n)[i] <= '9',
{
    let s = number::two_digits(n);
    reveal_strlit("0");
    reveal_with_fuel(number::decimal, 3);
    reveal_with_fuel(number::digits_from, 4);
    if n < 10 {
        assert(s =~= seq!['0', number::digit(n)]);
    } else {
        assert(number::decimal(n / 10) =~= seq![number::digit(n / 10)]);
        assert(s =~= seq![number::digit(n / 10), number::digit(n % 10)]);
    }
    assert(number::digit_value(s[0], 10) == Some((n / 10) as int));
    assert(number::digit_value(s[1], 10) == Some((n % 10) as int));
}

/// A date shows its year, month and day, in this order, and a moment also the day of the week, the
/// hour and the minute; each can be read back.
pub proof fn dates_are_shown(m: Moment)
    requires
        0 <= m.year <= 9999,
        1 <= m.month <= 12,
        1 <= m.day <= 31,
        m.hour <= 23,
        m.minute <= 59,
    ensures
        ({
            let words = text::pieces(dates::day_text(m), Sep::Char('/'));
            words.len() == 3 && writes(words[0], m.year as int) && writes(words[1], m.month as int)
                && writes(words[2], m.day as int) && words[1].len() == 2 && words[2].len() == 2
        }),
        ({
            let words = text::pieces(dates::moment_text(m), Sep::Char(' '));
            let time = text::pieces(words[2], Sep::Char(':'));
            words.len() == 3 && words[0] == dates::day_text(m) && words[1] == dates::weekday_text(
                m.weekday,
            ) && time.len() == 2 && writes(time[0], m.hour as int) && writes(
                time[1],
                m.minute as int,
            )
        }),
{
    let year = number::decimal(m.year as nat);
    let month = number::two_digits(m.month as nat);
    let day = number::two_digits(m.day as nat);
    let hour = number::two_digits(m.hour as nat);
    let minute = number::two_digits(m.minute as nat);
    number::decimal_digits(m.year as nat);
    number::decimal_reads_back(m.year as nat, 99999);
    lemma_two_digits(m.month as nat);
    lemma_two_digits(m.day as nat);
    lemma_two_digits(m.hour as nat);
    lemma_two_digits(m.minute as nat);
    reveal_strlit("/");
    reveal_strlit(" ");
    reveal_strlit(":");
    let slash = Sep::Char('/');
    assert(dates::day_text(m) =~= year.push('/') + (month.push('/') + day));
    assert(text::unparted(year, slash) && text::unparted(month, slash) && text::unparted(day, slash));
    text::pieces_of_more(year, '/', month.push('/') + day, slash);
    text::pieces_of_more(month, '/', day, slash);
    text::pieces_of_one(day, slash);
    assert(seq![year] + (seq![month] + seq![day]) =~= seq![year, month, day]);
    let blank = Sep::Char(' ');
    let date = dates::day_text(m);
    let week = dates::weekday_text(m.weekday);
    let time = hour + ":"@ + minute;
    lemma_weekdays(m.weekday);
    assert(text::unparted(date, blank)) by {
        assert forall|i: int| 0 <= i < date.len() implies !blank.at(#[trigger] date[i]) by {
            let n = year.len() as int;
            if i < n {
                assert(date[i] == year[i]);
            } else if i > n && i < n + 3 {
                assert(date[i] == month[i - n - 1]);
            } else if i > n + 3 {
                assert(date[i] == day[i - n - 4]);
            }
        }
    }
    assert(text::unparted(time, blank)) by {
        assert forall|i: int| 0 <= i < time.len() implies !blank.at(#[trigger] time[i]) by {
            if i < 2 {
                assert(time[i] == hour[i]);
            } else if i > 2 {
                assert(time[i] == minute[i - 3]);
            }
        }
    }
    assert(dates::moment_text(m) =~= date.push(' ') + (week.push(' ') + time));
    text::pieces_of_more(date, ' ', week.push(' ') + time, blank);
    text::pieces_of_more(week, ' ', time, blank);
    text::pieces_of_one(time, blank);
    assert(seq![date] + (seq![week] + seq![time]) =~= seq![date, week, time]);
    let colon = Sep::Char(':');
    assert(text::unparted(hour, colon) && text::unparted(minute, colon));
    assert(time =~= hour.push(':') + minute);
    text::pieces_of_more(hour, ':', minute, colon);
    text::pieces_of_one(minute, colon);
    assert(seq![hour] + seq![minute] =~= seq![hour, minute]);
}

proof fn lemma_weekdays(day: u32)
    ensures
        text::unparted(dates::weekday_text(day), Sep::Char(' ')),
{
    reveal_strlit("周一");
    reveal_strlit("周二");
    reveal_strlit("周三");
    reveal_strlit("周四");
    reveal_strlit("周五");
    reveal_strlit("周六");
    reveal_strlit("周日");
}

/// The days of the week from Monday on, and the time of Beijing.
pub proof fn dates_are_those_of_beijing(s: Seq<char>, m: Moment)
    ensures
        dates::weekday_text(0) == "周一"@,
        dates::weekday_text(1) == "周二"@,
        dates::weekday_text(2) == "周三"@,
        dates::weekday_text(3) == "周四"@,
        dates::weekday_text(4) == "周五"@,
        dates::weekday_text(5) == "周六"@,
        dates::weekday_text(6) == "周日"@,
        dates::rfc2822_moment(text::trimmed(s), 28800) == Some(m) ==> dates::short_date(s)
            == dates::day_text(m),
        dates::rfc2822_moment(text::trimmed(s), 28800) is None ==> dates::short_date(s) == s,
        dates::rfc2822_moment(s, 28800) == Some(m) ==> dates::long_date(s)
            == dates::moment_text(m),
        dates::rfc2822_moment(s, 28800) is None ==> dates::long_date(s) == s,
{
}

/// A size is shown in bytes below a kilobyte, in kilobytes below a megabyte, and else in megabytes,
/// to the nearest tenth.
pub proof fn sizes_are_rounded(bytes: nat)
    requires
        bytes < 0x20_0000_0000_0000,
    ensures
        bytes < 1024 ==> number::size_text(bytes) == number::decimal(bytes) + " B"@,
        1024 <= bytes < 1024 * 1024 ==> exists|t: nat|
            number::size_text(bytes) == #[trigger] number::tenths_text(t) + " KB"@ && -1024 <= 2 * (t
                * 1024 - bytes * 10) <= 1024,
        1024 * 1024 <= bytes ==> exists|t: nat|
            number::size_text(bytes) == #[trigger] number::tenths_text(t) + " MB"@ && -1048576 <= 2
                * (t * 1048576 - bytes * 10) <= 1048576,
{
    if bytes >= 1_048_576 {
        assert(number::to_53_bits(bytes as int, 1) == bytes) by {
            assert(bytes as int / 1 == bytes && bytes as int % 1 == 0);
        }
        let t = number::nearest(bytes as int * 10, 1_048_576);
        assert(t >= 0);
        assert(number::size_text(bytes) == number::tenths_text(t as nat) + " MB"@);
    } else if bytes >= 1024 {
        let t = number::nearest(bytes as int * 10, 1024);
        assert(number::size_text(bytes) == number::tenths_text(t as nat) + " KB"@);
    }
}

/// Tenths are shown as the whole number, a dot and the last digit.
pub proof fn tenths_are_shown(t: nat)
    ensures
        number::tenths_text(t) == number::decimal(t / 10) + seq!['.'] + number::decimal(t % 10),
{
    assert(number::decimal(t % 10) =~= seq![number::digit(t % 10)]);
    assert(number::tenths_text(t) =~= number::decimal(t / 10) + seq!['.'] + number::decimal(t % 10));
}

/// The status bar tells of what was done: of the connection and its end, of the folder, of errors, and
/// of messages that were sent, deleted, marked or read; of any other action it says nothing.
pub proof fn bar_tells_of_actions(bar: BarModel, text: Seq<char>, now: u64)
    ensures
        ({
            let b = status_bar::informed(bar, Action::Connected, now);
            b.connected && b.current_folder == bar.current_folder && b.status_message
                == bar.status_message && b.mode == bar.mode
        }),
        ({
            let b = status_bar::informed(bar, Action::Disconnect, now);
            !b.connected && b.current_folder is None && b.status_message == bar.status_message
                && b.mode == bar.mode
        }),
        ({
            let b = status_bar::informed(bar, Action::SelectFolder(text), now);
            b.current_folder == Some(text) && b.connected == bar.connected && b.status_message
                == bar.status_message
        }),
        status_bar::informed(bar, Action::ConnectionFailed(text), now).status_message == Some(
            (text, now),
        ),
        status_bar::informed(bar, Action::ConnectionFailed(text), now).connected == bar.connected,
        status_bar::informed(bar, Action::Error(text), now).status_message == Some((text, now)),
        status_bar::informed(bar, Action::Error(text), now).connected == bar.connected,
        status_bar::informed(bar, Action::Send, now).status_message == Some(
            ("✓ 邮件已发送"@, now),
        ),
        status_bar::informed(bar, Action::DeleteMail, now).status_message == Some(
            ("✓ 邮件已删除"@, now),
        ),
        status_bar::informed(bar, Action::ToggleFlag, now).status_message == Some(
            ("✓ 已切换星标"@, now),
        ),
        status_bar::informed(bar, Action::ToggleRead, now).status_message == Some(
            ("✓ 已切换已读/未读"@, now),
        ),
        status_bar::informed(bar, Action::Tick, now) == bar,
        status_bar::informed(bar, Action::Render, now) == bar,
        status_bar::informed(bar, Action::ViewMail, now) == bar,
        status_bar::informed(bar, Action::Reply, now) == bar,
        status_bar::informed(bar, Action::Back, now) == bar,
{
    reveal(status_bar::informed);
}

/// A message of the status bar stays for four seconds and is gone from then on.
pub proof fn bar_forgets_its_message(bar: BarModel, text: Seq<char>, at: u64, now: u64)
    requires
        bar.status_message == Some((text, at)),
        at <= now,
    ensures
        now - at < 4000 ==> status_bar::up_to_date(bar, now) == bar,
        now - at >= 4000 ==> status_bar::up_to_date(bar, now).status_message is None,
        status_bar::up_to_date(bar, now).connected == bar.connected,
        status_bar::up_to_date(bar, now).mode == bar.mode,
        status_bar::up_to_date(bar, now).current_folder == bar.current_folder,
{
}

/// The status bar shows whether there is a connection, the folder that was opened, and its message or
/// else the keys of the view.
pub proof fn bar_is_drawn(bar: BarModel, text: Seq<char>, at: u64)
    ensures
        bar.connected ==> status_bar::left_line(bar)[1].text == "已连接"@,
        !bar.connected ==> status_bar::left_line(bar)[1].text == "未连接"@,
        bar.current_folder matches Some(n) ==> status_bar::left_line(bar)[3].text
            == utils::shown_name(utils::utf7_text(n)),
        bar.current_folder is None ==> status_bar::left_line(bar)[3].text == "未选择文件夹"@,
        bar.status_message == Some((text, at)) ==> status_bar::right_line(bar)[0].text == " ⓘ "@ + text
            + " "@,
        bar.status_message is None && bar.mode == Mode::Home ==> status_bar::right_line(bar)[0].text
            == "q:退出  ↑↓:选择  Enter:连接  a:添加  d:删除"@,
        bar.status_message is None && bar.mode == Mode::AccountForm ==> status_bar::right_line(
            bar,
        )[0].text == "Tab/↑↓:切换  Enter:确认  Ctrl+S:保存  Esc:取消"@,
        bar.status_message is None && bar.mode == Mode::FolderList ==> status_bar::right_line(
            bar,
        )[0].text == "q:退出  j↓/k↑  Enter:进入  R:刷新"@,
        bar.status_message is None && bar.mode == Mode::MailList ==> status_bar::right_line(bar)[0].text
            == "q:退出  j↓/k↑  Enter:查看  r:回复  d:删除  s:星标"@,
        bar.status_message is None && bar.mode == Mode::MailView ==> status_bar::right_line(bar)[0].text
            == "q:退出  r:回复  d:删除  h:HTML  t:文本  j/k:上下  s:星标"@,
        bar.status_message is None && bar.mode == Mode::Compose ==> status_bar::right_line(bar)[0].text
            == "Ctrl+S:发送  Esc:取消"@,
{
}

} // verus!
