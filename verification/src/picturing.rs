//! What the views show of what they hold, and how the terminal is divided among their parts.

use vstd::prelude::*;

use crate::account_form;
use crate::account_form::FormModel;
use crate::action::Mode;
use crate::app::AppModel;
use crate::columns;
use crate::compose;
use crate::compose::ComposeModel;
use crate::events;
use crate::folder_list;
use crate::folder_list::FoldersModel;
use crate::header;
use crate::mail_list;
use crate::mail_list::MailsModel;
use crate::mail_view;
use crate::mail_view::ViewModel;
use crate::number;
use crate::status_bar;
use crate::status_bar::BarModel;
use crate::text;
use crate::types::{EmailModel, MailFlag, SummaryModel};
use crate::ui;
use crate::ui::{Area, DrawnModel, Ink, LineModel, ListState, Room, Tint};
use crate::utils;

verus! {

broadcast use vstd::string::group_string_axioms;

/// The items of what is drawn as a list.
pub open spec fn items_of(d: DrawnModel) -> Seq<Seq<LineModel>> {
    d->List_1.items
}

/// The title of what is drawn as a list.
pub open spec fn title_of(d: DrawnModel) -> Seq<char> {
    d->List_1.block.title
}

/// The lines of what is drawn as a paragraph.
pub open spec fn lines_of(d: DrawnModel) -> Seq<LineModel> {
    d->Paragraph_1.content->Lines_0
}

/// The text of what is drawn as a paragraph.
pub open spec fn text_of(d: DrawnModel) -> Seq<char> {
    d->Paragraph_1.content->Text_0
}

/// The form shows its title, then a row for each of its fields and one for the security, and then
/// what its keys do. A row has a mark where it is the one that is typed in, the label, and what is
/// entered, or what to enter where there is nothing.
pub proof fn form_is_drawn(f: FormModel, parts: Seq<Area>, i: int)
    requires
        0 <= i < f.fields.len(),
    ensures
        ({
            let d = account_form::form_drawn(f, parts);
            let row = items_of(d[1])[i][0];
            let field = f.fields[i];
            &&& d.len() == 3 && d[0] is Paragraph && d[1] is List && d[2] is Paragraph
            &&& d[0]->Paragraph_0 == parts[0] && d[1]->List_0 == parts[1]
            &&& d[2]->Paragraph_0 == parts[2]
            &&& items_of(d[1]).len() == f.fields.len() + 1 && items_of(d[1])[i].len() == 1
            &&& row.len() == 3
            &&& i == f.focus ==> row[0].text == "▸ "@
            &&& i != f.focus ==> row[0].text == "  "@
            &&& row[1].text.skip(1).take(field.label.len() as int) == field.label
            &&& !field.is_password && i == f.focus ==> row[2].text == field.value
            &&& !field.is_password && i != f.focus && field.value.len() > 0 && !field.auto_filled
                ==> row[2].text == field.value
            &&& !field.is_password && i != f.focus && field.value.len() > 0 && field.auto_filled
                ==> row[2].text == field.value + " (自动)"@
            &&& i != f.focus && field.value.len() == 0 ==> row[2].text == " <输入"@ + field.label
                + ">"@
        }),
{
    let d = account_form::form_drawn(f, parts);
    let row = items_of(d[1])[i][0];
    let field = f.fields[i];
    reveal_strlit(" ");
    assert(" "@.len() == 1);
    assert(row[1].text == " "@ + text::left_aligned(field.label, 12));
    assert(row[1].text.skip(1) =~= text::left_aligned(field.label, 12));
    assert(row[1].text.skip(1).take(field.label.len() as int) =~= field.label);
}

/// The last row of the form names the security.
pub proof fn security_is_drawn(f: FormModel, parts: Seq<Area>)
    ensures
        ({
            let row = items_of(account_form::form_drawn(f, parts)[1])[f.fields.len() as int][0];
            &&& row.len() == 3
            &&& f.focus == f.fields.len() ==> row[0].text == "▸ "@
            &&& f.focus != f.fields.len() ==> row[0].text == "  "@
            &&& row[1].text == " 安全模式  "@
            &&& f.security_idx == 0 ==> row[2].text == "TLS (993/465)"@
            &&& f.security_idx == 1 ==> row[2].text == "STARTTLS (143/587)"@
            &&& f.security_idx > 1 ==> row[2].text == "无加密"@
        }),
{
}

/// A message that is written shows what it is to be, its fields, its files and what the keys do. A
/// field shows its mark, its label and its text, or what to write where there is none.
pub proof fn written_message_is_drawn(c: ComposeModel, parts: Seq<Area>, i: int)
    requires
        c.fields.len() == 6,
        0 <= i < 6,
        i != 4,
    ensures
        ({
            let d = compose::compose_drawn(c, parts);
            let row = items_of(d[1])[i][0];
            let field = c.fields[i];
            &&& d.len() == 4 && d[0] is Paragraph && d[1] is List && d[3] is Paragraph
            &&& d[0]->Paragraph_0 == parts[0] && d[1]->List_0 == parts[1]
            &&& d[3]->Paragraph_0 == parts[3]
            &&& c.forward ==> lines_of(d[0])[0][0].text == " ➡️ 转发邮件 "@ && title_of(d[1])
                == " 转发 "@
            &&& !c.forward && c.reply_all ==> lines_of(d[0])[0][0].text == " ↩️ 回复全部 "@
                && title_of(d[1]) == " 回复全部 "@
            &&& !c.forward && !c.reply_all && c.reply_to is Some ==> lines_of(d[0])[0][0].text
                == " ↩️ 回复邮件 "@ && title_of(d[1]) == " 回复 "@
            &&& !c.forward && !c.reply_all && c.reply_to is None ==> lines_of(d[0])[0][0].text
                == " ✉️ 写新邮件 "@ && title_of(d[1]) == " 新邮件 "@
            &&& items_of(d[1]).len() == 6 && items_of(d[1])[i].len() == 1
            &&& row.len() == 3
            &&& i == c.focus ==> row[0].text == "▸ "@
            &&& i != c.focus ==> row[0].text == "  "@
            &&& row[1].text.skip(1).take(field.label.len() as int) == field.label
            &&& i == c.focus || field.value.len() > 0 ==> row[2].text == field.value
            &&& i != c.focus && field.value.len() == 0 ==> {
                &&& i == 0 ==> row[2].text == " <输入收件人邮箱>"@
                &&& i == 1 ==> row[2].text == " <抄送，可选>"@
                &&& i == 2 ==> row[2].text == " <密送，可选>"@
                &&& i == 3 ==> row[2].text == " <邮件主题>"@
                &&& i == 5 ==> row[2].text == " <输入文件路径，回车添加附件>"@
            }
        }),
{
    let d = compose::compose_drawn(c, parts);
    let row = items_of(d[1])[i][0];
    let field = c.fields[i];
    reveal_strlit(" ");
    assert(" "@.len() == 1);
    assert(row[1].text == " "@ + text::left_aligned(field.label, 6));
    assert(row[1].text.skip(1) =~= text::left_aligned(field.label, 6));
    assert(row[1].text.skip(1).take(field.label.len() as int) =~= field.label);
}

/// The body of a message is shown line by line, up to thirty lines, with a cursor behind the last
/// of them where it is written in. Where there are more, their number is told.
pub proof fn body_is_drawn(c: ComposeModel, parts: Seq<Area>, lines: Seq<Seq<char>>, k: int)
    requires
        c.fields.len() == 6,
        c.fields[4].value.len() > 0,
        lines == (if c.fields[4].value.last() == '\n' {
            text::lines_of(c.fields[4].value).push(seq![])
        } else {
            text::lines_of(c.fields[4].value)
        }),
        0 <= k < lines.len(),
        k < 30,
    ensures
        ({
            let body = items_of(compose::compose_drawn(c, parts)[1])[4];
            let row = body[k];
            let last = k == lines.len() - 1 || k == 29;
            &&& lines.len() <= 30 ==> body.len() == lines.len()
            &&& lines.len() > 30 ==> body.len() == 31 && body[30][1].text == "… 共 "@
                + number::decimal(lines.len()) + " 行"@
            &&& row[row.len() - 1].text == if c.focus == 4 && last {
                lines[k] + "|"@
            } else {
                lines[k]
            }
            &&& k == 0 ==> row.len() == 3 && row[1].text == " 正文  "@
            &&& k > 0 ==> row.len() == 2 && row[0].text == "        "@
        }),
{
}

/// A body without text shows where to write it.
pub proof fn empty_body_is_drawn(c: ComposeModel, parts: Seq<Area>)
    requires
        c.fields.len() == 6,
        c.fields[4].value.len() == 0,
    ensures
        ({
            let body = items_of(compose::compose_drawn(c, parts)[1])[4];
            &&& body.len() == 1 && body[0].len() == 3
            &&& body[0][1].text == " 正文  "@
            &&& c.focus == 4 ==> body[0][2].text == "|"@
            &&& c.focus != 4 ==> body[0][2].text == " <输入正文>"@
        }),
{
}

/// Each file of a message is shown by its place, its name and its size, with a mark where it is the
/// one that is chosen. Without a file it is shown how to add one.
pub proof fn files_are_drawn(c: ComposeModel, parts: Seq<Area>, i: int)
    ensures
        ({
            let d = compose::compose_drawn(c, parts)[2];
            let lines = lines_of(d);
            &&& d is Paragraph && d->Paragraph_0 == parts[2]
            &&& c.attachments.len() == 0 ==> lines.len() == 1 && lines[0][0].text
                == " 在上方「附件路径」输入文件路径，按回车添加"@
            &&& c.attachments.len() > 0 ==> lines.len() == c.attachments.len() + 2
            &&& 0 <= i < c.attachments.len() ==> lines[i].len() == 1 && lines[i][0].text == (
            if i == c.att_focus && c.focus == 6 {
                "▶ "@
            } else {
                "  "@
            }) + "["@ + number::decimal(i as nat) + "] "@ + c.attachments[i].filename + "  ("@
                + number::size_text(c.attachments[i].data.len() as u64 as nat) + ")"@
        }),
{
}

/// The list of folders shows the name of each, and the one that is chosen. Where there is none it
/// says so.
pub proof fn folders_are_drawn(list: FoldersModel, area: Area, i: int)
    ensures
        ({
            let d = folder_list::folders_drawn(list, area);
            &&& d[0] is List && d[0]->List_0 == area && title_of(d[0]) == " 📂 文件夹 "@
            &&& items_of(d[0]).len() == list.folders.len()
            &&& d[0]->List_1.highlight is Some
            &&& d[0]->List_1.highlight->Some_0.state == list.state
            &&& 0 <= i < list.folders.len() ==> items_of(d[0])[i].len() == 1
                && items_of(d[0])[i][0].len() == 1 && items_of(d[0])[i][0][0].text == " "@
                + utils::shown_name(utils::utf7_text(list.folders[i].name)) + " "@
            &&& list.folders.len() > 0 ==> d.len() == 1
            &&& list.folders.len() == 0 ==> d.len() == 2 && d[1] is Paragraph && text_of(d[1])
                == "暂无文件夹\n按 q 返回"@
        }),
{
}

/// The list of messages shows their items under the name of their folder, and the one that is
/// chosen. Where there is none it says so.
pub proof fn mails_are_drawn(list: MailsModel, area: Area)
    ensures
        ({
            let d = mail_list::mails_drawn(list, area);
            &&& d[0] is List && d[0]->List_0 == area
            &&& title_of(d[0]) == " 📨 "@ + utils::shown_name(
                utils::utf7_text(list.current_folder),
            ) + " "@
            &&& items_of(d[0]) == list.cached_items
            &&& d[0]->List_1.highlight is Some
            &&& d[0]->List_1.highlight->Some_0.state == list.state
            &&& list.mails.len() > 0 ==> d.len() == 1
            &&& list.mails.len() == 0 ==> d.len() == 2 && d[1] is Paragraph && text_of(d[1])
                == "暂无邮件\n按 Esc 返回文件夹列表"@
        }),
{
}

/// A list that has changed, or that is drawn in another width, has its items made anew; else they
/// are those that it has. Nothing else changes.
pub proof fn items_are_made_anew(list: MailsModel, width: u16)
    ensures
        ({
            let r = mail_list::refreshed(list, width);
            &&& list.dirty || width != list.last_width ==> r.cached_items == mail_list::mail_items(
                list.mails,
                width,
            ) && !r.dirty && r.last_width == width
            &&& !list.dirty && width == list.last_width ==> r == list
            &&& r.mails == list.mails && r.state == list.state
            &&& r.current_folder == list.current_folder
        }),
{
}

/// Characters of Chinese and Japanese text take two columns, and those of ASCII one.
pub proof fn characters_take_their_columns(c: char)
    ensures
        c < '\u{80}' ==> columns::columns(c) == 1,
        '\u{4e00}' <= c <= '\u{9fff}' ==> columns::columns(c) == 2,
        '\u{3400}' <= c <= '\u{4dbf}' ==> columns::columns(c) == 2,
        '\u{2e80}' <= c <= '\u{2eff}' ==> columns::columns(c) == 2,
        '\u{3000}' <= c <= '\u{303f}' ==> columns::columns(c) == 2,
        '\u{ff00}' <= c <= '\u{ffef}' ==> columns::columns(c) == 2,
        '\u{80}' <= c < '\u{2e80}' ==> columns::columns(c) == 1,
        columns::width(seq![c]) == columns::columns(c),
        columns::width(Seq::<char>::empty()) == 0,
{
    assert(seq![c].drop_first() =~= Seq::<char>::empty());
    reveal_with_fuel(columns::width, 2);
}

proof fn lemma_cut(s: Seq<char>, room: int, i: int, used: int)
    requires
        0 <= i <= s.len(),
        0 <= used <= room,
    ensures
        ({
            let t = columns::cut_from(s, room, i, used);
            &&& used + columns::width(s.skip(i)) <= room ==> t == s.skip(i)
            &&& used + columns::width(s.skip(i)) > room ==> {
                let n = t.len() - 1;
                &&& 0 <= n && i + n < s.len() && t.last() == '…'
                &&& t.drop_last() == s.subrange(i, i + n)
                &&& used + columns::width(s.subrange(i, i + n)) <= room
                &&& used + columns::width(s.subrange(i, i + n + 1)) > room
            }
        }),
    decreases s.len() - i,
{
    let t = columns::cut_from(s, room, i, used);
    if i < s.len() {
        let c = s[i];
        assert(s.skip(i)[0] == c);
        assert(s.skip(i).drop_first() =~= s.skip(i + 1));
        if used + columns::columns(c) > room {
            assert(t =~= seq!['…']);
            assert(t.drop_last() =~= s.subrange(i, i));
            let one = s.subrange(i, i + 1);
            assert(one[0] == c);
            assert(one.drop_first() =~= s.subrange(i, i));
            reveal_with_fuel(columns::width, 2);
        } else {
            lemma_cut(s, room, i + 1, used + columns::columns(c));
            let rest = columns::cut_from(s, room, i + 1, used + columns::columns(c));
            assert(t =~= seq![c] + rest);
            if used + columns::width(s.skip(i)) <= room {
                assert(t =~= s.skip(i));
            } else {
                let n = rest.len() - 1;
                let a = s.subrange(i, i + 1 + n);
                let b = s.subrange(i, i + 2 + n);
                assert(t.drop_last() =~= a) by {
                    assert(rest.drop_last() == s.subrange(i + 1, i + 1 + n));
                    assert forall|j: int| 0 <= j < a.len() implies t.drop_last()[j] == a[j] by {
                        if j > 0 {
                            assert(rest.drop_last()[j - 1] == s.subrange(i + 1, i + 1 + n)[j - 1]);
                        }
                    }
                }
                assert(a[0] == c && a.drop_first() =~= s.subrange(i + 1, i + 1 + n));
                assert(b[0] == c && b.drop_first() =~= s.subrange(i + 1, i + 2 + n));
            }
        }
    } else {
        assert(s.skip(i) =~= seq![]);
    }
}

/// Text that does not fit is cut behind the last character that does, and an ellipsis stands in
/// the place of the rest. Text that fits is not cut.
pub proof fn long_text_is_cut(s: Seq<char>, max: nat)
    requires
        max >= 2,
    ensures
        ({
            let t = columns::truncated(s, max);
            let n = t.len() - 1;
            &&& columns::width(s) < max ==> t == s
            &&& columns::width(s) >= max ==> 0 <= n < s.len() && t == s.take(n).push('…')
                && columns::width(s.take(n)) < max && columns::width(s.take(n + 1)) >= max
        }),
{
    lemma_cut(s, max - 1, 0, 0);
    assert(s.skip(0) =~= s);
    let t = columns::truncated(s, max);
    let n = t.len() - 1;
    if columns::width(s) >= max {
        assert(s.subrange(0, n) =~= s.take(n));
        assert(s.subrange(0, n + 1) =~= s.take(n + 1));
        assert(t =~= t.drop_last().push(t.last()));
    }
}

/// Text is filled up with spaces, on the right in a cell.
pub proof fn cells_are_filled_with_spaces(s: Seq<char>, cols: nat, i: int)
    ensures
        ({
            let t = columns::truncated(s, cols);
            let cell = mail_list::cell(s, cols);
            &&& cell.len() >= t.len() && cell.take(t.len() as int) == t
            &&& t.len() <= i < cell.len() ==> cell[i] == ' '
            &&& columns::width(cell) == cols
        }),
{
    let t = columns::truncated(s, cols);
    columns::cell_width(s, cols);
    assert(mail_list::cell(s, cols).take(t.len() as int) =~= t);
}

/// The subject has what the other columns leave of the line.
pub proof fn subject_has_the_rest(width: u16)
    ensures
        width >= 70 ==> mail_list::subject_cols(width) == width - 28,
        18 <= width < 70 ==> mail_list::subject_cols(width) == width - 18,
        width < 18 ==> mail_list::subject_cols(width) == 0,
{
}

/// Parts of an area that stand one below the other begin at its top, leave nothing between them,
/// and are as broad as the area. A part of a fixed height has that height.
pub proof fn parts_stand_one_below_the_other(area: Area, rooms: Seq<Room>, i: int)
    requires
        ui::roomy(rooms, area.y, area.height),
        0 <= i < rooms.len(),
    ensures
        ({
            let parts = ui::cut_down(area, rooms);
            &&& parts.len() == rooms.len()
            &&& parts[i].x == area.x && parts[i].width == area.width
            &&& parts[0].y == area.y
            &&& i + 1 < rooms.len() ==> parts[i + 1].y == parts[i].y + parts[i].height
            &&& rooms[i] is Length ==> parts[i].height == rooms[i]->Length_0
            &&& rooms[i] is Min ==> parts[i].height >= rooms[i]->Min_0 && parts.last().y
                + parts.last().height == area.y + area.height
        }),
{
    let size = area.height;
    let n = rooms.len() as int;
    lemma_given(rooms, size, i);
    lemma_given(rooms, size, i + 1);
    lemma_given(rooms, size, 0);
    lemma_given(rooms, size, n - 1);
    lemma_given(rooms, size, n);
    lemma_asked(rooms, i, n);
    lemma_asked(rooms, i + 1, n);
    lemma_asked(rooms, n - 1, n);
    lemma_asked(rooms, 0, i);
}

/// Parts of an area that stand side by side begin at its left, leave nothing between them, and are
/// as high as the area. A part of a fixed width has that width.
pub proof fn parts_stand_side_by_side(area: Area, rooms: Seq<Room>, i: int)
    requires
        ui::roomy(rooms, area.x, area.width),
        0 <= i < rooms.len(),
    ensures
        ({
            let parts = ui::cut_across(area, rooms);
            &&& parts.len() == rooms.len()
            &&& parts[i].y == area.y && parts[i].height == area.height
            &&& parts[0].x == area.x
            &&& i + 1 < rooms.len() ==> parts[i + 1].x == parts[i].x + parts[i].width
            &&& rooms[i] is Length ==> parts[i].width == rooms[i]->Length_0
            &&& rooms[i] is Min ==> parts[i].width >= rooms[i]->Min_0 && parts.last().x
                + parts.last().width == area.x + area.width
        }),
{
    let size = area.width;
    let n = rooms.len() as int;
    lemma_given(rooms, size, i);
    lemma_given(rooms, size, i + 1);
    lemma_given(rooms, size, 0);
    lemma_given(rooms, size, n - 1);
    lemma_given(rooms, size, n);
    lemma_asked(rooms, i, n);
    lemma_asked(rooms, i + 1, n);
    lemma_asked(rooms, n - 1, n);
    lemma_asked(rooms, 0, i);
}

proof fn lemma_asked(rooms: Seq<Room>, i: int, j: int)
    requires
        0 <= i <= j <= rooms.len(),
    ensures
        0 <= ui::asked(rooms, i) <= ui::asked(rooms, j),
    decreases j,
{
    if i < j {
        lemma_asked(rooms, i, j - 1);
    } else if j > 0 {
        lemma_asked(rooms, i - 1, j - 1);
    }
}

/// What the rooms are given is what they ask for, with what is left over once the one that can
/// grow is among them.
proof fn lemma_given(rooms: Seq<Room>, size: u16, i: int)
    requires
        0 <= i <= rooms.len(),
        ui::asked(rooms, rooms.len() as int) <= size,
        forall|a: int, b: int|
            0 <= a < b < rooms.len() ==> !(#[trigger] rooms[a] is Min) || !(
            #[trigger] rooms[b] is Min),
    ensures
        ({
            let spare = size - ui::asked(rooms, rooms.len() as int);
            &&& (forall|a: int| 0 <= a < i ==> !(#[trigger] rooms[a] is Min))
                ==> ui::given_before(rooms, size, i) == ui::asked(rooms, i)
            &&& (exists|a: int| 0 <= a < i && #[trigger] rooms[a] is Min) ==> ui::given_before(
                rooms,
                size,
                i,
            ) == ui::asked(rooms, i) + spare
        }),
    decreases i,
{
    if i > 0 {
        lemma_given(rooms, size, i - 1);
        lemma_asked(rooms, i, rooms.len() as int);
        lemma_asked(rooms, 0, i - 1);
        if rooms[i - 1] is Min {
            assert forall|a: int| 0 <= a < i - 1 implies !(#[trigger] rooms[a] is Min) by {}
        }
    }
}

/// A margin takes one column and one line on every side, and so does a border.
pub proof fn inside_leaves_one_on_every_side(area: Area)
    requires
        area.width >= 2,
        area.height >= 2,
        area.x < u16::MAX,
        area.y < u16::MAX,
    ensures
        area.within_margin() == (Area {
            x: (area.x + 1) as u16,
            y: (area.y + 1) as u16,
            width: (area.width - 2) as u16,
            height: (area.height - 2) as u16,
        }),
        area.within_border() == area.within_margin(),
{
}

/// Title and help of the form have three lines each, those of a message that is written two, and
/// the head of a message that is shown five. Files have a line each, up to five, besides their
/// frame; all else has the lines that are left over.
pub proof fn views_have_their_rooms(c: ComposeModel, m: EmailModel)
    ensures
        account_form::form_rooms() == seq![Room::Length(3), Room::Min(1), Room::Length(3)],
        compose::compose_rooms(c).len() == 4,
        compose::compose_rooms(c)[0] == Room::Length(2),
        compose::compose_rooms(c)[1] == Room::Min(1),
        compose::compose_rooms(c)[3] == Room::Length(2),
        c.attachments.len() == 0 ==> compose::compose_rooms(c)[2] == Room::Length(1),
        0 < c.attachments.len() <= 5 ==> compose::compose_rooms(c)[2] == Room::Length(
            (2 + c.attachments.len()) as u16,
        ),
        c.attachments.len() > 5 ==> compose::compose_rooms(c)[2] == Room::Length(7),
        mail_view::view_rooms(m)[0] == Room::Length(5),
        m.attachments.len() == 0 ==> mail_view::view_rooms(m).len() == 2 && mail_view::view_rooms(
            m,
        )[1] == Room::Min(1),
        m.attachments.len() > 0 ==> mail_view::view_rooms(m).len() == 3 && mail_view::view_rooms(
            m,
        )[1] == Room::Min(7),
        0 < m.attachments.len() <= 5 ==> mail_view::view_rooms(m)[2] == Room::Length(
            (3 + m.attachments.len()) as u16,
        ),
        m.attachments.len() > 5 ==> mail_view::view_rooms(m)[2] == Room::Length(8),
{
}

/// The status bar stands in the last line of the terminal, below a line that parts it from the rest:
/// on the left how things stand, and on the right, in fifty-six columns, the message or the keys.
pub proof fn bar_stands_at_the_bottom(bar: BarModel, area: Area)
    requires
        area.y + area.height <= u16::MAX,
        area.x + area.width <= u16::MAX,
        area.height >= 1,
        area.width >= 56,
    ensures
        ({
            let d = status_bar::full_bar(bar, area);
            let y = area.y + area.height - 1;
            &&& d.len() == 3 && d[0] is Paragraph && d[1] is Paragraph && d[2] is Paragraph
            &&& y > 0 ==> d[0]->Paragraph_0.y == y - 1
            &&& d[0]->Paragraph_0.x == area.x && d[0]->Paragraph_0.width == area.width
            &&& d[0]->Paragraph_0.height == 1
            &&& lines_of(d[0])[0][0].text.len() == area.width
            &&& d[1]->Paragraph_0 == (Area {
                x: area.x,
                y: y as u16,
                width: (area.width - 56) as u16,
                height: 1,
            })
            &&& d[2]->Paragraph_0 == (Area {
                x: (area.x + area.width - 56) as u16,
                y: y as u16,
                width: 56,
                height: 1,
            })
            &&& lines_of(d[1]) == seq![status_bar::left_line(bar)]
            &&& lines_of(d[2]) == seq![status_bar::right_line(bar)]
        }),
{
    reveal_with_fuel(ui::asked, 3);
    reveal_with_fuel(ui::given_before, 3);
}

/// The terminal shows the view that is open: the form, the folders, the messages, a message, or the
/// message that is written, each in the rooms of its own. Without a message it says so.
pub proof fn open_view_is_shown(a: AppModel, area: Area, m: EmailModel)
    ensures
        ({
            let d = events::full_view(a, area);
            &&& a.mode == Mode::Home ==> d.len() == 0
            &&& a.mode == Mode::AccountForm ==> d == account_form::form_drawn(
                a.account_form,
                ui::cut_down(area, seq![Room::Length(3), Room::Min(1), Room::Length(3)]),
            )
            &&& a.mode == Mode::FolderList ==> d == folder_list::folders_drawn(a.folder_list, area)
            &&& a.mode == Mode::MailList ==> d == mail_list::mails_drawn(a.mail_list, area)
            &&& a.mode == Mode::Compose ==> d == compose::compose_drawn(
                a.compose,
                ui::cut_down(area, compose::compose_rooms(a.compose)),
            )
            &&& a.mode == Mode::MailView && a.mail_view.mail == Some(m)
                ==> d == mail_view::view_drawn(
                a.mail_view,
                ui::cut_down(area, mail_view::view_rooms(m)),
            )
            &&& a.mode == Mode::MailView && a.mail_view.mail is None ==> d.len() == 1
                && d[0] is Paragraph && d[0]->Paragraph_0 == area && text_of(d[0])
                == "未选择邮件"@
        }),
{
}

/// To draw changes nothing of the client but the items of the list of messages, if that is shown,
/// and a message of the status bar whose time is over.
pub proof fn drawing_changes_little(a: AppModel, area: Area, now: u64)
    ensures
        ({
            let b = events::rendered(a, area, now);
            &&& b == (AppModel { mail_list: b.mail_list, status_bar: b.status_bar, ..a })
            &&& a.mode != Mode::MailList ==> b.mail_list == a.mail_list
            &&& b.mail_list.mails == a.mail_list.mails && b.mail_list.state == a.mail_list.state
            &&& b.status_bar.mode == a.status_bar.mode
            &&& b.status_bar.connected == a.status_bar.connected
            &&& b.status_bar.current_folder == a.status_bar.current_folder
            &&& b.status_bar.status_message is None || b.status_bar.status_message
                == a.status_bar.status_message
        }),
        a.mode == Mode::MailList && area.width >= 2 && area.height >= 2 && (a.mail_list.dirty
            || a.mail_list.last_width != area.width - 2) ==> events::rendered(
            a,
            area,
            now,
        ).mail_list.cached_items == mail_list::mail_items(
            a.mail_list.mails,
            (area.width - 2) as u16,
        ),
{
}

/// The name of a folder is sound where it has no section of its own encoding, unless it is longer
/// than any name can be; and where a section holds a character of no such encoding it is not sound.
pub proof fn names_are_sound(name: Seq<char>, a: Seq<char>, c: char, b: Seq<char>)
    requires
        !name.contains('&'),
        !a.contains('-') && !a.contains('&'),
        c != '-' && c != '=' && c != '+' && c != '/' && c != ',',
        !('a' <= c <= 'z') && !('A' <= c <= 'Z') && !('0' <= c <= '9'),
    ensures
        header::byte_len(name) <= usize::MAX / 16 ==> utils::sound_name(name),
        !utils::sound_name(seq!['&'] + a + seq![c, '-'] + b),
{
    lemma_no_char(name, '&', 0);
    let s = seq!['&'] + a + seq![c, '-'] + b;
    let n = a.len() as int;
    assert(s[0] == '&');
    assert forall|j: int| 1 <= j < n + 2 implies s[j] != '-' by {
        if j <= n {
            assert(a.contains(a[j - 1]));
            assert(s[j] == a[j - 1]);
        } else {
            assert(s[j] == c);
        }
    }
    assert(s[n + 2] == '-');
    lemma_char_at(s, '-', 1, n + 2);
    assert(text::find_char(s, '&', 0) == 0);
    let section = s.subrange(1, n + 2);
    assert(section[n] == c);
    assert(section.len() == n + 1);
    lemma_symbols_stop(section, 0, n);
}

proof fn lemma_symbols_stop(s: Seq<char>, i: int, k: int)
    requires
        0 <= i <= k < s.len(),
        utils::symbol_value(s[k]) is None,
    ensures
        i <= utils::symbols_end(s, i) <= k,
    decreases k - i,
{
    if i < k && utils::symbol_value(s[i]) is Some {
        lemma_symbols_stop(s, i + 1, k);
    }
}

proof fn lemma_no_char(s: Seq<char>, c: char, i: int)
    requires
        0 <= i <= s.len(),
        !s.contains(c),
    ensures
        text::find_char(s, c, i) == s.len(),
    decreases s.len() - i,
{
    if i < s.len() {
        assert(s.contains(s[i]));
        lemma_no_char(s, c, i + 1);
    }
}

proof fn lemma_char_at(s: Seq<char>, c: char, i: int, k: int)
    requires
        0 <= i <= k < s.len(),
        s[k] == c,
        forall|j: int| i <= j < k ==> s[j] != c,
    ensures
        text::find_char(s, c, i) == k,
    decreases k - i,
{
    if i < k {
        lemma_char_at(s, c, i + 1, k);
    }
}

/// A form says how to go through it, to save it and to give it up, and a message that is written how
/// to go through it, to add to it, to send it and to give it up.
pub proof fn keys_are_explained(f: FormModel, c: ComposeModel, parts: Seq<Area>)
    ensures
        ({
            let line = lines_of(account_form::form_drawn(f, parts)[2])[0];
            &&& line.len() == 8
            &&& line[0].text == " Tab/↑↓ "@ && line[1].text == "切换  "@
            &&& line[2].text == " Enter "@ && line[3].text == "确认/下一项  "@
            &&& line[4].text == " Ctrl+S "@ && line[5].text == "保存  "@
            &&& line[6].text == " Esc "@ && line[7].text == "取消"@
        }),
        ({
            let line = lines_of(compose::compose_drawn(c, parts)[3])[0];
            &&& line.len() == 8
            &&& line[0].text == " Tab/↑↓ "@ && line[1].text == "切换  "@
            &&& line[2].text == " Enter "@ && line[3].text == "换行(正文)/添加附件  "@
            &&& line[4].text == " Ctrl+S "@ && line[5].text == "发送  "@
            &&& line[6].text == " Esc "@ && line[7].text == "取消"@
        }),
        lines_of(account_form::form_drawn(f, parts)[0])[0][0].text == " ➕ 添加邮箱账户 "@,
        title_of(account_form::form_drawn(f, parts)[1]) == " 账户信息 "@,
{
}

/// The title of a body says how it is shown: as HTML, as the text of HTML because there is no other,
/// or as plain text.
pub proof fn body_has_its_title(v: ViewModel, m: EmailModel, parts: Seq<Area>)
    requires
        v.mail == Some(m),
    ensures
        ({
            let block = mail_view::view_drawn(v, parts)[1]->Paragraph_1.block;
            &&& block is Some
            &&& v.show_html ==> block->Some_0.title == " 🌐 HTML"@
            &&& !v.show_html && mail_view::shown_body(m, false).1 ==> block->Some_0.title
                == " ⚠ 仅 HTML"@
            &&& !v.show_html && !mail_view::shown_body(m, false).1 ==> block->Some_0.title
                == " 📝 纯文本"@
        }),
{
}

/// The attachments of a message stand in a frame of their own, with what can be done with them below
/// them, whether the message is shown or written.
pub proof fn attachments_have_their_frame(
    v: ViewModel,
    m: EmailModel,
    c: ComposeModel,
    parts: Seq<Area>,
)
    requires
        v.mail == Some(m),
        m.attachments.len() > 0,
        c.attachments.len() > 0,
    ensures
        ({
            let d = mail_view::view_drawn(v, parts)[2];
            let n = m.attachments.len() as int;
            &&& d is Paragraph && d->Paragraph_0 == parts[2] && lines_of(d).len() == n + 2
            &&& d->Paragraph_1.block is Some && d->Paragraph_1.block->Some_0.title == " 📎 附件 "@
            &&& lines_of(d)[n].len() == 0
            &&& lines_of(d)[n + 1][0].text
                == " ←→ 选择附件   o 保存选中附件   保存路径: 桌面/rust-email-attachments/"@
        }),
        ({
            let d = compose::compose_drawn(c, parts)[2];
            let n = c.attachments.len() as int;
            &&& d->Paragraph_1.block is Some && d->Paragraph_1.block->Some_0.title == " 📎 附件 "@
            &&& lines_of(d)[n].len() == 0
            &&& lines_of(d)[n + 1][0].text == " d 移除选中附件    ←→ 选择附件"@
        }),
{
}

/// What was not seen yet is bold, and what was seen is grey; a star and a dot are yellow, the sender
/// is cyan and the date grey. What is chosen in a list stands black on cyan behind an arrow.
pub proof fn lines_have_their_colours(m: SummaryModel, width: u16, list: MailsModel, area: Area)
    ensures
        ({
            let line = mail_list::mail_items(seq![m], width)[0][0];
            let n = line.len();
            &&& line[0].ink == (Ink { fg: Some(Tint::Yellow), bg: None, bold: false })
            &&& line[1].ink == (Ink { fg: Some(Tint::Cyan), bg: None, bold: false })
            &&& width >= 70 ==> line[2].ink == (Ink {
                fg: Some(Tint::DarkGray),
                bg: None,
                bold: false,
            })
            &&& m.flags.contains(MailFlag::Seen) ==> line[n - 2].ink == (Ink {
                fg: Some(Tint::DarkGray),
                bg: None,
                bold: false,
            })
            &&& !m.flags.contains(MailFlag::Seen) ==> line[n - 2].ink == (Ink {
                fg: Some(Tint::White),
                bg: None,
                bold: true,
            })
        }),
        ({
            let chosen = mail_list::mails_drawn(list, area)[0]->List_1.highlight->Some_0;
            &&& chosen.symbol == "▸ "@
            &&& chosen.ink == (Ink { fg: Some(Tint::Black), bg: Some(Tint::Cyan), bold: true })
        }),
{
}

/// A line of dashes parts the status bar from the rest.
pub proof fn dashes_part_the_bar(bar: BarModel, area: Area, i: int)
    requires
        area.y + area.height <= u16::MAX,
        area.x + area.width <= u16::MAX,
        area.height >= 1,
        area.width >= 56,
        0 <= i < area.width,
    ensures
        lines_of(status_bar::full_bar(bar, area)[0]).len() == 1,
        lines_of(status_bar::full_bar(bar, area)[0])[0].len() == 1,
        lines_of(status_bar::full_bar(bar, area)[0])[0][0].text[i] == '─',
{
    reveal_with_fuel(ui::asked, 3);
    reveal_with_fuel(ui::given_before, 3);
}

/// Where there is no room for a margin nothing is left inside it, and a border leaves what it can.
pub proof fn little_room_is_left(area: Area)
    ensures
        area.width < 2 || area.height < 2 ==> area.within_margin().width == 0
            && area.within_margin().height == 0,
        area.width <= 2 ==> area.within_border().width == 0,
        area.height <= 2 ==> area.within_border().height == 0,
        area.width > 2 ==> area.within_border().width == area.width - 2,
        area.height > 2 ==> area.within_border().height == area.height - 2,
        area.width == 0 ==> area.within_border().x == area.x,
        area.height == 0 ==> area.within_border().y == area.y,
        area.width > 0 && area.x < u16::MAX ==> area.within_border().x == area.x + 1,
        area.height > 0 && area.y < u16::MAX ==> area.within_border().y == area.y + 1,
{
}

/// What is chosen in a list is what was to be chosen, and a list in which nothing is chosen is shown
/// from its start.
pub proof fn choice_is_kept(state: ListState, i: usize)
    ensures
        state.choosing(Some(i)).selected == Some(i),
        state.choosing(Some(i)).offset == state.offset,
        state.choosing(None).selected is None,
        state.choosing(None).offset == 0,
{
}

} // verus!
