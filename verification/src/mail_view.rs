//! A message as it is read.

use vstd::prelude::*;
use vstd::string::*;

use crate::action::{Action, ActionModel};
use crate::dates;
use crate::dates::format_mail_date;
use crate::header;
use crate::keys::{Key, KeyCode};
use crate::number;
use crate::number::read_number;
use crate::text;
use crate::text::{concat, index_of, join, replace, slice, to_chars, to_text, trim};
use crate::types::{Email, EmailModel};
use crate::ui;
use crate::ui::{
    block, draw_attachment, draw_attachments, draw_hint, ink, line, plain, split_down, Align, Area,
    Content, Drawn, DrawnModel, Line, LineModel, Paragraph, Room, Tint,
};

verus! {

broadcast use {
    vstd::string::group_string_axioms,
    text::views_push,
    text::views_empty,
};

/// The character of this number, if there is one.
pub open spec fn character(code: int) -> Option<char> {
    if 0 <= code <= 0xD7FF || 0xE000 <= code <= 0x10FFFF {
        Some(code as char)
    } else {
        None
    }
}

/// `char::from_u32`: the character of this number; there is none for surrogates and beyond the
/// last one.
#[verifier::external_body]
fn char_of(code: u32) -> (r: Option<char>)
    ensures
        r == character(code as int),
{
    char::from_u32(code)
}

/// The character that a numeric entity at `i` stands for, and where the text goes on behind it.
pub open spec fn entity_at(s: Seq<char>, i: int) -> Option<(char, int)> {
    if 0 <= i && i + 3 < s.len() && s[i] == '&' && s[i + 1] == '#' {
        let hex = s[i + 2] == 'x';
        let first = if hex {
            i + 3
        } else {
            i + 2
        };
        let end = text::find_char(s, ';', first);
        if end < s.len() && end > first {
            match number::number_of(
                s.subrange(first, end),
                if hex {
                    16
                } else {
                    10
                },
                u32::MAX as int,
            ) {
                Ok(code) => match character(code) {
                    Some(c) => Some((c, end + 1)),
                    None => None,
                },
                Err(_) => None,
            }
        } else {
            None
        }
    } else {
        None
    }
}

/// The text from `i` on with its numeric entities decoded.
pub open spec fn numeric_from(s: Seq<char>, i: int) -> Seq<char>
    decreases s.len() - i,
{
    if i < 0 || i >= s.len() {
        seq![]
    } else {
        match entity_at(s, i) {
            Some((c, next)) => if !(i < next <= s.len()) {
                seq![]
            } else {
                seq![c] + numeric_from(s, next)
            },
            None => seq![s[i]] + numeric_from(s, i + 1),
        }
    }
}

/// The text with its named entities, and those of apostrophes, replaced one after the other, and
/// line feeds in place of line breaks.
pub open spec fn names_replaced(s: Seq<char>) -> Seq<char> {
    let a = text::replaced(s, "&amp;"@, "&"@);
    let b = text::replaced(a, "&lt;"@, "<"@);
    let c = text::replaced(b, "&gt;"@, ">"@);
    let d = text::replaced(c, "&quot;"@, "\""@);
    let e = text::replaced(d, "&apos;"@, "'"@);
    let f = text::replaced(e, "&#39;"@, "'"@);
    let g = text::replaced(f, "&#x27;"@, "'"@);
    let h = text::replaced(g, "&nbsp;"@, "\u{00a0}"@);
    let i = text::replaced(h, "<br>"@, "\n"@);
    let j = text::replaced(i, "<br/>"@, "\n"@);
    text::replaced(j, "<br />"@, "\n"@)
}

/// The text with its entities decoded and line feeds in place of line breaks.
pub open spec fn entities_decoded(s: Seq<char>) -> Seq<char> {
    numeric_from(names_replaced(s), 0)
}

fn replace_names(text: &str) -> (r: Vec<char>)
    ensures
        r@ == names_replaced(text@),
{
    proof {
        reveal_strlit("&amp;");
        reveal_strlit("&lt;");
        reveal_strlit("&gt;");
        reveal_strlit("&quot;");
        reveal_strlit("&apos;");
        reveal_strlit("&#39;");
        reveal_strlit("&#x27;");
        reveal_strlit("&nbsp;");
        reveal_strlit("<br>");
        reveal_strlit("<br/>");
        reveal_strlit("<br />");
    }
    let a = replace(&to_chars(text), "&amp;", "&");
    let b = replace(&a, "&lt;", "<");
    let c = replace(&b, "&gt;", ">");
    let d = replace(&c, "&quot;", "\"");
    let e = replace(&d, "&apos;", "'");
    let f = replace(&e, "&#39;", "'");
    let g = replace(&f, "&#x27;", "'");
    let h = replace(&g, "&nbsp;", "\u{00a0}");
    let i = replace(&h, "<br>", "\n");
    let j = replace(&i, "<br/>", "\n");
    replace(&j, "<br />", "\n")
}

fn read_entity(s: &Vec<char>, i: usize) -> (r: Option<(char, usize)>)
    requires
        i < s.len(),
    ensures
        match r {
            Some((c, next)) => entity_at(s@, i as int) == Some((c, next as int)) && i < next
                <= s.len(),
            None => entity_at(s@, i as int) is None,
        },
{
    if s.len() - i <= 3 || s[i] != '&' || s[i + 1] != '#' {
        return None;
    }
    let hex = s[i + 2] == 'x';
    let first: usize = if hex {
        i + 3
    } else {
        i + 2
    };
    let end = index_of(s, ';', first);
    if end >= s.len() || end <= first {
        return None;
    }
    let base: u64 = if hex {
        16
    } else {
        10
    };
    match read_number(&slice(s, first, end), base, u32::MAX) {
        Ok(code) => match char_of(code) {
            Some(c) => Some((c, end + 1)),
            None => None,
        },
        Err(_) => None,
    }
}

/// The text with its entities decoded and line feeds in place of line breaks.
pub fn decode_html_entities(text: &str) -> (r: String)
    ensures
        r@ == entities_decoded(text@),
{
    let s = replace_names(text);
    let mut result: Vec<char> = Vec::new();
    let mut i: usize = 0;
    assert(result@ + numeric_from(s@, 0) =~= entities_decoded(text@));
    while i < s.len()
        invariant
            i <= s.len(),
            result@ + numeric_from(s@, i as int) == entities_decoded(text@),
        decreases s.len() - i,
    {
        let ghost before = result@;
        match read_entity(&s, i) {
            Some((c, next)) => {
                result.push(c);
                proof {
                    let rest = numeric_from(s@, next as int);
                    assert(before + (seq![c] + rest) =~= result@ + rest);
                }
                i = next;
            },
            None => {
                result.push(s[i]);
                proof {
                    let rest = numeric_from(s@, i + 1);
                    assert(before + (seq![s@[i as int]] + rest) =~= result@ + rest);
                }
                i += 1;
            },
        }
    }
    assert(result@ + Seq::<char>::empty() =~= result@);
    to_text(&result)
}

proof fn lemma_not_replaced(s: Seq<char>, from: Seq<char>, to: Seq<char>, i: int)
    requires
        0 <= i <= s.len(),
        from.len() > 0,
        !s.contains(from[0]),
    ensures
        text::replace_from(s, from, to, i) == s.skip(i),
    decreases s.len() - i,
{
    if i < s.len() {
        if text::occurs(s, from, i) {
            assert(s.subrange(i, i + from.len())[0] == from[0]);
            assert(s[i] == from[0]);
        }
        lemma_not_replaced(s, from, to, i + 1);
        assert(seq![s[i]] + s.skip(i + 1) =~= s.skip(i));
    } else {
        assert(s.skip(i) =~= seq![]);
    }
}

proof fn lemma_not_numeric(s: Seq<char>, i: int)
    requires
        0 <= i <= s.len(),
        !s.contains('&'),
    ensures
        numeric_from(s, i) == s.skip(i),
    decreases s.len() - i,
{
    if i < s.len() {
        assert(s[i] != '&');
        lemma_not_numeric(s, i + 1);
        assert(seq![s[i]] + s.skip(i + 1) =~= s.skip(i));
    } else {
        assert(s.skip(i) =~= seq![]);
    }
}

/// Text without an ampersand and without an opening bracket is left as it is.
pub proof fn plain_text_unchanged(s: Seq<char>)
    requires
        !s.contains('&'),
        !s.contains('<'),
    ensures
        entities_decoded(s) == s,
{
    reveal_strlit("&amp;");
    reveal_strlit("&lt;");
    reveal_strlit("&gt;");
    reveal_strlit("&quot;");
    reveal_strlit("&apos;");
    reveal_strlit("&#39;");
    reveal_strlit("&#x27;");
    reveal_strlit("&nbsp;");
    reveal_strlit("<br>");
    reveal_strlit("<br/>");
    reveal_strlit("<br />");
    assert(s.skip(0) =~= s);
    lemma_not_replaced(s, "&amp;"@, "&"@, 0);
    lemma_not_replaced(s, "&lt;"@, "<"@, 0);
    lemma_not_replaced(s, "&gt;"@, ">"@, 0);
    lemma_not_replaced(s, "&quot;"@, "\""@, 0);
    lemma_not_replaced(s, "&apos;"@, "'"@, 0);
    lemma_not_replaced(s, "&#39;"@, "'"@, 0);
    lemma_not_replaced(s, "&#x27;"@, "'"@, 0);
    lemma_not_replaced(s, "&nbsp;"@, "\u{00a0}"@, 0);
    lemma_not_replaced(s, "<br>"@, "\n"@, 0);
    lemma_not_replaced(s, "<br/>"@, "\n"@, 0);
    lemma_not_replaced(s, "<br />"@, "\n"@, 0);
    lemma_not_numeric(s, 0);
}

/// The message that is read; `M` is the message, `T` text.
#[derive(Clone, Debug, PartialEq, Eq)]
pub struct MailView<M = Email, T = String> {
    pub mail: Option<M>,
    pub current_folder: T,
    /// Whether the HTML is shown.
    pub show_html: bool,
    /// How many lines are scrolled out at the top.
    pub scroll: u16,
    /// The attachment that is chosen.
    pub attachment_idx: usize,
}

/// The model of the message that is read.
pub type ViewModel = MailView<EmailModel, Seq<char>>;

impl View for MailView<Email, String> {
    type V = ViewModel;

    open spec fn view(&self) -> ViewModel {
        MailView {
            mail: text::opt_view(self.mail),
            current_folder: self.current_folder@,
            show_html: self.show_html,
            scroll: self.scroll,
            attachment_idx: self.attachment_idx,
        }
    }
}

/// No message.
pub open spec fn empty_view() -> ViewModel {
    MailView {
        mail: None,
        current_folder: seq![],
        show_html: false,
        scroll: 0,
        attachment_idx: 0,
    }
}

/// The view with this message, from its start.
pub open spec fn showing(v: ViewModel, mail: EmailModel) -> ViewModel {
    MailView { mail: Some(mail), scroll: 0, attachment_idx: 0, ..v }
}

/// How many attachments the message has.
pub open spec fn file_count(v: ViewModel) -> nat {
    match v.mail {
        Some(m) => m.attachments.len(),
        None => 0,
    }
}

/// The view after a key, and what the client is told to do.
pub open spec fn view_key(v: ViewModel, key: Key) -> (ViewModel, Option<ActionModel>) {
    if key.code == KeyCode::Char('j') || key.code == KeyCode::Down {
        (MailView { scroll: ui::sum16(v.scroll, 1), ..v }, None)
    } else if key.code == KeyCode::Char('k') || key.code == KeyCode::Up {
        (MailView { scroll: ui::less16(v.scroll, 1), ..v }, None)
    } else if key.code == KeyCode::Char('h') {
        (MailView { show_html: true, ..v }, None)
    } else if key.code == KeyCode::Char('t') {
        (MailView { show_html: false, ..v }, None)
    } else if key.code == KeyCode::Char('E') {
        (
            v,
            if v.mail matches Some(m) && m.body_html is Some {
                Some(Action::SaveHtml)
            } else {
                None
            },
        )
    } else if key.code == KeyCode::Char('o') && file_count(v) > 0 {
        (v, Some(Action::DownloadAttachment(v.attachment_idx)))
    } else if key.code == KeyCode::Left && file_count(v) > 0 && v.attachment_idx > 0 {
        (MailView { attachment_idx: (v.attachment_idx - 1) as usize, ..v }, None)
    } else if key.code == KeyCode::Right && v.attachment_idx + 1 < file_count(v) {
        (MailView { attachment_idx: (v.attachment_idx + 1) as usize, ..v }, None)
    } else {
        (v, None)
    }
}

impl MailView<Email, String> {
    /// No message.
    pub fn new() -> (r: Self)
        ensures
            r@ == empty_view(),
    {
        let r = MailView {
            mail: None,
            current_folder: String::new(),
            show_html: false,
            scroll: 0,
            attachment_idx: 0,
        };
        assert(r@.current_folder =~= seq![]);
        r
    }

    /// Shows this message from its start.
    pub fn set_mail(&mut self, mail: Email)
        ensures
            final(self)@ == showing(old(self)@, mail@),
    {
        self.mail = Some(mail);
        self.scroll = 0;
        self.attachment_idx = 0;
    }

    fn count_files(&self) -> (r: usize)
        ensures
            r == file_count(self@),
    {
        match &self.mail {
            Some(m) => m.attachments.len(),
            None => 0,
        }
    }

    fn has_html(&self) -> (r: bool)
        ensures
            r == (self@.mail matches Some(m) && m.body_html is Some),
    {
        match &self.mail {
            Some(m) => m.body_html.is_some(),
            None => false,
        }
    }

    /// Takes a key.
    pub fn handle_key_event(&mut self, key: Key) -> (r: Option<Action>)
        ensures
            (final(self)@, text::opt_view(r)) == view_key(old(self)@, key),
    {
        let files = self.count_files();
        if key.code == KeyCode::Char('j') || key.code == KeyCode::Down {
            self.scroll = self.scroll.saturating_add(1);
        } else if key.code == KeyCode::Char('k') || key.code == KeyCode::Up {
            self.scroll = self.scroll.saturating_sub(1);
        } else if key.code == KeyCode::Char('h') {
            self.show_html = true;
        } else if key.code == KeyCode::Char('t') {
            self.show_html = false;
        } else if key.code == KeyCode::Char('E') {
            if self.has_html() {
                return Some(Action::SaveHtml);
            }
        } else if key.code == KeyCode::Char('o') && files > 0 {
            return Some(Action::DownloadAttachment(self.attachment_idx));
        } else if key.code == KeyCode::Left && files > 0 && self.attachment_idx > 0 {
            self.attachment_idx = self.attachment_idx - 1;
        } else if key.code == KeyCode::Right && files > 0 && self.attachment_idx < files - 1 {
            self.attachment_idx = self.attachment_idx + 1;
        }
        None
    }

    /// Follows the choice of a folder.
    pub fn update(&mut self, action: &Action)
        ensures
            final(self)@ == (match action@ {
                Action::SelectFolder(name) => MailView { current_folder: name, ..old(self)@ },
                _ => old(self)@,
            }),
    {
        if let Action::SelectFolder(name) = action {
            self.current_folder = name.clone();
        }
    }
}

/// The chosen attachment of a message is one of it, as long as it has any.
pub open spec fn file_chosen(v: ViewModel) -> bool {
    v.attachment_idx == 0 || v.attachment_idx < file_count(v)
}

/// A key, or another message, leaves an attachment chosen that there is.
pub proof fn file_stays_chosen(v: ViewModel, key: Key, mail: EmailModel)
    requires
        file_chosen(v),
    ensures
        file_chosen(view_key(v, key).0),
        file_chosen(showing(v, mail)),
{
}

/// Whether the plain text of the message is worth showing: more than three bytes when trimmed.
pub open spec fn readable(m: EmailModel) -> bool {
    m.body_text matches Some(t) && header::byte_len(text::trimmed(t)) > 3
}

/// What is shown in place of a message that is HTML alone.
pub open spec fn html_hint() -> Seq<char> {
    "╔══════════════════════════════════════╗\n║                                      ║\n║  此邮件仅包含 HTML 格式内容          ║\n║                                      ║\n║  按 h 键切换到 HTML 视图查看         ║\n║  按 E 键保存为 .html 文件到桌面      ║\n║                                      ║\n╚══════════════════════════════════════╝"@
}

/// The body that is shown, and whether it is a hint that there is HTML alone.
pub open spec fn shown_body(m: EmailModel, show_html: bool) -> (Seq<char>, bool) {
    if show_html {
        (
            match m.body_html {
                Some(h) => h,
                None => "(无 HTML 正文)"@,
            },
            false,
        )
    } else if readable(m) {
        (entities_decoded(m.body_text->Some_0), false)
    } else if m.body_html is Some {
        (html_hint(), true)
    } else {
        ("(无正文)"@, false)
    }
}

fn is_readable(m: &Email) -> (r: bool)
    ensures
        r == readable(m@),
{
    match &m.body_text {
        Some(t) => trim(t.as_str()).as_str().as_bytes().len() > 3,
        None => false,
    }
}

fn build_body(m: &Email, show_html: bool) -> (r: (String, bool))
    ensures
        (r.0@, r.1) == shown_body(m@, show_html),
{
    if show_html {
        return (
            match &m.body_html {
                Some(h) => h.clone(),
                None => "(无 HTML 正文)".to_owned(),
            },
            false,
        );
    }
    if is_readable(m) {
        if let Some(t) = &m.body_text {
            return (decode_html_entities(t.as_str()), false);
        }
    }
    if m.body_html.is_some() {
        (
            "╔══════════════════════════════════════╗\n║                                      ║\n║  此邮件仅包含 HTML 格式内容          ║\n║                                      ║\n║  按 h 键切换到 HTML 视图查看         ║\n║  按 E 键保存为 .html 文件到桌面      ║\n║                                      ║\n╚══════════════════════════════════════╝".to_owned(),
            true,
        )
    } else {
        ("(无正文)".to_owned(), false)
    }
}

/// The head of the message: sender, recipients and date.
pub open spec fn head_lines(m: EmailModel) -> Seq<LineModel> {
    let from = if m.from.len() > 0 {
        m.from
    } else {
        "(未知发件人)"@
    };
    let to = if m.to.len() == 0 {
        "(无收件人)"@
    } else {
        text::joined(m.to, "; "@)
    };
    seq![
        seq![ui::dyed(" 发件人: "@ + from, ink(Tint::White))],
        seq![ui::dyed(" 收件人: "@ + to, ink(Tint::White))],
        seq![ui::dyed(" 日  期: "@ + dates::long_date(m.date), ink(Tint::DarkGray))],
    ]
}

fn draw_head(m: &Email) -> (r: Vec<Line>)
    ensures
        text::views(r@) == head_lines(m@),
{
    let from = if !m.from.as_str().is_empty() {
        m.from.as_str()
    } else {
        "(未知发件人)"
    };
    let to = if m.to.len() == 0 {
        "(无收件人)".to_owned()
    } else {
        join(&m.to, "; ")
    };
    let date = format_mail_date(m.date.as_str());
    let mut lines: Vec<Line> = Vec::new();
    lines.push(line(concat(" 发件人: ", from).as_str(), ink(Tint::White)));
    lines.push(line(concat(" 收件人: ", to.as_str()).as_str(), ink(Tint::White)));
    lines.push(line(concat(" 日  期: ", date.as_str()).as_str(), ink(Tint::DarkGray)));
    lines
}

/// The head in an area.
pub open spec fn head_drawn(m: EmailModel, area: Area) -> DrawnModel {
    Drawn::Paragraph(
        area,
        Paragraph {
            content: Content::Lines(head_lines(m)),
            ink: plain(),
            align: Align::Left,
            block: Some(ui::framed(" 📄 "@ + m.subject + " "@, ink(Tint::Cyan))),
            wrap: true,
            scroll: 0,
        },
    )
}

/// The body in an area.
pub open spec fn body_drawn(m: EmailModel, show_html: bool, scroll: u16, area: Area) -> DrawnModel {
    let (body, html_only) = shown_body(m, show_html);
    Drawn::Paragraph(
        area,
        Paragraph {
            content: Content::Text(body),
            ink: plain(),
            align: Align::Left,
            block: Some(
                ui::framed(
                    if show_html {
                        " 🌐 HTML"@
                    } else if html_only {
                        " ⚠ 仅 HTML"@
                    } else {
                        " 📝 纯文本"@
                    },
                    plain(),
                ),
            ),
            wrap: true,
            scroll,
        },
    )
}

/// The lines of the attachments.
pub open spec fn file_lines(m: EmailModel, chosen: usize) -> Seq<LineModel> {
    Seq::new(
        m.attachments.len(),
        |i: int|
            ui::attachment_line(
                i,
                m.attachments[i].filename,
                m.attachments[i].size,
                i == chosen,
            ),
    )
}

/// The message in the parts of the terminal: head, body and, where there are any, attachments.
pub open spec fn view_drawn(v: ViewModel, parts: Seq<Area>) -> Seq<DrawnModel> {
    let m = v.mail->Some_0;
    let top = seq![
        head_drawn(m, parts[0]),
        body_drawn(m, v.show_html, v.scroll, parts[1]),
    ];
    if m.attachments.len() == 0 {
        top
    } else {
        top.push(
            ui::attachments_in(
                parts[2],
                file_lines(m, v.attachment_idx),
                " ←→ 选择附件   o 保存选中附件   保存路径: 桌面/rust-email-attachments/"@,
                true,
            ),
        )
    }
}

/// The rooms of head, body and attachments. There is room for five attachments at most.
pub open spec fn view_rooms(m: EmailModel) -> Seq<Room> {
    if m.attachments.len() == 0 {
        seq![Room::Length(5), Room::Min(1)]
    } else {
        seq![
            Room::Length(5),
            Room::Min(7),
            Room::Length(
                if m.attachments.len() < 5 {
                    (3 + m.attachments.len()) as u16
                } else {
                    8
                },
            ),
        ]
    }
}

fn rooms_of(m: &Email) -> (r: Vec<Room>)
    ensures
        r@ == view_rooms(m@),
{
    let n = m.attachments.len();
    let mut rooms: Vec<Room> = Vec::new();
    rooms.push(Room::Length(5));
    if n == 0 {
        rooms.push(Room::Min(1));
    } else {
        rooms.push(Room::Min(7));
        rooms.push(
            Room::Length(
                if n < 5 {
                    3 + n as u16
                } else {
                    8
                },
            ),
        );
    }
    assert(rooms@ =~= view_rooms(m@));
    rooms
}

impl MailView<Email, String> {
    /// The rooms of head, body and attachments, if there is a message.
    pub fn rooms(&self) -> (r: Option<Vec<Room>>)
        ensures
            match self@.mail {
                Some(m) => r matches Some(v) && v@ == view_rooms(m),
                None => r is None,
            },
    {
        match &self.mail {
            Some(m) => Some(rooms_of(m)),
            None => None,
        }
    }

    /// Draws the message in these parts of the terminal.
    pub fn draw_in(&self, parts: &Vec<Area>) -> (r: Vec<Drawn>)
        requires
            self@.mail matches Some(m) && parts@.len() == view_rooms(m).len(),
        ensures
            text::views(r@) == view_drawn(self@, parts@),
    {
        let mut out: Vec<Drawn> = Vec::new();
        if let Some(m) = &self.mail {
            let mut title = concat(" 📄 ", m.subject.as_str());
            title.append(" ");
            out.push(
                Drawn::Paragraph(
                    parts[0],
                    Paragraph {
                        content: Content::Lines(draw_head(m)),
                        ink: plain(),
                        align: Align::Left,
                        block: Some(block(title.as_str(), ink(Tint::Cyan))),
                        wrap: true,
                        scroll: 0,
                    },
                ),
            );
            let (body, html_only) = build_body(m, self.show_html);
            let body_title = if self.show_html {
                " 🌐 HTML"
            } else if html_only {
                " ⚠ 仅 HTML"
            } else {
                " 📝 纯文本"
            };
            out.push(
                Drawn::Paragraph(
                    parts[1],
                    Paragraph {
                        content: Content::Text(body),
                        ink: plain(),
                        align: Align::Left,
                        block: Some(block(body_title, plain())),
                        wrap: true,
                        scroll: self.scroll,
                    },
                ),
            );
            if m.attachments.len() > 0 {
                let mut rows: Vec<Line> = Vec::new();
                let mut i: usize = 0;
                while i < m.attachments.len()
                    invariant
                        i <= m.attachments.len(),
                        rows.len() == i,
                        forall|j: int|
                            0 <= j < i ==> (#[trigger] rows[j])@ == ui::attachment_line(
                                j,
                                m@.attachments[j].filename,
                                m@.attachments[j].size,
                                j == self.attachment_idx,
                            ),
                    decreases m.attachments.len() - i,
                {
                    let file = &m.attachments[i];
                    assert(m@.attachments[i as int] == file@);
                    rows.push(
                        draw_attachment(
                            i,
                            file.filename.as_str(),
                            file.size,
                            i == self.attachment_idx,
                        ),
                    );
                    i += 1;
                }
                assert(text::views(rows@) =~= file_lines(m@, self.attachment_idx));
                out.push(
                    draw_attachments(
                        parts[2],
                        rows,
                        " ←→ 选择附件   o 保存选中附件   保存路径: 桌面/rust-email-attachments/",
                        true,
                    ),
                );
            }
        }
        out
    }

    /// Draws the message, or says that there is none.
    pub fn draw(&self, area: Area) -> (r: Vec<Drawn>)
        ensures
            match self@.mail {
                Some(m) => {
                    &&& exists|parts: Seq<Area>| #[trigger]
                        ui::stacked(parts, area, view_rooms(m)) && text::views(r@) == view_drawn(
                            self@,
                            parts,
                        )
                    &&& ui::roomy(view_rooms(m), area.y, area.height) ==> text::views(r@)
                        == view_drawn(self@, ui::cut_down(area, view_rooms(m)))
                },
                None => text::views(r@) == seq![ui::hint_in(area, "未选择邮件"@)],
            },
    {
        match self.rooms() {
            None => {
                let mut out: Vec<Drawn> = Vec::new();
                out.push(draw_hint(area, "未选择邮件"));
                out
            },
            Some(rooms) => {
                let parts = split_down(area, &rooms);
                self.draw_in(&parts)
            },
        }
    }
}

} // verus!
