//! A message that is being written.

use vstd::prelude::*;
use vstd::string::*;

use crate::account_form;
use crate::account_form::{draw_keys, draw_marker, value_ink};
use crate::action::{Action, ActionModel};
use crate::keys::{Key, KeyCode};
use crate::number;
use crate::number::decimal_text;
use crate::text;
use crate::text::{
    concat, join, left_align, lines, pop_char, push_char, split_list, to_chars, to_text, trim,
    trim_start_matches, Sep,
};
use crate::types::{duplicate_all, AttachmentData, OutgoingEmail, OutgoingModel};
use crate::ui;
use crate::ui::{
    bold, draw_attachment, draw_attachments, draw_line, draw_list, ink, item, line, line_of, plain,
    span, split_down, Area, Drawn, DrawnModel, Item, ItemModel, Line, LineModel, Room, Span, Tint,
};

verus! {

broadcast use {
    vstd::string::group_string_axioms,
    text::views_push,
    text::views_empty,
};

/// The recipients of a list with commas or semicolons between them: trimmed, and none empty.
pub open spec fn recipients(s: Seq<char>) -> Seq<Seq<char>> {
    text::filled(text::pieces(s, Sep::Either(',', ';')))
}

/// The recipients of a list with commas or semicolons between them.
pub fn split_recipients(s: &str) -> (r: Vec<String>)
    ensures
        text::views(r@) == recipients(s@),
{
    split_list(s, Sep::Either(',', ';'))
}

/// A field of the message; `L` is its label, `T` text.
#[derive(Clone, Debug, PartialEq, Eq)]
pub struct ComposeField<L = &'static str, T = String> {
    pub label: L,
    pub value: T,
}

/// The model of a field.
pub type PieceModel = ComposeField<Seq<char>, Seq<char>>;

impl View for ComposeField<&'static str, String> {
    type V = PieceModel;

    open spec fn view(&self) -> PieceModel {
        ComposeField { label: self.label@, value: self.value@ }
    }
}

/// The model of a file that goes out with a message.
pub type FileModel = AttachmentData<Seq<char>, Seq<u8>>;

/// A message that is being written; `F` is a list of fields, `A` one of files, `T` text.
#[derive(Clone, Debug, PartialEq, Eq)]
pub struct Compose<F = Vec<ComposeField>, A = Vec<AttachmentData>, T = String> {
    /// Recipients, those of copies, those of hidden copies, subject, body, path of a file.
    pub fields: F,
    /// The field that is edited; the number behind the last one is the list of files.
    pub focus: usize,
    /// The files.
    pub attachments: A,
    /// The file that is chosen.
    pub att_focus: usize,
    /// Whether this is a reply.
    pub reply_to: Option<T>,
    /// Whether this is a reply to all.
    pub reply_all: bool,
    /// Whether this is forwarded.
    pub forward: bool,
}

/// The model of a message that is being written.
pub type ComposeModel = Compose<Seq<PieceModel>, Seq<FileModel>, Seq<char>>;

impl View for Compose<Vec<ComposeField>, Vec<AttachmentData>, String> {
    type V = ComposeModel;

    open spec fn view(&self) -> ComposeModel {
        Compose {
            fields: text::views(self.fields@),
            focus: self.focus,
            attachments: text::views(self.attachments@),
            att_focus: self.att_focus,
            reply_to: text::opt_view(self.reply_to),
            reply_all: self.reply_all,
            forward: self.forward,
        }
    }
}

/// Whether the message has its six fields, what is edited is one of them or the files, and the
/// chosen file is one of them.
pub open spec fn compose_wf(c: ComposeModel) -> bool {
    &&& c.fields.len() == 6
    &&& c.focus <= 6
    &&& c.att_focus == 0 || c.att_focus < c.attachments.len()
}

/// A field without a value.
pub open spec fn empty_piece(label: Seq<char>) -> PieceModel {
    ComposeField { label, value: seq![] }
}

/// An empty message.
pub open spec fn empty_compose() -> ComposeModel {
    Compose {
        fields: seq![
            empty_piece("收件人"@),
            empty_piece("抄送"@),
            empty_piece("密送"@),
            empty_piece("主题"@),
            empty_piece("正文"@),
            empty_piece("附件路径"@),
        ],
        focus: 0,
        attachments: seq![],
        att_focus: 0,
        reply_to: None,
        reply_all: false,
        forward: false,
    }
}

/// The message with this value in a field.
pub open spec fn with_value(c: ComposeModel, i: int, value: Seq<char>) -> ComposeModel {
    Compose { fields: c.fields.update(i, ComposeField { value, ..c.fields[i] }), ..c }
}

/// The subject of an answer: the mark, and then the subject without the marks that it begins
/// with, trimmed.
pub open spec fn answer_subject(mark: Seq<char>, subject: Seq<char>) -> Seq<char> {
    mark + text::trimmed(subject.skip(text::skip_all(subject, mark, 0)))
}

fn build_answer_subject(mark: &str, subject: &str) -> (r: String)
    requires
        mark@.len() > 0,
    ensures
        r@ == answer_subject(mark@, subject@),
{
    concat(mark, trim(trim_start_matches(subject, mark).as_str()).as_str())
}

proof fn lemma_skip_all(s: Seq<char>, pat: Seq<char>, i: int)
    requires
        0 <= i <= s.len(),
    ensures
        i <= text::skip_all(s, pat, i) <= s.len(),
    decreases s.len() - i,
{
    if pat.len() > 0 && text::occurs(s, pat, i) {
        lemma_skip_all(s, pat, i + pat.len());
    }
}

/// To answer an answer does not repeat the mark. (A subject with space before its mark keeps
/// that mark, and is left out here.)
pub proof fn answer_once(mark: Seq<char>, subject: Seq<char>)
    requires
        mark.len() > 0,
        !text::occurs(text::trimmed(subject.skip(text::skip_all(subject, mark, 0))), mark, 0),
    ensures
        answer_subject(mark, answer_subject(mark, subject)) == answer_subject(mark, subject),
{
    lemma_skip_all(subject, mark, 0);
    let rest = text::trimmed(subject.skip(text::skip_all(subject, mark, 0)));
    let s = mark + rest;
    assert(s.subrange(0, mark.len() as int) =~= mark);
    assert(text::occurs(s, mark, 0));
    assert(!text::occurs(s, mark, mark.len() as int)) by {
        if text::occurs(s, mark, mark.len() as int) {
            assert(s.subrange(mark.len() as int, 2 * mark.len() as int) =~= rest.subrange(
                0,
                mark.len() as int,
            ));
        }
    }
    assert(text::skip_all(s, mark, mark.len() as int) == mark.len());
    assert(text::skip_all(s, mark, 0) == mark.len());
    assert(s.skip(mark.len() as int) =~= rest);
    text::trimmed_ends(subject.skip(text::skip_all(subject, mark, 0)));
}

/// The message as a reply.
pub open spec fn replying(c: ComposeModel, from: Seq<char>, subject: Seq<char>) -> ComposeModel {
    let a = with_value(c, 0, from);
    let b = with_value(a, 3, answer_subject("Re: "@, subject));
    Compose { reply_to: Some(seq![]), ..b }
}

/// The message as a reply to all.
pub open spec fn replying_all(
    c: ComposeModel,
    from: Seq<char>,
    cc: Seq<Seq<char>>,
    subject: Seq<char>,
) -> ComposeModel {
    let a = with_value(c, 0, from);
    let b = if cc.len() == 0 {
        a
    } else {
        with_value(a, 1, text::joined(cc, "; "@))
    };
    let d = with_value(b, 3, answer_subject("Re: "@, subject));
    Compose { reply_all: true, ..d }
}

/// The message as one that is forwarded.
pub open spec fn forwarding(c: ComposeModel, subject: Seq<char>) -> ComposeModel {
    Compose { forward: true, ..with_value(c, 3, answer_subject("Fwd: "@, subject)) }
}

/// The message without the file of this number.
pub open spec fn without_attachment(c: ComposeModel, idx: int) -> ComposeModel {
    if 0 <= idx < c.attachments.len() {
        let left = c.attachments.remove(idx);
        Compose {
            attachments: left,
            att_focus: if c.att_focus < left.len() {
                c.att_focus
            } else if left.len() == 0 {
                0
            } else {
                (left.len() - 1) as usize
            },
            ..c
        }
    } else {
        c
    }
}

/// The message as it is to be sent.
pub open spec fn outgoing(c: ComposeModel, from: Seq<char>) -> OutgoingModel {
    OutgoingEmail {
        from,
        to: recipients(c.fields[0].value),
        cc: recipients(c.fields[1].value),
        bcc: recipients(c.fields[2].value),
        subject: c.fields[3].value,
        body_text: Some(c.fields[4].value),
        body_html: None,
        attachments: c.attachments,
        in_reply_to: None,
        references: seq![],
    }
}

/// A recipient that is written alone is read back, and so is a list of them that is written with
/// semicolons and spaces.
pub proof fn recipients_read_back(list: Seq<Seq<char>>)
    requires
        forall|k: int|
            0 <= k < list.len() ==> text::entry(#[trigger] list[k], Sep::Either(',', ';')),
    ensures
        recipients(text::joined(list, "; "@)) == list,
{
    reveal_strlit("; ");
    assert("; "@ =~= seq![';', ' ']);
    text::list_reads_back(list, ';', Sep::Either(',', ';'));
}

/// A reply goes to whom the message was from, with the mark before its subject.
pub proof fn reply_goes_back(c: ComposeModel, from: Seq<char>, subject: Seq<char>, me: Seq<char>)
    requires
        compose_wf(c),
        text::entry(from, Sep::Either(',', ';')),
    ensures
        outgoing(replying(c, from, subject), me).to == seq![from],
        outgoing(replying(c, from, subject), me).subject == answer_subject("Re: "@, subject),
{
    recipients_read_back(seq![from]);
}

/// A reply to all goes to whom the message was from, with copies to all of the list, in its order
/// and with nobody lost, and has the subject of a reply. Where the list is empty, the copies stay
/// as they were: there are none in a new message.
pub proof fn reply_goes_to_all(
    c: ComposeModel,
    from: Seq<char>,
    cc: Seq<Seq<char>>,
    subject: Seq<char>,
    me: Seq<char>,
)
    requires
        compose_wf(c),
        text::entry(from, Sep::Either(',', ';')),
        forall|k: int| 0 <= k < cc.len() ==> text::entry(#[trigger] cc[k], Sep::Either(',', ';')),
    ensures
        ({
            let m = outgoing(replying_all(c, from, cc, subject), me);
            &&& m.to == seq![from]
            &&& cc.len() > 0 ==> m.cc == cc
            &&& cc.len() == 0 ==> m.cc == outgoing(c, me).cc
            &&& c == empty_compose() ==> m.cc == cc
            &&& m.subject == outgoing(replying(c, from, subject), me).subject
        }),
{
    recipients_read_back(seq![from]);
    recipients_read_back(cc);
    if cc.len() == 0 && c == empty_compose() {
        assert(text::joined(cc, "; "@) =~= c.fields[1].value);
    }
}

/// The message with everything taken out.
pub open spec fn cleared(c: ComposeModel) -> ComposeModel {
    Compose {
        fields: c.fields.map_values(|f: PieceModel| ComposeField { value: seq![], ..f }),
        focus: 0,
        attachments: seq![],
        att_focus: 0,
        reply_to: None,
        reply_all: false,
        forward: false,
    }
}

/// How many things can be edited: the fields, and the files where there are any.
pub open spec fn item_count(c: ComposeModel) -> int {
    c.fields.len() + if c.attachments.len() == 0 {
        0int
    } else {
        1
    }
}

/// The message after a key while the files are edited, and what the client is told to do.
pub open spec fn files_key(c: ComposeModel, key: Key) -> (ComposeModel, Option<ActionModel>) {
    match key.code {
        KeyCode::Char(ch) => if ch == 'd' {
            (c, Some(Action::RemoveAttachment(c.att_focus)))
        } else {
            (c, None)
        },
        KeyCode::Left => (
            Compose {
                att_focus: if c.att_focus > 0 {
                    (c.att_focus - 1) as usize
                } else {
                    0
                },
                ..c
            },
            None,
        ),
        KeyCode::Right => (
            Compose {
                att_focus: if c.att_focus + 1 < c.attachments.len() {
                    (c.att_focus + 1) as usize
                } else {
                    c.att_focus
                },
                ..c
            },
            None,
        ),
        KeyCode::Down | KeyCode::Tab => (Compose { focus: 0, ..c }, None),
        KeyCode::Up => (Compose { focus: 5, ..c }, None),
        _ => (c, None),
    }
}

/// The message after a key, and what the client is told to do.
pub open spec fn compose_key(c: ComposeModel, key: Key) -> (ComposeModel, Option<ActionModel>) {
    let next = Compose { focus: ((c.focus + 1) % item_count(c)) as usize, ..c };
    if key.control && key.code == KeyCode::Char('s') {
        if c.fields[0].value.len() == 0 {
            (c, Some(Action::Error("收件人不能为空"@)))
        } else {
            (c, Some(Action::Send))
        }
    } else if c.focus == 6 && c.attachments.len() > 0 {
        files_key(c, key)
    } else {
        match key.code {
            KeyCode::Tab | KeyCode::Down => (next, None),
            KeyCode::Up => (
                Compose {
                    focus: if c.focus == 0 {
                        (item_count(c) - 1) as usize
                    } else {
                        (c.focus - 1) as usize
                    },
                    ..c
                },
                None,
            ),
            KeyCode::Enter => if c.focus == 5 {
                let path = text::trimmed(c.fields[5].value);
                if path.len() == 0 {
                    (c, None)
                } else {
                    (c, Some(Action::AddAttachment(path)))
                }
            } else if c.focus == 4 {
                (with_value(c, 4, c.fields[4].value.push('\n')), None)
            } else {
                (next, None)
            },
            KeyCode::Char(ch) => (
                if c.focus < 6 {
                    with_value(c, c.focus as int, c.fields[c.focus as int].value.push(ch))
                } else {
                    c
                },
                None,
            ),
            KeyCode::Backspace => (
                if c.focus < 6 {
                    let old = c.fields[c.focus as int].value;
                    with_value(
                        c,
                        c.focus as int,
                        if old.len() == 0 {
                            old
                        } else {
                            old.drop_last()
                        },
                    )
                } else {
                    c
                },
                None,
            ),
            KeyCode::Esc => (cleared(c), Some(Action::CancelCompose)),
            _ => (c, None),
        }
    }
}

impl Compose<Vec<ComposeField>, Vec<AttachmentData>, String> {
    /// An empty message.
    pub fn new() -> (r: Self)
        ensures
            r@ == empty_compose(),
            compose_wf(r@),
    {
        let mut fields: Vec<ComposeField> = Vec::new();
        fields.push(ComposeField { label: "收件人", value: String::new() });
        fields.push(ComposeField { label: "抄送", value: String::new() });
        fields.push(ComposeField { label: "密送", value: String::new() });
        fields.push(ComposeField { label: "主题", value: String::new() });
        fields.push(ComposeField { label: "正文", value: String::new() });
        fields.push(ComposeField { label: "附件路径", value: String::new() });
        let attachments: Vec<AttachmentData> = Vec::new();
        proof {
            assert(Seq::<char>::empty() =~= seq![]);
            assert(text::views(fields@) =~= empty_compose().fields);
            assert(text::views(attachments@) =~= empty_compose().attachments);
        }
        Compose {
            fields,
            focus: 0,
            attachments,
            att_focus: 0,
            reply_to: None,
            reply_all: false,
            forward: false,
        }
    }

    fn set_value(&mut self, i: usize, value: String)
        requires
            i < old(self).fields.len(),
        ensures
            final(self)@ == with_value(old(self)@, i as int, value@),
            final(self).fields.len() == old(self).fields.len(),
    {
        let ghost before = self@;
        let f = ComposeField { label: self.fields[i].label, value };
        self.fields.set(i, f);
        assert(self@.fields =~= with_value(before, i as int, value@).fields);
    }

    /// Makes the message a reply to this sender.
    pub fn set_reply(&mut self, from: &str, subject: &str)
        requires
            compose_wf(old(self)@),
        ensures
            final(self)@ == replying(old(self)@, from@, subject@),
            compose_wf(final(self)@),
    {
        proof {
            reveal_strlit("Re: ");
        }
        self.set_value(0, from.to_owned());
        self.set_value(3, build_answer_subject("Re: ", subject));
        self.reply_to = Some(String::new());
        assert(self@.reply_to == Some(Seq::<char>::empty()));
    }

    /// Makes the message a reply to this sender and all these.
    pub fn set_reply_all(&mut self, from: &str, cc: &Vec<String>, subject: &str)
        requires
            compose_wf(old(self)@),
        ensures
            final(self)@ == replying_all(old(self)@, from@, text::views(cc@), subject@),
            compose_wf(final(self)@),
    {
        proof {
            reveal_strlit("Re: ");
        }
        self.set_value(0, from.to_owned());
        if cc.len() > 0 {
            self.set_value(1, join(cc, "; "));
        }
        self.set_value(3, build_answer_subject("Re: ", subject));
        self.reply_all = true;
    }

    /// Makes the message one that is forwarded.
    pub fn set_forward(&mut self, subject: &str)
        requires
            compose_wf(old(self)@),
        ensures
            final(self)@ == forwarding(old(self)@, subject@),
            compose_wf(final(self)@),
    {
        proof {
            reveal_strlit("Fwd: ");
        }
        self.set_value(3, build_answer_subject("Fwd: ", subject));
        self.forward = true;
    }

    /// Adds a file and empties the field for its path.
    pub fn add_attachment(&mut self, data: AttachmentData)
        requires
            compose_wf(old(self)@),
        ensures
            final(self)@ == with_value(
                (Compose { attachments: old(self)@.attachments.push(data@), ..old(self)@ }),
                5,
                seq![],
            ),
            compose_wf(final(self)@),
    {
        self.attachments.push(data);
        let none = String::new();
        assert(none@ =~= seq![]);
        self.set_value(5, none);
    }

    /// Takes out the file of this number, if there is one.
    pub fn remove_attachment(&mut self, idx: usize)
        requires
            compose_wf(old(self)@),
        ensures
            final(self)@ == without_attachment(old(self)@, idx as int),
            compose_wf(final(self)@),
    {
        if idx < self.attachments.len() {
            let ghost before = self@.attachments;
            self.attachments.remove(idx);
            assert(text::views(self.attachments@) =~= before.remove(idx as int));
            if self.att_focus >= self.attachments.len() {
                self.att_focus = if self.attachments.len() == 0 {
                    0
                } else {
                    self.attachments.len() - 1
                };
            }
        }
    }

    /// The message as it is to be sent.
    pub fn build_outgoing(&self, from: &str) -> (r: OutgoingEmail)
        requires
            compose_wf(self@),
        ensures
            r@ == outgoing(self@, from@),
    {
        proof {
            assert forall|i: int| 0 <= i < 6 implies #[trigger] self@.fields[i]
                == self.fields[i]@ by {}
        }
        let references: Vec<String> = Vec::new();
        assert(text::views(references@) =~= seq![]);
        OutgoingEmail {
            from: from.to_owned(),
            to: split_recipients(self.fields[0].value.as_str()),
            cc: split_recipients(self.fields[1].value.as_str()),
            bcc: split_recipients(self.fields[2].value.as_str()),
            subject: self.fields[3].value.clone(),
            body_text: Some(self.fields[4].value.clone()),
            body_html: None,
            attachments: duplicate_all(&self.attachments),
            in_reply_to: None,
            references,
        }
    }

    fn reset(&mut self)
        ensures
            final(self)@ == cleared(old(self)@),
    {
        let ghost before = self@.fields;
        let mut i: usize = 0;
        while i < self.fields.len()
            invariant
                i <= self.fields.len(),
                self@.fields.len() == before.len(),
                forall|j: int|
                    i <= j < self.fields.len() ==> (#[trigger] self@.fields[j]) == before[j],
                forall|j: int|
                    0 <= j < i ==> (#[trigger] self@.fields[j]) == (ComposeField {
                        value: Seq::<char>::empty(),
                        ..before[j]
                    }),
            decreases self.fields.len() - i,
        {
            assert(self@.fields[i as int] == before[i as int]);
            self.set_value(i, String::new());
            i += 1;
        }
        self.focus = 0;
        self.attachments = Vec::new();
        self.att_focus = 0;
        self.reply_to = None;
        self.reply_all = false;
        self.forward = false;
        assert(self@.fields =~= before.map_values(
            |f: PieceModel| ComposeField { value: seq![], ..f },
        ));
        assert(self@.attachments =~= seq![]);
    }

    fn total_items(&self) -> (r: usize)
        requires
            compose_wf(self@),
        ensures
            r == item_count(self@),
    {
        if self.attachments.len() == 0 {
            6
        } else {
            7
        }
    }

    fn handle_files_key(&mut self, key: Key) -> (r: Option<Action>)
        requires
            compose_wf(old(self)@),
        ensures
            (final(self)@, text::opt_view(r)) == files_key(old(self)@, key),
            compose_wf(final(self)@),
    {
        match key.code {
            KeyCode::Char(c) => {
                if c == 'd' {
                    return Some(Action::RemoveAttachment(self.att_focus));
                }
            },
            KeyCode::Left => {
                if self.att_focus > 0 {
                    self.att_focus = self.att_focus - 1;
                }
            },
            KeyCode::Right => {
                if self.attachments.len() > 0 && self.att_focus < self.attachments.len() - 1 {
                    self.att_focus = self.att_focus + 1;
                }
            },
            KeyCode::Down | KeyCode::Tab => {
                self.focus = 0;
            },
            KeyCode::Up => {
                self.focus = 5;
            },
            _ => {},
        }
        None
    }

    /// Takes a key.
    pub fn handle_key_event(&mut self, key: Key) -> (r: Option<Action>)
        requires
            compose_wf(old(self)@),
        ensures
            (final(self)@, text::opt_view(r)) == compose_key(old(self)@, key),
            compose_wf(final(self)@),
    {
        proof {
            assert forall|i: int| 0 <= i < 6 implies #[trigger] self@.fields[i]
                == self.fields[i]@ by {}
        }
        if key.control && key.code == KeyCode::Char('s') {
            if self.fields[0].value.as_str().is_empty() {
                return Some(Action::Error("收件人不能为空".to_owned()));
            }
            return Some(Action::Send);
        }
        if self.focus == 6 && self.attachments.len() > 0 {
            return self.handle_files_key(key);
        }
        let total = self.total_items();
        let focus: usize = self.focus;
        match key.code {
            KeyCode::Tab | KeyCode::Down => {
                self.focus = (focus + 1) % total;
            },
            KeyCode::Up => {
                self.focus = if focus == 0 {
                    total - 1
                } else {
                    focus - 1
                };
            },
            KeyCode::Enter => {
                if focus == 5 {
                    let path = trim(self.fields[5].value.as_str());
                    if !path.as_str().is_empty() {
                        return Some(Action::AddAttachment(path));
                    }
                } else if focus == 4 {
                    let mut value = self.fields[4].value.clone();
                    push_char(&mut value, '\n');
                    self.set_value(4, value);
                } else {
                    self.focus = (focus + 1) % total;
                }
            },
            KeyCode::Char(c) => {
                if focus < 6 {
                    let mut value = self.fields[focus].value.clone();
                    push_char(&mut value, c);
                    self.set_value(focus, value);
                }
            },
            KeyCode::Backspace => {
                if focus < 6 {
                    let mut value = self.fields[focus].value.clone();
                    pop_char(&mut value);
                    self.set_value(focus, value);
                }
            },
            KeyCode::Esc => {
                self.reset();
                return Some(Action::CancelCompose);
            },
            _ => {},
        }
        None
    }
}

/// A file that is added last and taken out again leaves the files as they were.
pub proof fn added_file_taken_out(c: ComposeModel, file: FileModel)
    ensures
        without_attachment(
            Compose { attachments: c.attachments.push(file), ..c },
            c.attachments.len() as int,
        ).attachments == c.attachments,
{
    assert(c.attachments.push(file).remove(c.attachments.len() as int) =~= c.attachments);
}

/// The lines of a body as they are edited: behind a last line feed stands an empty line.
pub open spec fn edited_lines(value: Seq<char>) -> Seq<Seq<char>> {
    if value.len() > 0 && value.last() == '\n' {
        text::lines_of(value).push(seq![])
    } else {
        text::lines_of(value)
    }
}

/// How many lines of a body are shown at most.
pub const BODY_LINES: usize = 30;

/// The row of a line of the body. The first stands behind the label; the last has the cursor.
pub open spec fn body_row(line: Seq<char>, i: int, last: bool, focused: bool) -> LineModel {
    let shown = if focused && last {
        line + "|"@
    } else {
        line
    };
    if i == 0 {
        seq![
            account_form::marker(focused),
            ui::dyed(" 正文  "@, ink(Tint::Cyan)),
            ui::dyed(shown, value_ink(focused)),
        ]
    } else {
        seq![ui::dyed("        "@, plain()), ui::dyed(shown, value_ink(focused))]
    }
}

/// The rows of the body.
pub open spec fn body_rows(value: Seq<char>, focused: bool) -> Seq<LineModel> {
    let all = edited_lines(value);
    let shown = if all.len() > BODY_LINES {
        BODY_LINES as nat
    } else {
        all.len()
    };
    let rows = Seq::new(shown, |i: int| body_row(all[i], i, i == shown - 1, focused));
    if value.len() == 0 {
        seq![
            seq![
                account_form::marker(focused),
                ui::dyed(" 正文  "@, ink(Tint::Cyan)),
                ui::dyed(
                    if focused {
                        "|"@
                    } else {
                        " <输入正文>"@
                    },
                    value_ink(focused),
                ),
            ],
        ]
    } else if all.len() > BODY_LINES {
        rows.push(
            seq![
                ui::dyed("        "@, plain()),
                ui::dyed("… 共 "@ + number::decimal(all.len()) + " 行"@, ink(Tint::DarkGray)),
            ],
        )
    } else {
        rows
    }
}

fn draw_body_row(text: &str, first: bool, last: bool, focused: bool) -> (r: Line)
    ensures
        r@ == body_row(
            text@,
            if first {
                0
            } else {
                1
            },
            last,
            focused,
        ),
{
    let shown = if focused && last {
        concat(text, "|")
    } else {
        text.to_owned()
    };
    if first {
        line_of(
            draw_marker(focused),
            span(" 正文  ", ink(Tint::Cyan)),
            span(shown.as_str(), value_ink(focused)),
        )
    } else {
        let mut spans: Vec<Span> = Vec::new();
        spans.push(span("        ", plain()));
        spans.push(span(shown.as_str(), value_ink(focused)));
        Line { spans }
    }
}

/// The rows of the body.
pub fn build_body_lines(value: &str, focused: bool) -> (r: Vec<Line>)
    ensures
        text::views(r@) == body_rows(value@, focused),
{
    let mut rows: Vec<Line> = Vec::new();
    let chars = to_chars(value);
    if chars.len() == 0 {
        rows.push(
            line_of(
                draw_marker(focused),
                span(" 正文  ", ink(Tint::Cyan)),
                span(
                    if focused {
                        "|"
                    } else {
                        " <输入正文>"
                    },
                    value_ink(focused),
                ),
            ),
        );
        return rows;
    }
    let mut all = lines(&chars);
    if chars[chars.len() - 1] == '\n' {
        let none: Vec<char> = Vec::new();
        assert(none@ =~= seq![]);
        all.push(none);
    }
    let ghost wanted = edited_lines(value@);
    let total: usize = all.len();
    let shown: usize = if total > BODY_LINES {
        BODY_LINES
    } else {
        total
    };
    let mut i: usize = 0;
    while i < shown
        invariant
            i <= shown <= total,
            total == all.len(),
            wanted == text::views(all@),
            rows.len() == i,
            forall|j: int|
                0 <= j < i ==> (#[trigger] rows[j])@ == body_row(
                    wanted[j],
                    j,
                    j == shown - 1,
                    focused,
                ),
        decreases shown - i,
    {
        assert(wanted[i as int] == all[i as int]@);
        let row = to_text(&all[i]);
        rows.push(draw_body_row(row.as_str(), i == 0, i + 1 == shown, focused));
        i += 1;
    }
    let ghost body = text::views(rows@);
    proof {
        let want = body_rows(value@, focused);
        assert(want.len() == if total > BODY_LINES {
            shown + 1
        } else {
            shown as int
        });
        assert forall|j: int| 0 <= j < shown implies body[j] == want[j] by {
            assert(body[j] == rows[j]@);
        }
    }
    if total > BODY_LINES {
        let mut more = concat("… 共 ", decimal_text(total as u64).as_str());
        more.append(" 行");
        let mut spans: Vec<Span> = Vec::new();
        spans.push(span("        ", plain()));
        spans.push(span(more.as_str(), ink(Tint::DarkGray)));
        let last = Line { spans };
        rows.push(last);
        assert(text::views(rows@) == body.push(last@));
        assert(last@ == body_rows(value@, focused)[shown as int]);
    }
    assert(text::views(rows@) =~= body_rows(value@, focused));
    rows
}

/// What a field without a value shows.
pub open spec fn field_hint(i: int) -> Seq<char> {
    if i == 0 {
        " <输入收件人邮箱>"@
    } else if i == 1 {
        " <抄送，可选>"@
    } else if i == 2 {
        " <密送，可选>"@
    } else if i == 3 {
        " <邮件主题>"@
    } else {
        " <输入文件路径，回车添加附件>"@
    }
}

/// The row of a field.
pub open spec fn piece_item(f: PieceModel, i: int, focused: bool) -> ItemModel {
    if i == 4 {
        body_rows(f.value, focused)
    } else {
        seq![
            seq![
                account_form::marker(focused),
                ui::dyed(" "@ + text::left_aligned(f.label, 6), ink(Tint::Cyan)),
                ui::dyed(
                    if f.value.len() == 0 && !focused {
                        field_hint(i)
                    } else {
                        f.value
                    },
                    value_ink(focused),
                ),
            ],
        ]
    }
}

fn draw_piece(f: &ComposeField, i: usize, focused: bool) -> (r: Item)
    requires
        i < 6,
    ensures
        r@ == piece_item(f@, i as int, focused),
{
    if i == 4 {
        return Item { lines: build_body_lines(f.value.as_str(), focused) };
    }
    let hint = if i == 0 {
        " <输入收件人邮箱>"
    } else if i == 1 {
        " <抄送，可选>"
    } else if i == 2 {
        " <密送，可选>"
    } else if i == 3 {
        " <邮件主题>"
    } else {
        " <输入文件路径，回车添加附件>"
    };
    let shown = if f.value.as_str().is_empty() && !focused {
        hint
    } else {
        f.value.as_str()
    };
    item(
        line_of(
            draw_marker(focused),
            span(concat(" ", left_align(f.label, 6).as_str()).as_str(), ink(Tint::Cyan)),
            span(shown, value_ink(focused)),
        ),
    )
}

/// The title of the message.
pub open spec fn compose_title(c: ComposeModel) -> Seq<char> {
    if c.forward {
        " ➡️ 转发邮件 "@
    } else if c.reply_all {
        " ↩️ 回复全部 "@
    } else if c.reply_to is Some {
        " ↩️ 回复邮件 "@
    } else {
        " ✉️ 写新邮件 "@
    }
}

/// The title of the fields.
pub open spec fn fields_title(c: ComposeModel) -> Seq<char> {
    if c.forward {
        " 转发 "@
    } else if c.reply_all {
        " 回复全部 "@
    } else if c.reply_to is Some {
        " 回复 "@
    } else {
        " 新邮件 "@
    }
}

/// The fields.
pub open spec fn compose_items(c: ComposeModel) -> Seq<ItemModel> {
    Seq::new(c.fields.len(), |i: int| piece_item(c.fields[i], i, i == c.focus))
}

/// The lines of the files.
pub open spec fn file_lines(c: ComposeModel) -> Seq<LineModel> {
    Seq::new(
        c.attachments.len(),
        |i: int|
            ui::attachment_line(
                i,
                c.attachments[i].filename,
                c.attachments[i].data.len() as u64,
                i == c.att_focus && c.focus == 6,
            ),
    )
}

/// The files, or how to add one.
pub open spec fn files_drawn(c: ComposeModel, area: Area) -> DrawnModel {
    if c.attachments.len() == 0 {
        ui::lines_in(
            area,
            seq![
                seq![
                    ui::dyed(
                        " 在上方「附件路径」输入文件路径，按回车添加"@,
                        ink(Tint::DarkGray),
                    ),
                ],
            ],
        )
    } else {
        ui::attachments_in(area, file_lines(c), " d 移除选中附件    ←→ 选择附件"@, false)
    }
}

/// What the keys do.
pub open spec fn compose_help() -> LineModel {
    seq![
        ui::dyed(" Tab/↑↓ "@, ink(Tint::DarkGray)),
        ui::dyed("切换  "@, plain()),
        ui::dyed(" Enter "@, ink(Tint::DarkGray)),
        ui::dyed("换行(正文)/添加附件  "@, plain()),
        ui::dyed(" Ctrl+S "@, ink(Tint::DarkGray)),
        ui::dyed("发送  "@, plain()),
        ui::dyed(" Esc "@, ink(Tint::DarkGray)),
        ui::dyed("取消"@, plain()),
    ]
}

/// The message in four parts of the terminal: title, fields, files and help.
pub open spec fn compose_drawn(c: ComposeModel, parts: Seq<Area>) -> Seq<DrawnModel> {
    seq![
        ui::lines_in(parts[0], seq![seq![ui::dyed(compose_title(c), bold(Tint::Cyan))]]),
        ui::list_in(parts[1], compose_items(c), fields_title(c)),
        files_drawn(c, parts[2]),
        ui::lines_in(parts[3], seq![compose_help()]),
    ]
}

/// The rooms of title, fields, files and help. There is room for five files at most.
pub open spec fn compose_rooms(c: ComposeModel) -> Seq<Room> {
    seq![
        Room::Length(2),
        Room::Min(1),
        Room::Length(
            if c.attachments.len() == 0 {
                1
            } else if c.attachments.len() < 5 {
                (2 + c.attachments.len()) as u16
            } else {
                7
            },
        ),
        Room::Length(2),
    ]
}

impl Compose<Vec<ComposeField>, Vec<AttachmentData>, String> {
    fn draw_files(&self, area: Area) -> (r: Drawn)
        ensures
            r@ == files_drawn(self@, area),
    {
        if self.attachments.len() == 0 {
            return draw_line(
                area,
                line(" 在上方「附件路径」输入文件路径，按回车添加", ink(Tint::DarkGray)),
            );
        }
        let mut rows: Vec<Line> = Vec::new();
        let mut i: usize = 0;
        while i < self.attachments.len()
            invariant
                i <= self.attachments.len(),
                rows.len() == i,
                forall|j: int|
                    0 <= j < i ==> (#[trigger] rows[j])@ == ui::attachment_line(
                        j,
                        self@.attachments[j].filename,
                        self@.attachments[j].data.len() as u64,
                        j == self.att_focus && self.focus == 6,
                    ),
            decreases self.attachments.len() - i,
        {
            let file = &self.attachments[i];
            assert(self@.attachments[i as int] == file@);
            rows.push(
                draw_attachment(
                    i,
                    file.filename.as_str(),
                    file.data.len() as u64,
                    i == self.att_focus && self.focus == 6,
                ),
            );
            i += 1;
        }
        assert(text::views(rows@) =~= file_lines(self@));
        draw_attachments(area, rows, " d 移除选中附件    ←→ 选择附件", false)
    }

    /// Draws the message in four parts of the terminal.
    pub fn draw_in(&self, parts: &Vec<Area>) -> (r: Vec<Drawn>)
        requires
            compose_wf(self@),
            parts.len() == 4,
        ensures
            text::views(r@) == compose_drawn(self@, parts@),
    {
        let (title, list_mode) = if self.forward {
            (" ➡️ 转发邮件 ", " 转发 ")
        } else if self.reply_all {
            (" ↩️ 回复全部 ", " 回复全部 ")
        } else if self.reply_to.is_some() {
            (" ↩️ 回复邮件 ", " 回复 ")
        } else {
            (" ✉️ 写新邮件 ", " 新邮件 ")
        };
        let mut items: Vec<Item> = Vec::new();
        let mut i: usize = 0;
        while i < self.fields.len()
            invariant
                self.fields.len() == 6,
                i <= self.fields.len(),
                items.len() == i,
                forall|j: int|
                    0 <= j < i ==> (#[trigger] items[j])@ == piece_item(
                        self@.fields[j],
                        j,
                        j == self.focus,
                    ),
            decreases self.fields.len() - i,
        {
            items.push(draw_piece(&self.fields[i], i, i == self.focus));
            i += 1;
        }
        assert(text::views(items@) =~= compose_items(self@));
        let help = draw_keys(
            [" Tab/↑↓ ", " Enter ", " Ctrl+S ", " Esc "],
            ["切换  ", "换行(正文)/添加附件  ", "发送  ", "取消"],
        );
        let mut out: Vec<Drawn> = Vec::new();
        out.push(draw_line(parts[0], line(title, bold(Tint::Cyan))));
        out.push(draw_list(parts[1], items, list_mode));
        out.push(self.draw_files(parts[2]));
        out.push(draw_line(parts[3], help));
        out
    }

    /// The rooms of title, fields, files and help.
    pub fn rooms(&self) -> (r: Vec<Room>)
        ensures
            r@ == compose_rooms(self@),
    {
        let n = self.attachments.len();
        let files: u16 = if n == 0 {
            1
        } else if n < 5 {
            2 + n as u16
        } else {
            7
        };
        let mut rooms: Vec<Room> = Vec::new();
        rooms.push(Room::Length(2));
        rooms.push(Room::Min(1));
        rooms.push(Room::Length(files));
        rooms.push(Room::Length(2));
        assert(rooms@ =~= compose_rooms(self@));
        rooms
    }

    /// Draws the message.
    pub fn draw(&self, area: Area) -> (r: Vec<Drawn>)
        requires
            compose_wf(self@),
        ensures
            exists|parts: Seq<Area>| #[trigger]
                ui::stacked(parts, area, compose_rooms(self@)) && text::views(r@) == compose_drawn(
                    self@,
                    parts,
                ),
            ui::roomy(compose_rooms(self@), area.y, area.height) ==> text::views(r@)
                == compose_drawn(self@, ui::cut_down(area, compose_rooms(self@))),
    {
        let parts = split_down(area, &self.rooms());
        self.draw_in(&parts)
    }
}

} // verus!
