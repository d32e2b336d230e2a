//! The messages of a folder, one of which is chosen.

use vstd::prelude::*;
use vstd::string::*;

use crate::action::{Action, ActionModel};
use crate::columns;
use crate::columns::{pad_left, pad_right, shorten_sender, truncate_cols};
use crate::dates;
use crate::dates::reformat_date;
use crate::flags;
use crate::flags::{has_flag, remove_flag, FlagModel};
use crate::keys::{Key, KeyCode};
use crate::text;
use crate::text::concat;
use crate::types::{duplicate_all, Duplicate, EmailSummary, MailFlag, SummaryModel};
use crate::ui;
use crate::ui::{
    block, bold, draw_hint, draw_menu, ink, item, plain, span, Area, Drawn, DrawnModel, Item,
    ItemModel, Line, LineModel, ListState, Span, Tint,
};
use crate::utils;
use crate::utils::folder_display_name;

verus! {

broadcast use {
    vstd::string::group_string_axioms,
    text::views_push,
    text::views_empty,
};

/// The messages of a folder; `M` is a list of them, `T` text, `I` a list of items.
#[derive(Clone, Debug, PartialEq, Eq)]
pub struct MailList<M = Vec<EmailSummary>, T = String, I = Vec<Item>> {
    pub mails: M,
    pub state: ListState,
    pub current_folder: T,
    /// The items as they were last made.
    pub cached_items: I,
    /// Whether the items are to be made anew.
    pub dirty: bool,
    /// The width for which the items were made.
    pub last_width: u16,
}

/// The model of the messages.
pub type MailsModel = MailList<Seq<SummaryModel>, Seq<char>, Seq<ItemModel>>;

impl View for MailList<Vec<EmailSummary>, String, Vec<Item>> {
    type V = MailsModel;

    open spec fn view(&self) -> MailsModel {
        MailList {
            mails: text::views(self.mails@),
            state: self.state,
            current_folder: self.current_folder@,
            cached_items: text::views(self.cached_items@),
            dirty: self.dirty,
            last_width: self.last_width,
        }
    }
}

/// No messages.
pub open spec fn empty_mails() -> MailsModel {
    MailList {
        mails: seq![],
        state: ListState { offset: 0, selected: Some(0) },
        current_folder: seq![],
        cached_items: seq![],
        dirty: false,
        last_width: 0,
    }
}

/// The list with these messages, of which the first is chosen, if there is one.
pub open spec fn showing(list: MailsModel, mails: Seq<SummaryModel>) -> MailsModel {
    MailList {
        mails,
        state: list.state.choosing(
            if mails.len() == 0 {
                None
            } else {
                Some(0)
            },
        ),
        dirty: true,
        ..list
    }
}

/// The number of the message that is chosen.
pub open spec fn chosen(list: MailsModel) -> Option<int> {
    match list.state.selected {
        Some(i) => if i < list.mails.len() {
            Some(i as int)
        } else {
            None
        },
        None => None,
    }
}

/// The identifier of the message that is chosen.
pub open spec fn chosen_uid(list: MailsModel) -> Option<u32> {
    match chosen(list) {
        Some(i) => Some(list.mails[i].uid),
        None => None,
    }
}

/// The list without the message that is chosen. The one behind it is chosen then; behind the
/// last one, the one before it.
pub open spec fn without_chosen(list: MailsModel) -> MailsModel {
    match chosen(list) {
        None => list,
        Some(i) => {
            let mails = list.mails.remove(i);
            MailList {
                mails,
                state: if mails.len() == 0 {
                    list.state.choosing(None)
                } else if i >= mails.len() {
                    list.state.choosing(Some((mails.len() - 1) as usize))
                } else {
                    list.state
                },
                dirty: true,
                ..list
            }
        },
    }
}

/// The list with these flags on the message `i`.
pub open spec fn with_flags(list: MailsModel, i: int, flags: Seq<FlagModel>) -> MailsModel {
    MailList { mails: list.mails.update(i, EmailSummary { flags, ..list.mails[i] }), ..list }
}

/// The list with the star of the chosen message put on or taken off.
pub open spec fn star_toggled(list: MailsModel) -> MailsModel {
    match chosen(list) {
        None => list,
        Some(i) => MailList {
            dirty: true,
            ..with_flags(list, i, flags::toggled(list.mails[i].flags, MailFlag::Flagged))
        },
    }
}

/// The list with the chosen message marked as seen.
pub open spec fn seen(list: MailsModel) -> MailsModel {
    match chosen(list) {
        None => list,
        Some(i) => if list.mails[i].flags.contains(MailFlag::Seen) {
            list
        } else {
            with_flags(list, i, list.mails[i].flags.push(MailFlag::Seen))
        },
    }
}

/// The list after a key, and what the client is told to do.
pub open spec fn mails_key(list: MailsModel, key: Key) -> (MailsModel, Option<ActionModel>) {
    if key.code == KeyCode::Char('j') || key.code == KeyCode::Down {
        (MailList { state: list.state.below(list.mails.len()), dirty: true, ..list }, None)
    } else if key.code == KeyCode::Char('k') || key.code == KeyCode::Up {
        (MailList { state: list.state.above(), dirty: true, ..list }, None)
    } else if key.code == KeyCode::Enter {
        (
            list,
            if chosen_uid(list) is Some {
                Some(Action::ViewMail)
            } else {
                None
            },
        )
    } else {
        (list, None)
    }
}

/// How many columns the sender takes.
pub const FROM_COLS: usize = 14;

/// How many columns the date takes where it is shown.
pub const DATE_COLS: usize = 10;

/// The least width at which the date is shown.
pub const DATE_WIDTH: u16 = 70;

/// How many columns are left for the subject.
pub open spec fn subject_cols(width: u16) -> nat {
    let taken = FROM_COLS + 4 + if width >= DATE_WIDTH {
        DATE_COLS as int
    } else {
        0
    };
    if width >= taken {
        (width - taken) as nat
    } else {
        0
    }
}

/// The text cut and padded to this many columns.
pub open spec fn cell(s: Seq<char>, cols: nat) -> Seq<char> {
    columns::truncated(s, cols) + columns::filling(columns::truncated(s, cols), cols)
}

fn draw_cell(s: &str, cols: usize) -> (r: String)
    ensures
        r@ == cell(s@, cols as nat),
{
    pad_right(truncate_cols(s, cols).as_str(), cols)
}

/// The mark of a message: a star, a dot where it is not seen, or nothing.
pub open spec fn mark(flags: Seq<FlagModel>) -> Seq<char> {
    if flags.contains(MailFlag::Flagged) {
        "★"@
    } else if flags.contains(MailFlag::Seen) {
        " "@
    } else {
        "●"@
    }
}

/// What stands before the subject: mark, sender, and date where it is shown.
pub open spec fn mail_head(m: SummaryModel, width: u16) -> LineModel {
    let head = seq![
        ui::dyed(mark(m.flags) + " "@, ink(Tint::Yellow)),
        ui::dyed(cell(columns::sender_name(m.from), FROM_COLS as nat), ink(Tint::Cyan)),
    ];
    let date = dates::short_date(m.date);
    if width >= DATE_WIDTH {
        head.push(
            ui::dyed(columns::filling(date, DATE_COLS as nat) + date, ink(Tint::DarkGray)),
        )
    } else {
        head
    }
}

/// The line of a message.
pub open spec fn mail_line(m: SummaryModel, width: u16) -> LineModel {
    mail_head(m, width).push(ui::dyed(" "@, plain())).push(
        ui::dyed(
            cell(m.subject, subject_cols(width)),
            if m.flags.contains(MailFlag::Seen) {
                ink(Tint::DarkGray)
            } else {
                bold(Tint::White)
            },
        ),
    ).push(
        ui::dyed(
            if m.has_attachments {
                " 📎"@
            } else {
                ""@
            },
            plain(),
        ),
    )
}

/// The items of the messages.
pub open spec fn mail_items(mails: Seq<SummaryModel>, width: u16) -> Seq<ItemModel> {
    mails.map_values(|m: SummaryModel| seq![mail_line(m, width)])
}

fn draw_mail(m: &EmailSummary, width: u16) -> (r: Line)
    ensures
        r@ == mail_line(m@, width),
{
    let show_date = width >= DATE_WIDTH;
    let taken: usize = FROM_COLS + 4 + if show_date {
        DATE_COLS
    } else {
        0
    };
    let subj_w: usize = (width as usize).saturating_sub(taken);
    let is_seen = has_flag(&m.flags, &MailFlag::Seen);
    let flag = if has_flag(&m.flags, &MailFlag::Flagged) {
        "★"
    } else if is_seen {
        " "
    } else {
        "●"
    };
    let sender = shorten_sender(m.from.as_str());
    let mut spans: Vec<Span> = Vec::new();
    spans.push(span(concat(flag, " ").as_str(), ink(Tint::Yellow)));
    spans.push(span(draw_cell(sender.as_str(), FROM_COLS).as_str(), ink(Tint::Cyan)));
    if show_date {
        let date = reformat_date(m.date.as_str());
        spans.push(span(pad_left(date.as_str(), DATE_COLS).as_str(), ink(Tint::DarkGray)));
    }
    assert(text::views(spans@) =~= mail_head(m@, width));
    spans.push(span(" ", plain()));
    spans.push(
        span(
            draw_cell(m.subject.as_str(), subj_w).as_str(),
            if is_seen {
                ink(Tint::DarkGray)
            } else {
                bold(Tint::White)
            },
        ),
    );
    spans.push(
        span(
            if m.has_attachments {
                " 📎"
            } else {
                ""
            },
            plain(),
        ),
    );
    Line { spans }
}

/// The items of the messages.
pub fn build_items(mails: &Vec<EmailSummary>, width: u16) -> (r: Vec<Item>)
    ensures
        text::views(r@) == mail_items(text::views(mails@), width),
{
    let mut items: Vec<Item> = Vec::new();
    let mut i: usize = 0;
    while i < mails.len()
        invariant
            i <= mails.len(),
            items.len() == i,
            forall|j: int|
                0 <= j < i ==> (#[trigger] items[j])@ == seq![mail_line(mails[j]@, width)],
        decreases mails.len() - i,
    {
        items.push(item(draw_mail(&mails[i], width)));
        i += 1;
    }
    assert(text::views(items@) =~= mail_items(text::views(mails@), width));
    items
}

/// The list with its items made anew, where that is due for this width.
pub open spec fn refreshed(list: MailsModel, width: u16) -> MailsModel {
    if list.dirty || width != list.last_width {
        MailList {
            cached_items: mail_items(list.mails, width),
            dirty: false,
            last_width: width,
            ..list
        }
    } else {
        list
    }
}

/// The list in an area.
pub open spec fn mails_drawn(list: MailsModel, area: Area) -> Seq<DrawnModel> {
    let menu = ui::menu_in(
        area,
        list.cached_items,
        ui::framed(
            " 📨 "@ + utils::shown_name(utils::utf7_text(list.current_folder)) + " "@,
            ink(Tint::White),
        ),
        list.state,
    );
    if list.mails.len() == 0 {
        seq![menu, ui::hint_in(area.within_margin(), "暂无邮件\n按 Esc 返回文件夹列表"@)]
    } else {
        seq![menu]
    }
}

impl MailList<Vec<EmailSummary>, String, Vec<Item>> {
    /// No messages.
    pub fn new() -> (r: Self)
        ensures
            r@ == empty_mails(),
    {
        let r = MailList {
            mails: Vec::new(),
            state: ListState { offset: 0, selected: Some(0) },
            current_folder: String::new(),
            cached_items: Vec::new(),
            dirty: false,
            last_width: 0,
        };
        assert(r@.mails =~= seq![]);
        assert(r@.cached_items =~= seq![]);
        assert(r@.current_folder =~= seq![]);
        r
    }

    /// Shows these messages.
    pub fn set_mails(&mut self, mails: Vec<EmailSummary>)
        ensures
            final(self)@ == showing(old(self)@, text::views(mails@)),
    {
        self.mails = mails;
        self.state.select(
            if self.mails.len() == 0 {
                None
            } else {
                Some(0)
            },
        );
        self.dirty = true;
    }

    fn selected_index(&self) -> (r: Option<usize>)
        ensures
            match r {
                Some(i) => chosen(self@) == Some(i as int) && i < self.mails.len(),
                None => chosen(self@) is None,
            },
    {
        match self.state.selected {
            Some(i) => if i < self.mails.len() {
                Some(i)
            } else {
                None
            },
            None => None,
        }
    }

    /// The identifier of the message that is chosen.
    pub fn selected_uid(&self) -> (r: Option<u32>)
        ensures
            r == chosen_uid(self@),
    {
        match self.selected_index() {
            Some(i) => {
                assert(self@.mails[i as int] == self.mails[i as int]@);
                Some(self.mails[i].uid)
            },
            None => None,
        }
    }

    /// Takes out the message that is chosen, and gives its identifier.
    pub fn remove_selected(&mut self) -> (r: Option<u32>)
        ensures
            r == chosen_uid(old(self)@),
            final(self)@ == without_chosen(old(self)@),
    {
        match self.selected_index() {
            None => None,
            Some(i) => {
                let ghost before = self@.mails;
                assert(before[i as int] == self.mails[i as int]@);
                let uid: u32 = self.mails[i].uid;
                self.mails.remove(i);
                assert(text::views(self.mails@) =~= before.remove(i as int));
                if self.mails.len() == 0 {
                    self.state.select(None);
                } else if i >= self.mails.len() {
                    let last: usize = self.mails.len() - 1;
                    self.state.select(Some(last));
                }
                self.dirty = true;
                Some(uid)
            },
        }
    }

    fn set_flags(&mut self, i: usize, flags: Vec<MailFlag>)
        requires
            i < old(self).mails.len(),
        ensures
            final(self)@ == with_flags(old(self)@, i as int, text::views(flags@)),
            final(self).mails.len() == old(self).mails.len(),
    {
        let ghost before = self@;
        let mut m = self.mails[i].duplicate();
        m.flags = flags;
        self.mails.set(i, m);
        assert(self@.mails =~= with_flags(before, i as int, text::views(flags@)).mails);
    }

    /// Puts a star on the chosen message, or takes it off. The result says of which message, and
    /// whether it has one now.
    pub fn toggle_flag(&mut self) -> (r: Option<(u32, bool)>)
        ensures
            final(self)@ == star_toggled(old(self)@),
            r == (match chosen(old(self)@) {
                Some(i) => Some(
                    (
                        old(self)@.mails[i].uid,
                        !old(self)@.mails[i].flags.contains(MailFlag::Flagged),
                    ),
                ),
                None => None,
            }),
    {
        match self.selected_index() {
            None => None,
            Some(i) => {
                assert(self@.mails[i as int] == self.mails[i as int]@);
                let uid: u32 = self.mails[i].uid;
                let mut flags = duplicate_all(&self.mails[i].flags);
                let flagged = has_flag(&flags, &MailFlag::Flagged);
                if flagged {
                    remove_flag(&mut flags, &MailFlag::Flagged);
                } else {
                    flags.push(MailFlag::Flagged);
                }
                self.set_flags(i, flags);
                self.dirty = true;
                Some((uid, !flagged))
            },
        }
    }

    /// Marks the chosen message as seen.
    pub fn mark_seen(&mut self)
        ensures
            final(self)@ == seen(old(self)@),
    {
        if let Some(i) = self.selected_index() {
            assert(self@.mails[i as int] == self.mails[i as int]@);
            let mut flags = duplicate_all(&self.mails[i].flags);
            if !has_flag(&flags, &MailFlag::Seen) {
                flags.push(MailFlag::Seen);
                self.set_flags(i, flags);
            }
        }
    }

    /// Takes a key.
    pub fn handle_key_event(&mut self, key: Key) -> (r: Option<Action>)
        ensures
            (final(self)@, text::opt_view(r)) == mails_key(old(self)@, key),
    {
        if key.code == KeyCode::Char('j') || key.code == KeyCode::Down {
            let n = self.mails.len();
            self.state.next(n);
            self.dirty = true;
            None
        } else if key.code == KeyCode::Char('k') || key.code == KeyCode::Up {
            self.state.prev();
            self.dirty = true;
            None
        } else if key.code == KeyCode::Enter {
            if self.selected_uid().is_some() {
                Some(Action::ViewMail)
            } else {
                None
            }
        } else {
            None
        }
    }

    /// Follows the choice of a folder.
    pub fn update(&mut self, action: &Action)
        ensures
            final(self)@ == (match action@ {
                Action::SelectFolder(name) => MailList {
                    current_folder: name,
                    dirty: true,
                    ..old(self)@
                },
                _ => old(self)@,
            }),
    {
        if let Action::SelectFolder(name) = action {
            self.current_folder = name.clone();
            self.dirty = true;
        }
    }

    /// Draws the list, and keeps the items that were made for it.
    pub fn draw(&mut self, area: Area) -> (r: Vec<Drawn>)
        requires
            utils::sound_name(old(self)@.current_folder),
        ensures
            final(self)@ == refreshed(old(self)@, area.within_margin().width),
            text::views(r@) == mails_drawn(final(self)@, area),
    {
        let inner = area.inner();
        if self.dirty || inner.width != self.last_width {
            self.cached_items = build_items(&self.mails, inner.width);
            self.dirty = false;
            self.last_width = inner.width;
        }
        let mut title = concat(
            " 📨 ",
            folder_display_name(self.current_folder.as_str()).as_str(),
        );
        title.append(" ");
        let mut out: Vec<Drawn> = Vec::new();
        out.push(
            draw_menu(
                area,
                duplicate_all(&self.cached_items),
                block(title.as_str(), ink(Tint::White)),
                self.state,
            ),
        );
        if self.mails.len() == 0 {
            out.push(draw_hint(inner, "暂无邮件\n按 Esc 返回文件夹列表"));
        }
        out
    }
}

/// Every line of a list for one width has the same columns up to the mark of attachments, of
/// which the sender and the subject take exactly theirs.
pub proof fn cells_in_columns(m: SummaryModel, width: u16)
    ensures
        columns::width(cell(columns::sender_name(m.from), FROM_COLS as nat)) == FROM_COLS,
        columns::width(cell(m.subject, subject_cols(width))) == subject_cols(width),
{
    columns::cell_width(columns::sender_name(m.from), FROM_COLS as nat);
    columns::cell_width(m.subject, subject_cols(width));
}

/// After a message is taken out another one is chosen, as long as there is one, and the list is
/// one shorter.
pub proof fn taken_out_leaves_chosen(list: MailsModel)
    requires
        chosen(list) is Some,
        list.mails.len() <= usize::MAX,
    ensures
        without_chosen(list).mails.len() == list.mails.len() - 1,
        list.mails.len() > 1 ==> chosen(without_chosen(list)) is Some,
        list.mails.len() == 1 ==> without_chosen(list).state.selected is None,
{
}

/// To toggle the star of a message twice leaves each message with the flags that it had.
pub proof fn star_toggled_twice(list: MailsModel, i: int, flag: FlagModel)
    requires
        0 <= i < list.mails.len(),
    ensures
        star_toggled(star_toggled(list)).mails.len() == list.mails.len(),
        star_toggled(star_toggled(list)).mails[i].uid == list.mails[i].uid,
        star_toggled(star_toggled(list)).mails[i].flags.contains(flag)
            == list.mails[i].flags.contains(flag),
{
    if let Some(k) = chosen(list) {
        flags::toggle_twice(list.mails[k].flags, MailFlag::Flagged, flag);
    }
}

/// To mark a message as seen marks it, and to mark it again changes nothing.
pub proof fn seen_once(list: MailsModel)
    ensures
        chosen(list) matches Some(i) ==> seen(list).mails[i].flags.contains(MailFlag::Seen),
        seen(seen(list)) == seen(list),
{
    if let Some(i) = chosen(list) {
        let f = list.mails[i].flags;
        if !f.contains(MailFlag::Seen) {
            assert(f.push(MailFlag::Seen)[f.len() as int] == MailFlag::<Seq<char>>::Seen);
        }
    }
}

} // verus!
