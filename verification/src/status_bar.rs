//! The status bar: connection, folder, and a message or what the keys do.

use vstd::prelude::*;
use vstd::string::*;

use crate::action::{Action, ActionModel, Mode};
use crate::columns;
use crate::text;
use crate::text::{concat, repeat};
use crate::ui;
use crate::ui::{
    ink, line, plain, span, split_across, split_down, Align, Area, Content, Drawn, DrawnModel, Ink,
    Line, LineModel, Paragraph, Room, Span, Tint,
};
use crate::utils;
use crate::utils::{folder_display_name, is_sound_name};

verus! {

broadcast use {
    vstd::string::group_string_axioms,
    text::views_push,
    text::views_empty,
};

/// The status bar; `T` is text. A moment is a number of milliseconds.
#[derive(Clone, Debug, PartialEq, Eq)]
pub struct StatusBar<T = String> {
    pub connected: bool,
    pub mode: Mode,
    pub current_folder: Option<T>,
    /// A message, and the moment it came.
    pub status_message: Option<(T, u64)>,
}

/// The model of the status bar.
pub type BarModel = StatusBar<Seq<char>>;

impl View for StatusBar<String> {
    type V = BarModel;

    open spec fn view(&self) -> BarModel {
        StatusBar {
            connected: self.connected,
            mode: self.mode,
            current_folder: text::opt_view(self.current_folder),
            status_message: match self.status_message {
                Some((m, at)) => Some((m@, at)),
                None => None,
            },
        }
    }
}

/// The status bar at first.
pub open spec fn empty_bar() -> BarModel {
    StatusBar { connected: false, mode: Mode::Home, current_folder: None, status_message: None }
}

/// The status bar with this message.
pub open spec fn saying(bar: BarModel, message: Seq<char>, now: u64) -> BarModel {
    StatusBar { status_message: Some((message, now)), ..bar }
}

/// The status bar after an action.
#[verifier::opaque]
pub open spec fn informed(bar: BarModel, action: ActionModel, now: u64) -> BarModel {
    match action {
        Action::Connected => StatusBar { connected: true, ..bar },
        Action::Disconnect => StatusBar { connected: false, current_folder: None, ..bar },
        Action::ConnectionFailed(m) => saying(bar, m, now),
        Action::SelectFolder(n) => StatusBar { current_folder: Some(n), ..bar },
        Action::Error(m) => saying(bar, m, now),
        Action::Send => saying(bar, "✓ 邮件已发送"@, now),
        Action::DeleteMail => saying(bar, "✓ 邮件已删除"@, now),
        Action::ToggleFlag => saying(bar, "✓ 已切换星标"@, now),
        Action::ToggleRead => saying(bar, "✓ 已切换已读/未读"@, now),
        _ => bar,
    }
}

/// Whether a message has been shown for more than three whole seconds.
pub open spec fn out_of_date(at: u64, now: u64) -> bool {
    now >= at && (now - at) / 1000 > 3
}

/// The status bar without a message that is out of date.
pub open spec fn up_to_date(bar: BarModel, now: u64) -> BarModel {
    if bar.status_message matches Some((_, at)) && out_of_date(at, now) {
        StatusBar { status_message: None, ..bar }
    } else {
        bar
    }
}

/// What the keys of a view do.
pub open spec fn keys_hint(mode: Mode) -> Seq<char> {
    match mode {
        Mode::Home => "q:退出  ↑↓:选择  Enter:连接  a:添加  d:删除"@,
        Mode::AccountForm => "Tab/↑↓:切换  Enter:确认  Ctrl+S:保存  Esc:取消"@,
        Mode::FolderList => "q:退出  j↓/k↑  Enter:进入  R:刷新"@,
        Mode::MailList => "q:退出  j↓/k↑  Enter:查看  r:回复  d:删除  s:星标"@,
        Mode::MailView => "q:退出  r:回复  d:删除  h:HTML  t:文本  j/k:上下  s:星标"@,
        Mode::Compose => "Ctrl+S:发送  Esc:取消"@,
    }
}

/// The left side: connection and folder.
pub open spec fn left_line(bar: BarModel) -> LineModel {
    let colour = if bar.connected {
        ink(Tint::Green)
    } else {
        ink(Tint::Red)
    };
    seq![
        ui::dyed(
            " "@ + (if bar.connected {
                "●"@
            } else {
                "○"@
            }) + " "@,
            colour,
        ),
        ui::dyed(
            if bar.connected {
                "已连接"@
            } else {
                "未连接"@
            },
            colour,
        ),
        ui::dyed(" | "@, plain()),
        ui::dyed(
            match bar.current_folder {
                Some(n) => utils::shown_name(utils::utf7_text(n)),
                None => "未选择文件夹"@,
            },
            plain(),
        ),
    ]
}

/// The right side: the message, or what the keys do.
pub open spec fn right_line(bar: BarModel) -> LineModel {
    match bar.status_message {
        Some((m, _)) => seq![ui::dyed(" ⓘ "@ + m + " "@, ink(Tint::Yellow))],
        None => seq![ui::dyed(keys_hint(bar.mode), ink(Tint::DarkGray))],
    }
}

/// The line that stands above the bar.
pub open spec fn separator(bottom: Area) -> DrawnModel {
    Drawn::Paragraph(
        Area { x: bottom.x, y: ui::less16(bottom.y, 1), width: bottom.width, height: 1 },
        Paragraph {
            content: Content::Lines(
                seq![seq![ui::dyed(text::repeated('─', bottom.width as nat), plain())]],
            ),
            ink: ink(Tint::DarkGray),
            align: Align::Left,
            block: None,
            wrap: false,
            scroll: 0,
        },
    )
}

/// The bar in the bottom line of the terminal, which is parted in two.
pub open spec fn bar_drawn(bar: BarModel, bottom: Area, sides: Seq<Area>) -> Seq<DrawnModel> {
    seq![
        separator(bottom),
        ui::lines_in(sides[0], seq![left_line(bar)]),
        Drawn::Paragraph(
            sides[1],
            Paragraph {
                content: Content::Lines(seq![right_line(bar)]),
                ink: plain(),
                align: Align::Right,
                block: None,
                wrap: false,
                scroll: 0,
            },
        ),
    ]
}

/// The rooms above the bar and of the bar.
pub open spec fn bar_rooms() -> Seq<Room> {
    seq![Room::Min(0), Room::Length(1)]
}

/// The rooms of the two sides of the bar.
pub open spec fn side_rooms(width: u16) -> Seq<Room> {
    seq![Room::Length(ui::less16(width, HINT_COLUMNS)), Room::Length(HINT_COLUMNS)]
}

/// How many columns the longest hint takes.
pub const HINT_COLUMNS: u16 = 56;

/// How many columns the right side is given: as many as the longest hint takes.
pub fn right_hint_width() -> (r: u16)
    ensures
        r == HINT_COLUMNS,
{
    HINT_COLUMNS
}

/// Whether the name of the folder can be shown.
pub open spec fn folder_sound(bar: BarModel) -> bool {
    bar.current_folder matches Some(n) ==> utils::sound_name(n)
}

fn draw_row(area: Area, ink: Ink, align: Align, own: Line) -> (r: Drawn)
    ensures
        r@ == (Drawn::<ui::ParagraphModel, ui::ListModel>::Paragraph(
            area,
            Paragraph {
                content: Content::Lines(seq![own@]),
                ink,
                align,
                block: None,
                wrap: false,
                scroll: 0,
            },
        )),
{
    let mut lines: Vec<Line> = Vec::new();
    lines.push(own);
    Drawn::Paragraph(
        area,
        Paragraph { content: Content::Lines(lines), ink, align, block: None, wrap: false, scroll: 0 },
    )
}

/// Whether this is the bar at the bottom of an area, in parts that the area can be split into.
pub open spec fn is_bar(bar: BarModel, area: Area, drawn: Seq<DrawnModel>) -> bool {
    exists|rows: Seq<Area>, sides: Seq<Area>|
        #![trigger ui::stacked(rows, area, bar_rooms()), ui::abreast(sides, rows[1], side_rooms(rows[1].width))]
        ui::stacked(rows, area, bar_rooms()) && ui::abreast(
            sides,
            rows[1],
            side_rooms(rows[1].width),
        ) && drawn == bar_drawn(bar, rows[1], sides)
}

/// Whether the bar and both its sides have room in the area.
pub open spec fn bar_has_room(area: Area) -> bool {
    &&& ui::roomy(bar_rooms(), area.y, area.height)
    &&& ui::roomy(side_rooms(area.width), area.x, area.width)
}

/// The bar in the last line of an area that has room for it.
pub open spec fn full_bar(bar: BarModel, area: Area) -> Seq<DrawnModel> {
    let bottom = ui::cut_down(area, bar_rooms())[1];
    bar_drawn(bar, bottom, ui::cut_across(bottom, side_rooms(area.width)))
}

/// Where it has room, there is one way only to draw the bar.
pub proof fn bar_in_full(bar: BarModel, area: Area, drawn: Seq<DrawnModel>)
    requires
        is_bar(bar, area, drawn),
        bar_has_room(area),
    ensures
        drawn == full_bar(bar, area),
{
}

/// A terminal of one line and as many columns as the longest hint takes has room for the bar.
pub proof fn bar_room_enough(area: Area)
    requires
        area.x + area.width <= u16::MAX,
        area.y + area.height <= u16::MAX,
        area.height >= 1,
        area.width >= HINT_COLUMNS,
    ensures
        bar_has_room(area),
        ui::cut_down(area, bar_rooms())[1] == (Area {
            x: area.x,
            y: (area.y + area.height - 1) as u16,
            width: area.width,
            height: 1,
        }),
{
    reveal_with_fuel(ui::asked, 3);
    reveal_with_fuel(ui::given_before, 3);
}

impl StatusBar<String> {
    /// The status bar at first.
    pub fn new() -> (r: Self)
        ensures
            r@ == empty_bar(),
    {
        StatusBar { connected: false, mode: Mode::Home, current_folder: None, status_message: None }
    }

    /// Shows what the keys of this view do.
    pub fn set_mode(&mut self, mode: Mode)
        ensures
            final(self)@ == (StatusBar { mode, ..old(self)@ }),
    {
        self.mode = mode;
    }

    /// Whether the name of the folder can be shown.
    pub fn has_sound_folder(&self) -> (r: bool)
        ensures
            r == folder_sound(self@),
    {
        match &self.current_folder {
            Some(name) => is_sound_name(name.as_str()),
            None => true,
        }
    }

    /// Shows no folder.
    pub fn clear_folder(&mut self)
        ensures
            final(self)@ == (StatusBar { current_folder: None, ..old(self)@ }),
    {
        self.current_folder = None;
    }

    fn set_message(&mut self, msg: String, now: u64)
        ensures
            final(self)@ == saying(old(self)@, msg@, now),
    {
        self.status_message = Some((msg, now));
    }

    /// Follows an action.
    pub fn update(&mut self, action: &Action, now: u64)
        ensures
            final(self)@ == informed(old(self)@, action@, now),
    {
        proof {
            reveal(informed);
        }
        match action {
            Action::Connected => {
                self.connected = true;
            },
            Action::Disconnect => {
                self.connected = false;
                self.current_folder = None;
            },
            Action::ConnectionFailed(m) => {
                self.set_message(m.clone(), now);
            },
            Action::SelectFolder(n) => {
                self.current_folder = Some(n.clone());
            },
            Action::Error(m) => {
                self.set_message(m.clone(), now);
            },
            Action::Send => {
                self.set_message("✓ 邮件已发送".to_owned(), now);
            },
            Action::DeleteMail => {
                self.set_message("✓ 邮件已删除".to_owned(), now);
            },
            Action::ToggleFlag => {
                self.set_message("✓ 已切换星标".to_owned(), now);
            },
            Action::ToggleRead => {
                self.set_message("✓ 已切换已读/未读".to_owned(), now);
            },
            _ => {},
        }
    }

    fn drop_message(&mut self, now: u64)
        ensures
            final(self)@ == up_to_date(old(self)@, now),
    {
        let old_at: Option<u64> = match &self.status_message {
            Some((_, at)) => Some(*at),
            None => None,
        };
        if let Some(at) = old_at {
            if now >= at && (now - at) / 1000 > 3 {
                self.status_message = None;
            }
        }
    }

    fn draw_left(&self) -> (r: Line)
        requires
            folder_sound(self@),
        ensures
            r@ == left_line(self@),
    {
        let (icon, colour, status) = if self.connected {
            (" ● ", ink(Tint::Green), "已连接")
        } else {
            (" ○ ", ink(Tint::Red), "未连接")
        };
        proof {
            reveal_strlit(" ● ");
            reveal_strlit(" ○ ");
            reveal_strlit("●");
            reveal_strlit("○");
            reveal_strlit(" ");
            assert(" ● "@ =~= " "@ + "●"@ + " "@);
            assert(" ○ "@ =~= " "@ + "○"@ + " "@);
        }
        let folder = match &self.current_folder {
            Some(n) => folder_display_name(n.as_str()),
            None => "未选择文件夹".to_owned(),
        };
        let mut spans: Vec<Span> = Vec::new();
        spans.push(span(icon, colour));
        spans.push(span(status, colour));
        spans.push(span(" | ", plain()));
        spans.push(span(folder.as_str(), plain()));
        Line { spans }
    }

    fn draw_right(&self) -> (r: Line)
        ensures
            r@ == right_line(self@),
    {
        match &self.status_message {
            Some((m, _)) => {
                let mut s = concat(" ⓘ ", m.as_str());
                s.append(" ");
                line(s.as_str(), ink(Tint::Yellow))
            },
            None => line(
                match self.mode {
                    Mode::Home => "q:退出  ↑↓:选择  Enter:连接  a:添加  d:删除",
                    Mode::AccountForm => "Tab/↑↓:切换  Enter:确认  Ctrl+S:保存  Esc:取消",
                    Mode::FolderList => "q:退出  j↓/k↑  Enter:进入  R:刷新",
                    Mode::MailList => "q:退出  j↓/k↑  Enter:查看  r:回复  d:删除  s:星标",
                    Mode::MailView => "q:退出  r:回复  d:删除  h:HTML  t:文本  j/k:上下  s:星标",
                    Mode::Compose => "Ctrl+S:发送  Esc:取消",
                },
                ink(Tint::DarkGray),
            ),
        }
    }

    /// Draws the bar in the bottom line of the terminal, which is parted in two.
    pub fn draw_in(&self, bottom: Area, sides: &Vec<Area>) -> (r: Vec<Drawn>)
        requires
            folder_sound(self@),
            sides.len() == 2,
        ensures
            text::views(r@) == bar_drawn(self@, bottom, sides@),
    {
        let above = Area {
            x: bottom.x,
            y: bottom.y.saturating_sub(1),
            width: bottom.width,
            height: 1,
        };
        let dashes = repeat('─', bottom.width as usize);
        let mut out: Vec<Drawn> = Vec::new();
        out.push(
            draw_row(above, ink(Tint::DarkGray), Align::Left, line(dashes.as_str(), plain())),
        );
        out.push(draw_row(sides[0], plain(), Align::Left, self.draw_left()));
        out.push(draw_row(sides[1], plain(), Align::Right, self.draw_right()));
        out
    }

    /// Draws the bar at the bottom of the area, and forgets a message that is out of date.
    pub fn draw(&mut self, area: Area, now: u64) -> (r: Vec<Drawn>)
        requires
            folder_sound(old(self)@),
        ensures
            final(self)@ == up_to_date(old(self)@, now),
            is_bar(final(self)@, area, text::views(r@)),
            bar_has_room(area) ==> text::views(r@) == full_bar(final(self)@, area),
    {
        self.drop_message(now);
        let mut rooms: Vec<Room> = Vec::new();
        rooms.push(Room::Min(0));
        rooms.push(Room::Length(1));
        assert(rooms@ =~= bar_rooms());
        let rows = split_down(area, &rooms);
        let bottom = rows[1];
        let right = right_hint_width();
        let mut halves: Vec<Room> = Vec::new();
        halves.push(Room::Length(bottom.width.saturating_sub(right)));
        halves.push(Room::Length(right));
        assert(halves@ =~= side_rooms(bottom.width));
        let sides = split_across(bottom, &halves);
        self.draw_in(bottom, &sides)
    }
}

#[verifier::spinoff_prover]
#[verifier::rlimit(40)]
proof fn lemma_home_hint()
    ensures
        columns::width("q:退出  ↑↓:选择  Enter:连接  a:添加  d:删除"@) == 43,
{
    reveal_strlit("q:退出  ↑↓:选择  Enter:连接  a:添加  d:删除");
    reveal_with_fuel(columns::width, 34);
}

#[verifier::spinoff_prover]
#[verifier::rlimit(40)]
proof fn lemma_account_form_hint()
    ensures
        columns::width("Tab/↑↓:切换  Enter:确认  Ctrl+S:保存  Esc:取消"@) == 46,
{
    reveal_strlit("Tab/↑↓:切换  Enter:确认  Ctrl+S:保存  Esc:取消");
    reveal_with_fuel(columns::width, 39);
}

#[verifier::spinoff_prover]
#[verifier::rlimit(40)]
proof fn lemma_folder_list_hint()
    ensures
        columns::width("q:退出  j↓/k↑  Enter:进入  R:刷新"@) == 33,
{
    reveal_strlit("q:退出  j↓/k↑  Enter:进入  R:刷新");
    reveal_with_fuel(columns::width, 28);
}

#[verifier::spinoff_prover]
#[verifier::rlimit(40)]
proof fn lemma_mail_list_hint()
    ensures
        columns::width("q:退出  j↓/k↑  Enter:查看  r:回复  d:删除  s:星标"@) == 49,
{
    reveal_strlit("q:退出  j↓/k↑  Enter:查看  r:回复  d:删除  s:星标");
    reveal_with_fuel(columns::width, 40);
}

#[verifier::spinoff_prover]
#[verifier::rlimit(40)]
proof fn lemma_mail_view_hint()
    ensures
        columns::width("q:退出  r:回复  d:删除  h:HTML  t:文本  j/k:上下  s:星标"@) == 56,
{
    reveal_strlit("q:退出  r:回复  d:删除  h:HTML  t:文本  j/k:上下  s:星标");
    reveal_with_fuel(columns::width, 45);
}

#[verifier::spinoff_prover]
#[verifier::rlimit(40)]
proof fn lemma_compose_hint()
    ensures
        columns::width("Ctrl+S:发送  Esc:取消"@) == 21,
{
    reveal_strlit("Ctrl+S:发送  Esc:取消");
    reveal_with_fuel(columns::width, 18);
}

/// The right side has room for the hint of every view, and not more than the longest one needs.
pub proof fn hints_fit(mode: Mode)
    ensures
        columns::width(keys_hint(mode)) <= HINT_COLUMNS,
        columns::width(keys_hint(Mode::MailView)) == HINT_COLUMNS,
{
    lemma_mail_view_hint();
    match mode {
        Mode::Home => lemma_home_hint(),
        Mode::AccountForm => lemma_account_form_hint(),
        Mode::FolderList => lemma_folder_list_hint(),
        Mode::MailList => lemma_mail_list_hint(),
        Mode::MailView => lemma_mail_view_hint(),
        Mode::Compose => lemma_compose_hint(),
    }
}

/// A message stays for less than four seconds, and is gone from then on.
pub proof fn message_shown_for_a_while(bar: BarModel, message: Seq<char>, at: u64, now: u64)
    ensures
        at <= now && now - at < 4000 ==> up_to_date(saying(bar, message, at), now).status_message
            == Some((message, at)),
        now - at >= 4000 ==> up_to_date(saying(bar, message, at), now).status_message is None,
{
}

/// An action does not change the view whose keys are shown.
pub proof fn informed_keeps_mode(bar: BarModel, action: ActionModel, now: u64)
    ensures
        informed(bar, action, now).mode == bar.mode,
{
    reveal(informed);
}

} // verus!
