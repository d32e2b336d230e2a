//! What is drawn on the terminal: areas, coloured text, paragraphs and lists.

use vstd::prelude::*;
use vstd::string::*;

use ratatui::layout::{Constraint, Direction, Layout, Rect};

use crate::number;
use crate::number::{decimal_text, format_size};
use crate::text;
use crate::text::concat;
use crate::types::{duplicate_all, Duplicate};

verus! {

broadcast use {
    vstd::string::group_string_axioms,
    text::views_push,
    text::views_empty,
};

/// A rectangle of the terminal.
#[derive(Clone, Copy, Debug, PartialEq, Eq, Structural)]
pub struct Area {
    pub x: u16,
    pub y: u16,
    pub width: u16,
    pub height: u16,
}

/// How much room a part of an area is given.
#[derive(Clone, Copy, Debug, PartialEq, Eq, Structural)]
pub enum Room {
    /// At least so much.
    Min(u16),
    /// So much.
    Length(u16),
}

/// The sum, but no more than the type holds.
pub open spec fn sum16(a: u16, b: u16) -> u16 {
    if a + b > u16::MAX {
        u16::MAX
    } else {
        (a + b) as u16
    }
}

/// The difference, but no less than zero.
pub open spec fn less16(a: u16, b: u16) -> u16 {
    if a < b {
        0
    } else {
        (a - b) as u16
    }
}

impl Area {
    /// What is left inside a margin of one on every side; nothing where there is no room for it.
    pub open spec fn within_margin(self) -> Area {
        if self.width < 2 || self.height < 2 {
            Area { x: 0, y: 0, width: 0, height: 0 }
        } else {
            Area {
                x: sum16(self.x, 1),
                y: sum16(self.y, 1),
                width: (self.width - 2) as u16,
                height: (self.height - 2) as u16,
            }
        }
    }

    /// What is left inside a margin of one on every side.
    pub fn inner(&self) -> (r: Area)
        ensures
            r == self.within_margin(),
    {
        if self.width < 2 || self.height < 2 {
            Area { x: 0, y: 0, width: 0, height: 0 }
        } else {
            Area {
                x: self.x.saturating_add(1),
                y: self.y.saturating_add(1),
                width: self.width - 2,
                height: self.height - 2,
            }
        }
    }

    /// What is left inside a border on every side.
    pub open spec fn within_border(self) -> Area {
        Area {
            x: if self.width == 0 {
                self.x
            } else {
                sum16(self.x, 1)
            },
            y: if self.height == 0 {
                self.y
            } else {
                sum16(self.y, 1)
            },
            width: less16(self.width, 2),
            height: less16(self.height, 2),
        }
    }

    /// What is left inside a border on every side.
    pub fn bordered(&self) -> (r: Area)
        ensures
            r == self.within_border(),
    {
        Area {
            x: if self.width == 0 {
                self.x
            } else {
                self.x.saturating_add(1)
            },
            y: if self.height == 0 {
                self.y
            } else {
                self.y.saturating_add(1)
            },
            width: self.width.saturating_sub(2),
            height: self.height.saturating_sub(2),
        }
    }
}

/// How much the rooms before the `i`-th one ask for.
pub open spec fn asked(rooms: Seq<Room>, i: int) -> int
    decreases i,
{
    if i <= 0 {
        0
    } else {
        asked(rooms, i - 1) + match rooms[i - 1] {
            Room::Min(n) => n as int,
            Room::Length(n) => n as int,
        }
    }
}

/// Whether all the rooms fit in so much from `start` on, and at most one of them can be given what
/// is left over.
pub open spec fn roomy(rooms: Seq<Room>, start: u16, size: u16) -> bool {
    &&& start + size <= u16::MAX
    &&& asked(rooms, rooms.len() as int) <= size
    &&& forall|i: int, j: int|
        0 <= i < j < rooms.len() ==> !(#[trigger] rooms[i] is Min) || !(#[trigger] rooms[j] is Min)
}

/// How much of it the `i`-th room is given: what it asks for, and what is left over too if it is
/// the one that can be given more.
pub open spec fn given(rooms: Seq<Room>, size: u16, i: int) -> u16 {
    match rooms[i] {
        Room::Min(n) => (n + size - asked(rooms, rooms.len() as int)) as u16,
        Room::Length(n) => n,
    }
}

/// How much the rooms before the `i`-th one are given.
pub open spec fn given_before(rooms: Seq<Room>, size: u16, i: int) -> int
    decreases i,
{
    if i <= 0 {
        0
    } else {
        given_before(rooms, size, i - 1) + given(rooms, size, i - 1)
    }
}

/// The parts of an area in which all the rooms fit, one below the other from its top.
pub open spec fn cut_down(area: Area, rooms: Seq<Room>) -> Seq<Area> {
    Seq::new(
        rooms.len(),
        |i: int|
            Area {
                x: area.x,
                y: (area.y + given_before(rooms, area.height, i)) as u16,
                width: area.width,
                height: given(rooms, area.height, i),
            },
    )
}

/// The parts of an area in which all the rooms fit, side by side from its left.
pub open spec fn cut_across(area: Area, rooms: Seq<Room>) -> Seq<Area> {
    Seq::new(
        rooms.len(),
        |i: int|
            Area {
                x: (area.x + given_before(rooms, area.width, i)) as u16,
                y: area.y,
                width: given(rooms, area.width, i),
                height: area.height,
            },
    )
}

/// Whether these can be the parts of the area that such rooms make, one below the other: one for
/// each room, as broad as the area and within it. Where all the rooms fit, each is given what it
/// asks for.
pub open spec fn stacked(parts: Seq<Area>, area: Area, rooms: Seq<Room>) -> bool {
    &&& parts.len() == rooms.len()
    &&& forall|i: int|
        0 <= i < parts.len() ==> (#[trigger] parts[i]).x == area.x && parts[i].width == area.width
            && area.y <= parts[i].y && parts[i].y + parts[i].height <= sum16(area.y, area.height)
    &&& roomy(rooms, area.y, area.height) ==> parts == cut_down(area, rooms)
}

/// Whether these can be the parts of the area that such rooms make, side by side: one for each
/// room, as high as the area and within it. Where all the rooms fit, each is given what it asks
/// for.
pub open spec fn abreast(parts: Seq<Area>, area: Area, rooms: Seq<Room>) -> bool {
    &&& parts.len() == rooms.len()
    &&& forall|i: int|
        0 <= i < parts.len() ==> (#[trigger] parts[i]).y == area.y && parts[i].height == area.height
            && area.x <= parts[i].x && parts[i].x + parts[i].width <= sum16(area.x, area.width)
    &&& roomy(rooms, area.x, area.width) ==> parts == cut_across(area, rooms)
}

/// `ratatui::layout::Layout::split`: one part of the area for each of the rooms, one below the
/// other or side by side, each as broad, or as high, as the area, and within it. Where all the
/// rooms fit and at most one of them is a least size, each part has the size of its room, and that
/// one has what is left over. Where they do not fit, or more than one can grow, the sizes are the
/// work of a solver that follows the order of a hash table, and are left open.
#[verifier::external_body]
fn split_area(area: Area, rooms: &Vec<Room>, down: bool) -> (r: Vec<Area>)
    ensures
        down ==> stacked(r@, area, rooms@),
        !down ==> abreast(r@, area, rooms@),
{
    let constraint = |m: &Room| match m {
        Room::Min(n) => Constraint::Min(*n),
        Room::Length(n) => Constraint::Length(*n),
    };
    let direction = if down { Direction::Vertical } else { Direction::Horizontal };
    let whole = Rect { x: area.x, y: area.y, width: area.width, height: area.height };
    let parts = Layout::new(direction, rooms.iter().map(constraint)).split(whole);
    parts.iter().map(|p| Area { x: p.x, y: p.y, width: p.width, height: p.height }).collect()
}

/// Parts of the area, one below the other.
pub fn split_down(area: Area, rooms: &Vec<Room>) -> (r: Vec<Area>)
    ensures
        stacked(r@, area, rooms@),
{
    split_area(area, rooms, true)
}

/// Parts of the area, side by side.
pub fn split_across(area: Area, rooms: &Vec<Room>) -> (r: Vec<Area>)
    ensures
        abreast(r@, area, rooms@),
{
    split_area(area, rooms, false)
}

/// A colour.
#[derive(Clone, Copy, Debug, PartialEq, Eq, Structural)]
pub enum Tint {
    Black,
    White,
    Cyan,
    DarkGray,
    Yellow,
    Green,
    Red,
}

/// How text is coloured.
#[derive(Clone, Copy, Debug, PartialEq, Eq, Structural)]
pub struct Ink {
    pub fg: Option<Tint>,
    pub bg: Option<Tint>,
    pub bold: bool,
}

/// No colour.
#[verifier::allow_in_spec]
pub fn plain() -> Ink
    returns
        (Ink { fg: None, bg: None, bold: false }),
{
    Ink { fg: None, bg: None, bold: false }
}

/// This colour.
#[verifier::allow_in_spec]
pub fn ink(fg: Tint) -> Ink
    returns
        (Ink { fg: Some(fg), bg: None, bold: false }),
{
    Ink { fg: Some(fg), bg: None, bold: false }
}

/// This colour, bold.
#[verifier::allow_in_spec]
pub fn bold(fg: Tint) -> Ink
    returns
        (Ink { fg: Some(fg), bg: None, bold: true }),
{
    Ink { fg: Some(fg), bg: None, bold: true }
}

/// This colour on that one.
#[verifier::allow_in_spec]
pub fn ink_on(fg: Tint, bg: Tint) -> Ink
    returns
        (Ink { fg: Some(fg), bg: Some(bg), bold: false }),
{
    Ink { fg: Some(fg), bg: Some(bg), bold: false }
}

/// Text in one colour; `T` is text.
#[derive(Clone, Debug, PartialEq, Eq)]
pub struct Span<T = String> {
    pub text: T,
    pub ink: Ink,
}

/// The model of text in one colour.
pub type SpanModel = Span<Seq<char>>;

impl View for Span<String> {
    type V = SpanModel;

    open spec fn view(&self) -> SpanModel {
        Span { text: self.text@, ink: self.ink }
    }
}

impl Duplicate for Span<String> {
    fn duplicate(&self) -> (r: Self) {
        Span { text: self.text.clone(), ink: self.ink }
    }
}

/// Text in one colour.
pub open spec fn dyed(text: Seq<char>, ink: Ink) -> SpanModel {
    Span { text, ink }
}

/// Text in one colour.
pub fn span(text: &str, ink: Ink) -> (r: Span)
    ensures
        r@ == dyed(text@, ink),
{
    Span { text: text.to_owned(), ink }
}

/// A line of text.
#[derive(Clone, Debug, PartialEq, Eq)]
pub struct Line {
    pub spans: Vec<Span>,
}

/// The model of a line.
pub type LineModel = Seq<SpanModel>;

impl View for Line {
    type V = LineModel;

    open spec fn view(&self) -> LineModel {
        text::views(self.spans@)
    }
}

impl Duplicate for Line {
    fn duplicate(&self) -> (r: Self) {
        Line { spans: duplicate_all(&self.spans) }
    }
}

/// A line in one colour.
pub fn line(text: &str, ink: Ink) -> (r: Line)
    ensures
        r@ == seq![dyed(text@, ink)],
{
    let mut spans: Vec<Span> = Vec::new();
    spans.push(span(text, ink));
    Line { spans }
}

/// A line of three pieces of text.
pub fn line_of(a: Span, b: Span, c: Span) -> (r: Line)
    ensures
        r@ == seq![a@, b@, c@],
{
    let mut spans: Vec<Span> = Vec::new();
    spans.push(a);
    spans.push(b);
    spans.push(c);
    Line { spans }
}

/// An item of a list: some lines.
#[derive(Clone, Debug, PartialEq, Eq)]
pub struct Item {
    pub lines: Vec<Line>,
}

/// The model of an item.
pub type ItemModel = Seq<LineModel>;

impl View for Item {
    type V = ItemModel;

    open spec fn view(&self) -> ItemModel {
        text::views(self.lines@)
    }
}

impl Duplicate for Item {
    fn duplicate(&self) -> (r: Self) {
        Item { lines: duplicate_all(&self.lines) }
    }
}

/// An item of one line.
pub fn item(line: Line) -> (r: Item)
    ensures
        r@ == seq![line@],
{
    let mut lines: Vec<Line> = Vec::new();
    lines.push(line);
    Item { lines }
}

/// A border on every side with a title; `T` is text.
#[derive(Clone, Debug, PartialEq, Eq)]
pub struct Block<T = String> {
    pub title: T,
    pub ink: Ink,
}

/// The model of a border.
pub type BlockModel = Block<Seq<char>>;

impl View for Block<String> {
    type V = BlockModel;

    open spec fn view(&self) -> BlockModel {
        Block { title: self.title@, ink: self.ink }
    }
}

/// A border on every side with a title.
pub open spec fn framed(title: Seq<char>, ink: Ink) -> BlockModel {
    Block { title, ink }
}

/// A border on every side with a title.
pub fn block(title: &str, ink: Ink) -> (r: Block)
    ensures
        r@ == framed(title@, ink),
{
    Block { title: title.to_owned(), ink }
}

/// Where text stands in its lines.
#[derive(Clone, Copy, Debug, PartialEq, Eq, Structural)]
pub enum Align {
    Left,
    Center,
    Right,
}

/// What a paragraph holds: text in which a line feed ends a line, or lines. `T` is text, `L` a
/// list of lines.
#[derive(Clone, Debug, PartialEq, Eq)]
pub enum Content<T = String, L = Vec<Line>> {
    Text(T),
    Lines(L),
}

/// The model of what a paragraph holds.
pub type ContentModel = Content<Seq<char>, Seq<LineModel>>;

impl View for Content<String, Vec<Line>> {
    type V = ContentModel;

    open spec fn view(&self) -> ContentModel {
        match *self {
            Content::Text(t) => Content::Text(t@),
            Content::Lines(l) => Content::Lines(text::views(l@)),
        }
    }
}

/// Which item of a list is chosen, and the first one that is shown.
#[derive(Clone, Copy, Debug, PartialEq, Eq, Structural)]
pub struct ListState {
    pub offset: usize,
    pub selected: Option<usize>,
}

impl ListState {
    /// The state in which this item is chosen; where none is, the list is shown from its start.
    pub open spec fn choosing(self, index: Option<usize>) -> ListState {
        ListState {
            offset: if index is None {
                0
            } else {
                self.offset
            },
            selected: index,
        }
    }

    /// Chooses this item; where none is, the list is shown from its start.
    pub fn select(&mut self, index: Option<usize>)
        ensures
            *final(self) == old(self).choosing(index),
    {
        self.selected = index;
        if index.is_none() {
            self.offset = 0;
        }
    }

    /// The next item of so many; the first where none was chosen.
    pub open spec fn below(self, len: nat) -> ListState {
        self.choosing(
            Some(
                match self.selected {
                    Some(i) => if i + 1 < len {
                        (i + 1) as usize
                    } else if len == 0 {
                        0
                    } else {
                        (len - 1) as usize
                    },
                    None => 0,
                },
            ),
        )
    }

    /// Chooses the next item of so many.
    pub fn next(&mut self, len: usize)
        ensures
            *final(self) == old(self).below(len as nat),
    {
        let i: usize = match self.selected {
            Some(i) => if len == 0 {
                0
            } else if i < len - 1 {
                i + 1
            } else {
                len - 1
            },
            None => 0,
        };
        self.select(Some(i));
    }

    /// The item before; the first where none was chosen.
    pub open spec fn above(self) -> ListState {
        self.choosing(
            Some(
                match self.selected {
                    Some(i) => if i == 0 {
                        0
                    } else {
                        (i - 1) as usize
                    },
                    None => 0,
                },
            ),
        )
    }

    /// Chooses the item before.
    pub fn prev(&mut self)
        ensures
            *final(self) == old(self).above(),
    {
        let i: usize = match self.selected {
            Some(i) => if i == 0 {
                0
            } else {
                i - 1
            },
            None => 0,
        };
        self.select(Some(i));
    }
}

/// Going down and up stays within the list.
pub proof fn moves_stay_inside(state: ListState, len: nat)
    requires
        len > 0,
        state.selected matches Some(i) ==> i < len,
    ensures
        state.below(len).selected matches Some(i) && i < len,
        state.above().selected matches Some(i) && i < len,
{
}

/// To go up after going down comes back, but from the last item, and from none.
pub proof fn up_undoes_down(state: ListState, len: nat)
    requires
        state.selected matches Some(i) && i + 1 < len,
        len <= usize::MAX,
    ensures
        state.below(len).above() == state,
{
}

/// A paragraph; `T` is text, `L` a list of lines.
#[derive(Clone, Debug, PartialEq, Eq)]
pub struct Paragraph<T = String, L = Vec<Line>> {
    pub content: Content<T, L>,
    pub ink: Ink,
    pub align: Align,
    pub block: Option<Block<T>>,
    /// Whether long lines are broken.
    pub wrap: bool,
    /// How many lines are scrolled out at the top.
    pub scroll: u16,
}

/// The model of a paragraph.
pub type ParagraphModel = Paragraph<Seq<char>, Seq<LineModel>>;

impl View for Paragraph<String, Vec<Line>> {
    type V = ParagraphModel;

    open spec fn view(&self) -> ParagraphModel {
        Paragraph {
            content: self.content@,
            ink: self.ink,
            align: self.align,
            block: text::opt_view(self.block),
            wrap: self.wrap,
            scroll: self.scroll,
        }
    }
}

/// How the chosen item of a list is shown; `T` is text.
#[derive(Clone, Debug, PartialEq, Eq)]
pub struct Highlight<T = String> {
    pub ink: Ink,
    pub symbol: T,
    pub state: ListState,
}

/// A list in a border; `T` is text, `I` a list of items.
#[derive(Clone, Debug, PartialEq, Eq)]
pub struct List<T = String, I = Vec<Item>> {
    pub items: I,
    pub block: Block<T>,
    pub highlight: Option<Highlight<T>>,
}

/// The model of a list.
pub type ListModel = List<Seq<char>, Seq<ItemModel>>;

impl View for List<String, Vec<Item>> {
    type V = ListModel;

    open spec fn view(&self) -> ListModel {
        List {
            items: text::views(self.items@),
            block: self.block@,
            highlight: match self.highlight {
                Some(h) => Some(Highlight { ink: h.ink, symbol: h.symbol@, state: h.state }),
                None => None,
            },
        }
    }
}

/// Something that is drawn in an area; `P` is a paragraph, `L` a list.
#[derive(Clone, Debug, PartialEq, Eq)]
pub enum Drawn<P = Paragraph, L = List> {
    Paragraph(Area, P),
    List(Area, L),
}

/// The model of something that is drawn.
pub type DrawnModel = Drawn<ParagraphModel, ListModel>;

impl View for Drawn<Paragraph, List> {
    type V = DrawnModel;

    open spec fn view(&self) -> DrawnModel {
        match *self {
            Drawn::Paragraph(a, p) => Drawn::Paragraph(a, p@),
            Drawn::List(a, l) => Drawn::List(a, l@),
        }
    }
}

/// Lines that stand as they are.
pub open spec fn lines_in(area: Area, lines: Seq<LineModel>) -> DrawnModel {
    Drawn::Paragraph(
        area,
        Paragraph {
            content: Content::Lines(lines),
            ink: plain(),
            align: Align::Left,
            block: None,
            wrap: false,
            scroll: 0,
        },
    )
}

/// Lines that stand as they are.
pub fn draw_lines(area: Area, lines: Vec<Line>) -> (r: Drawn)
    ensures
        r@ == lines_in(area, text::views(lines@)),
{
    Drawn::Paragraph(
        area,
        Paragraph {
            content: Content::Lines(lines),
            ink: plain(),
            align: Align::Left,
            block: None,
            wrap: false,
            scroll: 0,
        },
    )
}

/// One line that stands as it is.
pub fn draw_line(area: Area, line: Line) -> (r: Drawn)
    ensures
        r@ == lines_in(area, seq![line@]),
{
    let mut lines: Vec<Line> = Vec::new();
    lines.push(line);
    draw_lines(area, lines)
}

/// A hint in the middle of an area.
pub open spec fn hint_in(area: Area, text: Seq<char>) -> DrawnModel {
    Drawn::Paragraph(
        area,
        Paragraph {
            content: Content::Text(text),
            ink: ink(Tint::DarkGray),
            align: Align::Center,
            block: None,
            wrap: false,
            scroll: 0,
        },
    )
}

/// A hint in the middle of an area.
pub fn draw_hint(area: Area, text: &str) -> (r: Drawn)
    ensures
        r@ == hint_in(area, text@),
{
    Drawn::Paragraph(
        area,
        Paragraph {
            content: Content::Text(text.to_owned()),
            ink: ink(Tint::DarkGray),
            align: Align::Center,
            block: None,
            wrap: false,
            scroll: 0,
        },
    )
}

/// A list in which no item can be chosen.
pub open spec fn list_in(area: Area, items: Seq<ItemModel>, title: Seq<char>) -> DrawnModel {
    Drawn::List(area, List { items, block: framed(title, plain()), highlight: None })
}

/// A list in which no item can be chosen.
pub fn draw_list(area: Area, items: Vec<Item>, title: &str) -> (r: Drawn)
    ensures
        r@ == list_in(area, text::views(items@), title@),
{
    Drawn::List(area, List { items, block: block(title, plain()), highlight: None })
}

/// A list in which an item is chosen.
pub open spec fn menu_in(
    area: Area,
    items: Seq<ItemModel>,
    frame: BlockModel,
    state: ListState,
) -> DrawnModel {
    Drawn::List(
        area,
        List {
            items,
            block: frame,
            highlight: Some(
                Highlight {
                    ink: Ink { fg: Some(Tint::Black), bg: Some(Tint::Cyan), bold: true },
                    symbol: "▸ "@,
                    state,
                },
            ),
        },
    )
}

/// A list in which an item is chosen.
pub fn draw_menu(area: Area, items: Vec<Item>, frame: Block, state: ListState) -> (r: Drawn)
    ensures
        r@ == menu_in(area, text::views(items@), frame@, state),
{
    Drawn::List(
        area,
        List {
            items,
            block: frame,
            highlight: Some(
                Highlight {
                    ink: Ink { fg: Some(Tint::Black), bg: Some(Tint::Cyan), bold: true },
                    symbol: "▸ ".to_owned(),
                    state,
                },
            ),
        },
    )
}

/// The line of an attachment in a list: its number, name and size.
pub open spec fn attachment_line(i: int, name: Seq<char>, size: u64, chosen: bool) -> LineModel {
    seq![
        dyed(
            (if chosen {
                "▶ "@
            } else {
                "  "@
            }) + "["@ + number::decimal(i as nat) + "] "@ + name + "  ("@ + number::size_text(
                size as nat,
            ) + ")"@,
            if chosen {
                ink(Tint::Yellow)
            } else {
                ink(Tint::White)
            },
        ),
    ]
}

/// The line of an attachment in a list.
pub fn draw_attachment(i: usize, name: &str, size: u64, chosen: bool) -> (r: Line)
    ensures
        r@ == attachment_line(i as int, name@, size, chosen),
{
    let mut s = concat(
        if chosen {
            "▶ "
        } else {
            "  "
        },
        "[",
    );
    s.append(decimal_text(i as u64).as_str());
    s.append("] ");
    s.append(name);
    s.append("  (");
    s.append(format_size(size).as_str());
    s.append(")");
    line(
        s.as_str(),
        if chosen {
            ink(Tint::Yellow)
        } else {
            ink(Tint::White)
        },
    )
}

/// A list of attachments with a hint below it, in a border.
pub open spec fn attachments_in(
    area: Area,
    rows: Seq<LineModel>,
    hint: Seq<char>,
    wrap: bool,
) -> DrawnModel {
    Drawn::Paragraph(
        area,
        Paragraph {
            content: Content::Lines(
                rows.push(seq![]).push(seq![dyed(hint, ink(Tint::DarkGray))]),
            ),
            ink: plain(),
            align: Align::Left,
            block: Some(framed(" 📎 附件 "@, plain())),
            wrap,
            scroll: 0,
        },
    )
}

/// A list of attachments with a hint below it, in a border.
pub fn draw_attachments(area: Area, rows: Vec<Line>, hint: &str, wrap: bool) -> (r: Drawn)
    ensures
        r@ == attachments_in(area, text::views(rows@), hint@, wrap),
{
    let mut lines = rows;
    lines.push(Line { spans: Vec::new() });
    lines.push(line(hint, ink(Tint::DarkGray)));
    Drawn::Paragraph(
        area,
        Paragraph {
            content: Content::Lines(lines),
            ink: plain(),
            align: Align::Left,
            block: Some(block(" 📎 附件 ", plain())),
            wrap,
            scroll: 0,
        },
    )
}

} // verus!
