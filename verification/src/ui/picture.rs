//! The parts of a picture: areas, styled texts and the items that stand on the screen.
use ratatui::layout::{Constraint, Direction, Flex, Layout, Rect};
use vstd::prelude::*;
use vstd::string::*;

use crate::theme::Style;

verus! {

/// A rectangle of cells.
#[derive(Debug, Clone, Copy, PartialEq, Eq, Structural)]
pub struct Area {
    pub x: u16,
    pub y: u16,
    pub width: u16,
    pub height: u16,
}

/// `a - b`, or zero.
pub open spec fn less(a: int, b: int) -> int {
    if a >= b {
        a - b
    } else {
        0
    }
}

/// The smaller of two numbers.
pub open spec fn smaller(a: int, b: int) -> int {
    if a <= b {
        a
    } else {
        b
    }
}

/// What is inside a border one cell wide. Positions do not pass the largest `u16`.
pub open spec fn inside(area: Area) -> Area {
    let right = smaller(area.x + area.width, u16::MAX as int);
    let bottom = smaller(area.y + area.height, u16::MAX as int);
    Area {
        x: smaller(smaller(area.x + 1, u16::MAX as int), right) as u16,
        y: smaller(smaller(area.y + 1, u16::MAX as int), bottom) as u16,
        width: less(area.width as int, 2) as u16,
        height: less(area.height as int, 2) as u16,
    }
}

impl Area {
    /// What is inside a border round the area.
    pub fn inner(self) -> (r: Area)
        ensures
            r == inside(self),
    {
        let right = self.x.saturating_add(self.width);
        let bottom = self.y.saturating_add(self.height);
        let x = self.x.saturating_add(1);
        let y = self.y.saturating_add(1);
        Area {
            x: if x <= right {
                x
            } else {
                right
            },
            y: if y <= bottom {
                y
            } else {
                bottom
            },
            width: self.width.saturating_sub(2),
            height: self.height.saturating_sub(2),
        }
    }
}

/// A piece of text in one style.
#[derive(Debug, PartialEq, Eq)]
pub struct Segment {
    pub text: String,
    pub style: Style,
}

/// Mathematical model of [`Segment`].
#[verifier::ext_equal]
pub struct SegmentView {
    pub text: Seq<char>,
    pub style: Style,
}

impl View for Segment {
    type V = SegmentView;

    open spec fn view(&self) -> SegmentView {
        SegmentView { text: self.text@, style: self.style }
    }
}

/// A line of text: segments side by side.
#[derive(Debug, PartialEq, Eq)]
pub struct TextLine {
    pub segments: Vec<Segment>,
}

/// The model of a line.
pub type LineView = Seq<SegmentView>;

impl View for TextLine {
    type V = LineView;

    open spec fn view(&self) -> LineView {
        self.segments@.map_values(|s: Segment| s@)
    }
}

pub open spec fn line_views(lines: Seq<TextLine>) -> Seq<LineView> {
    lines.map_values(|l: TextLine| l@)
}

/// A segment of a model line.
pub open spec fn seg(text: Seq<char>, style: Style) -> SegmentView {
    SegmentView { text, style }
}

impl TextLine {
    /// An empty line.
    pub fn new() -> (r: Self)
        ensures
            r@ == Seq::<SegmentView>::empty(),
    {
        let r = TextLine { segments: Vec::new() };
        assert(r@ =~= Seq::<SegmentView>::empty());
        r
    }

    /// Appends a text.
    pub fn text(self, text: &str, style: Style) -> (r: Self)
        ensures
            r@ == self@.push(seg(text@, style)),
    {
        self.string(text.to_owned(), style)
    }

    /// Appends a text.
    pub fn string(self, text: String, style: Style) -> (r: Self)
        ensures
            r@ == self@.push(seg(text@, style)),
    {
        let mut segments = self.segments;
        segments.push(Segment { text, style });
        let r = TextLine { segments };
        assert(r@ =~= self@.push(seg(text@, style)));
        r
    }
}

/// Something on the screen.
#[derive(Debug, PartialEq, Eq)]
pub enum Item {
    /// A rounded border with a title on the left and one on the right.
    Frame { area: Area, border: Style, left: TextLine, right: TextLine },
    /// Lines of text, from line `scroll` on.
    Lines { area: Area, lines: Vec<TextLine>, scroll: u16 },
    /// The progress bar of so many cells with the counts behind it, and lines of text below.
    Bar { area: Area, cells: usize, counts: Segment, below: Vec<TextLine> },
    /// A list with one row highlighted.
    Rows { area: Area, lines: Vec<TextLine>, selected: Option<usize>, highlight: Style },
    /// An area wiped clean.
    Blank { area: Area },
    /// A text wrapped at word ends.
    Wrapped { area: Area, content: Segment },
}

/// Mathematical model of [`Item`].
pub enum ItemView {
    Frame { area: Area, border: Style, left: LineView, right: LineView },
    Lines { area: Area, lines: Seq<LineView>, scroll: nat },
    Bar { area: Area, cells: nat, counts: SegmentView, below: Seq<LineView> },
    Rows { area: Area, lines: Seq<LineView>, selected: Option<nat>, highlight: Style },
    Blank { area: Area },
    Wrapped { area: Area, content: SegmentView },
}

impl View for Item {
    type V = ItemView;

    open spec fn view(&self) -> ItemView {
        match *self {
            Item::Frame { area, border, left, right } => ItemView::Frame {
                area,
                border,
                left: left@,
                right: right@,
            },
            Item::Lines { area, lines, scroll } => ItemView::Lines {
                area,
                lines: line_views(lines@),
                scroll: scroll as nat,
            },
            Item::Bar { area, cells, counts, below } => ItemView::Bar {
                area,
                cells: cells as nat,
                counts: counts@,
                below: line_views(below@),
            },
            Item::Rows { area, lines, selected, highlight } => ItemView::Rows {
                area,
                lines: line_views(lines@),
                selected: match selected {
                    Some(i) => Some(i as nat),
                    None => None,
                },
                highlight,
            },
            Item::Blank { area } => ItemView::Blank { area },
            Item::Wrapped { area, content } => ItemView::Wrapped { area, content: content@ },
        }
    }
}

/// The model of a picture: its items, the later ones on top.
pub open spec fn items(v: Seq<Item>) -> Seq<ItemView> {
    v.map_values(|i: Item| i@)
}

/// A vector of one line.
pub fn one_line(line: TextLine) -> (r: Vec<TextLine>)
    ensures
        line_views(r@) == seq![line@],
{
    let mut r: Vec<TextLine> = Vec::new();
    r.push(line);
    assert(line_views(r@) =~= seq![line@]);
    r
}

/// Appends an item to a picture.
pub fn put(picture: &mut Vec<Item>, item: Item)
    ensures
        items(final(picture)@) == items(old(picture)@).push(item@),
{
    picture.push(item);
    assert(items(picture@) =~= items(old(picture)@).push(item@));
}

/// How much of a split area a part gets.
#[derive(Debug, Clone, Copy, PartialEq, Eq, Structural)]
pub enum Size {
    Cells(u16),
    AtLeast(u16),
    Percent(u16),
}

/// Which way an area is split.
#[derive(Debug, Clone, Copy, PartialEq, Eq, Structural)]
pub enum Split {
    /// From top to bottom.
    Rows,
    /// From left to right.
    Columns,
}

/// Where the parts of a split area stand.
#[derive(Debug, Clone, Copy, PartialEq, Eq, Structural)]
pub enum Place {
    Start,
    Center,
}

/// The cells from `start` on, up to `length` of them, that do not pass the largest `u16`.
pub open spec fn room_from(start: u16, length: u16) -> int {
    smaller(length as int, u16::MAX - start)
}

/// What is left on either side of one part of this size in the middle of `room` cells, in
/// hundredths of a cell. A part gets no more than there is, and `AtLeast` takes it all.
pub open spec fn margin(size: Size, room: int) -> int {
    match size {
        Size::Cells(n) => 50 * less(room, n as int),
        Size::AtLeast(_) => 0,
        Size::Percent(p) => less(100, p as int) * room / 2,
    }
}

/// The margin is a whole number of hundredths in any room.
pub open spec fn even_margin(size: Size) -> bool {
    size matches Size::Percent(p) ==> p % 2 == 0
}

/// Hundredths of a cell, rounded to cells.
pub open spec fn rounded(hundredths: int) -> int {
    (hundredths + 50) / 100
}

/// Start and length of one part of this size in the middle of a stretch of cells: both of its
/// ends are rounded to cells.
pub open spec fn centered(size: Size, start: u16, length: u16) -> (int, int) {
    let room = room_from(start, length);
    let first = rounded(margin(size, room));
    let end = rounded(100 * room - margin(size, room));
    (start + first, end - first)
}

/// The part of `area` in its middle that is this large each way.
pub open spec fn middle_of(area: Area, height: Size, width: Size) -> Area {
    let (x, columns) = centered(width, area.x, area.width);
    let (y, rows) = centered(height, area.y, area.height);
    Area { x: x as u16, y: y as u16, width: columns as u16, height: rows as u16 }
}

/// Start and length of an area along a split.
pub open spec fn along(area: Area, split: Split) -> (u16, u16) {
    match split {
        Split::Rows => (area.y, area.height),
        Split::Columns => (area.x, area.width),
    }
}

/// Start and length of an area across a split.
pub open spec fn across(area: Area, split: Split) -> (u16, u16) {
    match split {
        Split::Rows => (area.x, area.width),
        Split::Columns => (area.y, area.height),
    }
}

/// The end of an area along a split.
pub open spec fn end_of(area: Area, split: Split) -> int {
    along(area, split).0 + along(area, split).1
}

/// None of the sizes is a percentage.
pub open spec fn in_cells(sizes: Seq<Size>) -> bool {
    forall|i: int| 0 <= i < sizes.len() ==> !(#[trigger] sizes[i] is Percent)
}

/// The cells that the first `k` sizes ask for, those in cells only.
pub open spec fn asked(sizes: Seq<Size>, k: int) -> int
    decreases k,
{
    if k <= 0 {
        0
    } else {
        asked(sizes, k - 1) + match sizes[k - 1] {
            Size::Cells(n) => n as int,
            Size::AtLeast(n) => n as int,
            Size::Percent(_) => 0,
        }
    }
}

/// Sizes in cells that `room` cells are enough for, with at most one that takes more than it
/// asks for.
pub open spec fn fit_in(sizes: Seq<Size>, room: int) -> bool {
    &&& in_cells(sizes)
    &&& asked(sizes, sizes.len() as int) <= room
    &&& forall|i: int, j: int|
        0 <= i < j < sizes.len() ==> !(#[trigger] sizes[i] is AtLeast
            && #[trigger] sizes[j] is AtLeast)
}

/// No size but that at `i` takes more than it asks for.
pub open spec fn only_growing(sizes: Seq<Size>, i: int) -> bool {
    forall|j: int| 0 <= j < sizes.len() && j != i ==> !(#[trigger] sizes[j] is AtLeast)
}

/// What a size gets of `room` cells that all the sizes fit in: what it asks for, and `AtLeast`
/// what the others leave.
pub open spec fn share(sizes: Seq<Size>, room: int, i: int) -> int {
    match sizes[i] {
        Size::Cells(n) => n as int,
        Size::AtLeast(n) => n + room - asked(sizes, sizes.len() as int),
        Size::Percent(_) => 0,
    }
}

/// What the first `k` sizes get together.
pub open spec fn shares(sizes: Seq<Size>, room: int, k: int) -> int
    decreases k,
{
    if k <= 0 {
        0
    } else {
        shares(sizes, room, k - 1) + share(sizes, room, k - 1)
    }
}

/// `n`, or the nearest number from `low` to `high`.
pub open spec fn between(n: int, low: int, high: int) -> int {
    if n > high {
        high
    } else if n < low {
        low
    } else {
        n
    }
}

/// How sizes in cells that ask for more than `room` share it, where it is known. Two share it
/// evenly, as far as neither gets more than it asks for. Of four with the third in `AtLeast` and
/// the last no larger, the second gives way to the others as long as it stays the largest; if it
/// asks for nothing, the first gives way.
pub open spec fn squeezed(sizes: Seq<Size>, room: int) -> Option<Seq<int>> {
    if sizes.len() == 2 {
        match (sizes[0], sizes[1]) {
            (Size::Cells(a), Size::Cells(b)) => {
                let first = between(rounded(50 * room), room - b, a as int);
                Some(seq![first, room - first])
            },
            _ => None,
        }
    } else if sizes.len() == 4 {
        match (sizes[0], sizes[1], sizes[2], sizes[3]) {
            (Size::Cells(a), Size::Cells(b), Size::AtLeast(n), Size::Cells(last)) => if last > n
                || n > i16::MAX {
                None
            } else if room >= a + n + last + a && room >= a + n + last + n {
                Some(seq![a as int, room - a - n - last, n as int, last as int])
            } else if b == 0 && room >= n + last {
                Some(seq![room - n - last, 0, n as int, last as int])
            } else {
                None
            },
            _ => None,
        }
    } else {
        None
    }
}

/// The first `k` sizes together, as a percentage.
pub open spec fn percentage(sizes: Seq<Size>, k: int) -> int
    decreases k,
{
    if k <= 0 {
        0
    } else {
        percentage(sizes, k - 1) + match sizes[k - 1] {
            Size::Percent(p) => p as int,
            _ => 0,
        }
    }
}

/// The sizes are percentages of no more than the whole.
pub open spec fn in_percent(sizes: Seq<Size>) -> bool {
    &&& forall|i: int| 0 <= i < sizes.len() ==> #[trigger] sizes[i] is Percent
    &&& percentage(sizes, sizes.len() as int) <= 100
}

/// Splits an area with `ratatui::layout::Layout::split`, one part for each size. Across the
/// split each part is as long as the area. Along it, no other lengths meet what the solver is
/// asked for as well as these do:
/// - A single centered part has its size, as far as there is room, and the same margin on both
///   sides before its ends are rounded. An odd percentage can leave half a hundredth of a cell,
///   and which way that is rounded is not said.
/// - From the start, sizes in cells that fit get what they ask for, and percentages end where
///   their sum does, rounded.
/// - From the start, up to four sizes in cells that do not fit still stand one after the other
///   and fill the area. None in `Cells` gets more than it asks for, and a single `AtLeast` gets
///   just what it asks for, as far as that is in the area and in the range of an `i16`, which
///   the solver is given it in. Which of the `Cells` get less is settled by the weakest wish,
///   that neighbours be alike: `squeezed` says how, where one answer is best. Elsewhere it is
///   not said: the solver walks hash maps, and more than one answer can be as good.
#[verifier::external_body]
pub(crate) fn split_area(area: Area, split: Split, place: Place, sizes: &Vec<Size>) -> (r: Vec<
    Area,
>)
    ensures
        r@.len() == sizes@.len(),
        forall|i: int|
            0 <= i < r@.len() ==> across(#[trigger] r@[i], split) == across(area, split),
        ({
            let (start, length) = along(area, split);
            let room = room_from(start, length);
            match place {
                Place::Center => sizes@.len() == 1 && even_margin(sizes@[0]) ==> {
                    let (s, n) = along(r@[0], split);
                    (s as int, n as int) == centered(sizes@[0], start, length)
                },
                Place::Start => {
                    &&& fit_in(sizes@, room) ==> forall|i: int|
                        0 <= i < r@.len() ==> {
                            &&& along(#[trigger] r@[i], split).0 == start + shares(sizes@, room, i)
                            &&& along(r@[i], split).1 == share(sizes@, room, i)
                        }
                    &&& in_percent(sizes@) ==> forall|i: int|
                        0 <= i < r@.len() ==> {
                            &&& along(#[trigger] r@[i], split).0 == start + rounded(
                                percentage(sizes@, i) * room,
                            )
                            &&& end_of(r@[i], split) == start + rounded(
                                percentage(sizes@, i + 1) * room,
                            )
                        }
                    &&& 0 < sizes@.len() <= 4 && in_cells(sizes@) ==> {
                        &&& along(r@[0], split).0 == start
                        &&& forall|i: int|
                            0 < i < r@.len() ==> along(#[trigger] r@[i], split).0 == end_of(
                                r@[i - 1],
                                split,
                            )
                        &&& end_of(r@.last(), split) <= start + room
                        &&& asked(sizes@, sizes@.len() as int) > room ==> {
                            &&& end_of(r@.last(), split) == start + room
                            &&& forall|i: int|
                                0 <= i < r@.len() ==> (sizes@[i] matches Size::Cells(n)
                                    ==> along(#[trigger] r@[i], split).1 <= n)
                            &&& forall|i: int|
                                0 <= i < r@.len() && only_growing(sizes@, i) ==> (
                                sizes@[i] matches Size::AtLeast(n) ==> n <= room && n <= i16::MAX
                                    ==> along(#[trigger] r@[i], split).1 == n)
                            &&& squeezed(sizes@, room) matches Some(lengths) ==> forall|i: int|
                                0 <= i < r@.len() ==> along(#[trigger] r@[i], split).1
                                    == lengths[i]
                        }
                    }
                },
            }
        }),
{
    let parts = sizes.iter().map(|size| match size {
        Size::Cells(n) => Constraint::Length(*n),
        Size::AtLeast(n) => Constraint::Min(*n),
        Size::Percent(n) => Constraint::Percentage(*n),
    });
    let direction = match split {
        Split::Rows => Direction::Vertical,
        Split::Columns => Direction::Horizontal,
    };
    let flex = match place { Place::Start => Flex::Start, Place::Center => Flex::Center };
    let rect = Rect { x: area.x, y: area.y, width: area.width, height: area.height };
    let areas = Layout::new(direction, parts).flex(flex).split(rect);
    areas.iter().map(|&Rect { x, y, width, height }| Area { x, y, width, height }).collect()
}

} // verus!
