//! Rectangles of the terminal: how the screen is split, and what a block leaves free inside.

use crate::style::Style;
use vstd::prelude::*;

verus! {

/// A rectangle of cells: its top left corner and its size.
#[derive(Debug, Clone, Copy, PartialEq, Eq, Structural)]
pub struct Rect {
    pub x: u16,
    pub y: u16,
    pub width: u16,
    pub height: u16,
}

/// The way in which a layout lines up its areas.
#[derive(Debug, Clone, Copy, PartialEq, Eq, Structural)]
pub enum Direction {
    Horizontal,
    Vertical,
}

/// What a layout asks of one of its areas.
#[derive(Debug, Clone, Copy, PartialEq, Eq, Structural)]
pub enum Constraint {
    /// So many cells.
    Length(u16),
    /// A share of what is left over, in proportion to this weight.
    Fill(u16),
}

/// A split of an area into one area for each constraint.
#[derive(Debug, PartialEq, Eq)]
pub struct Layout {
    pub direction: Direction,
    pub constraints: Vec<Constraint>,
    /// Cells left free on every side of the area.
    pub margin: u16,
    /// Cells left free between one area and the next.
    pub spacing: u16,
}

/// `a + b`, or the largest coordinate if the sum lies beyond it.
pub open spec fn saturating_sum(a: int, b: int) -> u16 {
    if a + b > u16::MAX {
        u16::MAX
    } else {
        (a + b) as u16
    }
}

/// `a - b`, or 0 if `b` is the larger.
pub open spec fn saturating_difference(a: int, b: int) -> u16 {
    if a < b {
        0
    } else {
        (a - b) as u16
    }
}

/// An area without its margin. An area too small for its margin leaves nothing.
pub open spec fn shrunk(area: Rect, margin: u16) -> Rect {
    let doubled = saturating_sum(margin as int, margin as int);
    if area.width < doubled || area.height < doubled {
        Rect { x: 0, y: 0, width: 0, height: 0 }
    } else {
        Rect {
            x: saturating_sum(area.x as int, margin as int),
            y: saturating_sum(area.y as int, margin as int),
            width: saturating_difference(area.width as int, doubled as int),
            height: saturating_difference(area.height as int, doubled as int),
        }
    }
}

/// Splits `area` with `ratatui::layout::Layout::split`. How the constraints share out the
/// length of the area is left to the solver of that crate and is not stated here. What is stated
/// is what the source shows for every outcome: there is one area for each constraint, and across
/// the direction of the split each area spans the given area without its margin. The solver is
/// taken not to fail, as that crate takes it.
#[verifier::external_body]
pub(crate) fn split(layout: &Layout, area: Rect) -> (areas: Vec<Rect>)
    ensures
        areas.len() == layout.constraints.len(),
        forall|i: int|
            0 <= i < areas.len() && layout.direction == Direction::Vertical ==> (#[trigger] areas[i]).x
                == shrunk(area, layout.margin).x && areas[i].width == shrunk(
                area,
                layout.margin,
            ).width,
        forall|i: int|
            0 <= i < areas.len() && layout.direction == Direction::Horizontal ==> (
            #[trigger] areas[i]).y == shrunk(area, layout.margin).y && areas[i].height == shrunk(
                area,
                layout.margin,
            ).height,
{
    let constraints = layout.constraints.iter().map(|constraint| match constraint {
        Constraint::Length(length) => ratatui::layout::Constraint::Length(*length),
        Constraint::Fill(weight) => ratatui::layout::Constraint::Fill(*weight),
    });
    let direction = match layout.direction {
        Direction::Horizontal => ratatui::layout::Direction::Horizontal,
        Direction::Vertical => ratatui::layout::Direction::Vertical,
    };
    let solved = ratatui::layout::Layout::new(direction, constraints)
        .margin(layout.margin)
        .spacing(layout.spacing)
        .split(ratatui::layout::Rect { x: area.x, y: area.y, width: area.width, height: area.height });
    solved.iter().map(|r| Rect { x: r.x, y: r.y, width: r.width, height: r.height }).collect()
}

/// The sides of a block that carry a border.
#[derive(Debug, Clone, Copy, PartialEq, Eq, Structural)]
pub struct Borders {
    pub top: bool,
    pub right: bool,
    pub bottom: bool,
    pub left: bool,
}

/// The glyphs of which a border is drawn.
#[derive(Debug, Clone, Copy, PartialEq, Eq, Structural)]
pub enum BorderType {
    Plain,
    Rounded,
    Double,
    Thick,
}

/// The cells that a block leaves free between its border and what it holds.
#[derive(Debug, Clone, Copy, PartialEq, Eq, Structural)]
pub struct Padding {
    pub left: u16,
    pub right: u16,
    pub top: u16,
    pub bottom: u16,
}

/// A frame round a widget: borders and padding.
#[derive(Debug, Clone, Copy, PartialEq, Eq, Structural)]
pub struct Block {
    pub borders: Borders,
    pub border_type: BorderType,
    pub border_style: Style,
    pub padding: Padding,
}

impl Borders {
    /// No border.
    pub open spec fn none() -> Borders {
        Borders { top: false, right: false, bottom: false, left: false }
    }

    /// A border on the left.
    pub open spec fn on_the_left() -> Borders {
        Borders { left: true, ..Borders::none() }
    }

    /// A border on the right.
    pub open spec fn on_the_right() -> Borders {
        Borders { right: true, ..Borders::none() }
    }
}

impl Padding {
    /// No padding.
    pub open spec fn zero() -> Padding {
        Padding { left: 0, right: 0, top: 0, bottom: 0 }
    }
}

impl Block {
    /// A block without borders and without padding.
    pub open spec fn plain() -> Block {
        Block {
            borders: Borders::none(),
            border_type: BorderType::Plain,
            border_style: Style::plain(),
            padding: Padding::zero(),
        }
    }

    /// What the block leaves free of `area`: each border takes one row or column, then the
    /// padding takes its cells. Nothing grows beyond the largest coordinate or shrinks below
    /// nothing.
    pub open spec fn inner_of(self, area: Rect) -> Rect {
        let right_edge = saturating_sum(area.x as int, area.width as int);
        let bottom_edge = saturating_sum(area.y as int, area.height as int);
        let x = if self.borders.left {
            if area.x < right_edge {
                saturating_sum(area.x as int, 1)
            } else {
                right_edge
            }
        } else {
            area.x
        };
        let y = if self.borders.top {
            if area.y < bottom_edge {
                saturating_sum(area.y as int, 1)
            } else {
                bottom_edge
            }
        } else {
            area.y
        };
        let columns = (if self.borders.left {
            1int
        } else {
            0int
        }) + (if self.borders.right {
            1int
        } else {
            0int
        }) + self.padding.left + self.padding.right;
        let rows = (if self.borders.top {
            1int
        } else {
            0int
        }) + (if self.borders.bottom {
            1int
        } else {
            0int
        }) + self.padding.top + self.padding.bottom;
        Rect {
            x: saturating_sum(x as int, self.padding.left as int),
            y: saturating_sum(y as int, self.padding.top as int),
            width: saturating_difference(area.width as int, columns),
            height: saturating_difference(area.height as int, rows),
        }
    }

    /// A block without borders and without padding.
    pub fn new() -> (block: Block)
        ensures
            block == Block::plain(),
    {
        Block {
            borders: Borders { top: false, right: false, bottom: false, left: false },
            border_type: BorderType::Plain,
            border_style: Style::new(),
            padding: Padding { left: 0, right: 0, top: 0, bottom: 0 },
        }
    }

    /// This block with these borders.
    pub fn borders(self, borders: Borders) -> (block: Block)
        ensures
            block == (Block { borders, ..self }),
    {
        Block { borders, ..self }
    }

    /// This block with borders of this type.
    pub fn border_type(self, border_type: BorderType) -> (block: Block)
        ensures
            block == (Block { border_type, ..self }),
    {
        Block { border_type, ..self }
    }

    /// This block with borders in this style.
    pub fn border_style(self, border_style: Style) -> (block: Block)
        ensures
            block == (Block { border_style, ..self }),
    {
        Block { border_style, ..self }
    }

    /// This block with this padding.
    pub fn padding(self, padding: Padding) -> (block: Block)
        ensures
            block == (Block { padding, ..self }),
    {
        Block { padding, ..self }
    }

    /// What the block leaves free of `area`.
    pub fn inner(&self, area: Rect) -> (inner: Rect)
        ensures
            inner == self.inner_of(area),
    {
        let mut inner = area;
        let right_edge = area.x.saturating_add(area.width);
        let bottom_edge = area.y.saturating_add(area.height);
        if self.borders.left {
            inner.x = if area.x < right_edge {
                area.x.saturating_add(1)
            } else {
                right_edge
            };
            inner.width = inner.width.saturating_sub(1);
        }
        if self.borders.top {
            inner.y = if area.y < bottom_edge {
                area.y.saturating_add(1)
            } else {
                bottom_edge
            };
            inner.height = inner.height.saturating_sub(1);
        }
        if self.borders.right {
            inner.width = inner.width.saturating_sub(1);
        }
        if self.borders.bottom {
            inner.height = inner.height.saturating_sub(1);
        }
        inner.x = inner.x.saturating_add(self.padding.left);
        inner.y = inner.y.saturating_add(self.padding.top);
        inner.width = inner.width.saturating_sub(self.padding.left).saturating_sub(
            self.padding.right,
        );
        inner.height = inner.height.saturating_sub(self.padding.top).saturating_sub(
            self.padding.bottom,
        );
        inner
    }
}

impl Borders {
    /// No border.
    pub fn no_borders() -> (borders: Borders)
        ensures
            borders == Borders::none(),
    {
        Borders { top: false, right: false, bottom: false, left: false }
    }

    /// A border on the left.
    pub fn left() -> (borders: Borders)
        ensures
            borders == Borders::on_the_left(),
    {
        Borders { top: false, right: false, bottom: false, left: true }
    }

    /// A border on the right.
    pub fn right() -> (borders: Borders)
        ensures
            borders == Borders::on_the_right(),
    {
        Borders { top: false, right: true, bottom: false, left: false }
    }
}

impl Padding {
    /// The same padding on the left and on the right, none above or below.
    pub fn horizontal(value: u16) -> (padding: Padding)
        ensures
            padding == (Padding { left: value, right: value, ..Padding::zero() }),
    {
        Padding { left: value, right: value, top: 0, bottom: 0 }
    }

    /// Padding on the left only.
    pub fn left(value: u16) -> (padding: Padding)
        ensures
            padding == (Padding { left: value, ..Padding::zero() }),
    {
        Padding { left: value, right: 0, top: 0, bottom: 0 }
    }
}

/// What an optional block leaves free of `area`: all of it, where there is no block.
pub open spec fn inner_if_some(block: Option<Block>, area: Rect) -> Rect {
    match block {
        Some(block) => block.inner_of(area),
        None => area,
    }
}

/// A line and where it goes.
#[derive(Debug, PartialEq, Eq)]
pub struct Placed {
    pub area: Rect,
    pub line: crate::style::Line,
}

/// The mathematical value of a [`Placed`] line.
pub struct PlacedView {
    pub area: Rect,
    pub line: crate::style::LineView,
}

impl View for Placed {
    type V = PlacedView;

    open spec fn view(&self) -> PlacedView {
        PlacedView { area: self.area, line: self.line@ }
    }
}

impl DeepView for Placed {
    type V = PlacedView;

    open spec fn deep_view(&self) -> PlacedView {
        self@
    }
}

/// Row `index` of `area`: one cell high, as wide as the area.
pub open spec fn row_of_area(area: Rect, index: int) -> Rect {
    Rect { x: area.x, y: saturating_sum(area.y as int, index), width: area.width, height: 1 }
}

/// Row `index` of `area`.
pub fn row(area: Rect, index: usize) -> (row: Rect)
    ensures
        row == row_of_area(area, index as int),
{
    let y = if index > (u16::MAX - area.y) as usize {
        u16::MAX
    } else {
        area.y + index as u16
    };
    Rect { x: area.x, y, width: area.width, height: 1 }
}

} // verus!
