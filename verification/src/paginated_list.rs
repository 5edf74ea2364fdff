//! A vertical list that pages instead of scrolling, and the cursor that lives across repaints.

use crate::layout::{
    inner_if_some, row, row_of_area, Block, Placed, PlacedView, Rect,
};
use crate::style::{primary, primary_color, Line, LineView, Span, SpanView, Style};
use vstd::prelude::*;

verus! {

/// A cursor move that waits for the next repaint, when the page height is known.
#[derive(Clone, Copy, Debug, PartialEq, Eq, Structural)]
pub enum CursorMove {
    Previous,
    Next,
    PreviousPage,
    NextPage,
}

/// The cursor of a paginated list: the selected index and the move that is still pending.
#[derive(Clone, Copy, Debug, PartialEq, Eq)]
pub struct PaginatedListState {
    selected: usize,
    cursor_move: Option<CursorMove>,
}

/// The mathematical value of a [`PaginatedListState`].
pub struct ListCursor {
    pub selected: nat,
    pub pending: Option<CursorMove>,
}

impl View for PaginatedListState {
    type V = ListCursor;

    closed spec fn view(&self) -> ListCursor {
        ListCursor { selected: self.selected as nat, pending: self.cursor_move }
    }
}

impl DeepView for PaginatedListState {
    type V = ListCursor;

    open spec fn deep_view(&self) -> ListCursor {
        self@
    }
}

/// The number of pages that `items` rows take at `per_page` rows a page. Nothing fits on a page
/// without rows, so there are no pages then.
pub open spec fn total_pages(items: nat, per_page: nat) -> nat {
    if per_page == 0 {
        0
    } else if items % per_page == 0 {
        items / per_page
    } else {
        items / per_page + 1
    }
}

/// The index of the last item, or 0 in an empty list.
pub open spec fn last_index(items: nat) -> nat {
    if items == 0 {
        0
    } else {
        (items - 1) as nat
    }
}

/// `selected`, pulled back onto the last item where it lies beyond it.
pub open spec fn clamp_index(selected: nat, items: nat) -> nat {
    if selected > last_index(items) {
        last_index(items)
    } else {
        selected
    }
}

/// The index of the first item of the last page.
pub open spec fn last_page_start(items: nat, per_page: nat) -> nat {
    if total_pages(items, per_page) == 0 {
        0
    } else {
        (per_page * (total_pages(items, per_page) - 1)) as nat
    }
}

/// Where a move takes the cursor from `selected`, before it is clamped. Single steps wrap round
/// the ends of the list; page steps wrap from the first page to the last and back.
pub open spec fn moved_index(selected: nat, cursor_move: CursorMove, per_page: nat, items: nat) -> nat {
    match cursor_move {
        CursorMove::Previous => if selected == 0 {
            last_index(items)
        } else {
            (selected - 1) as nat
        },
        CursorMove::Next => if selected == last_index(items) {
            0
        } else {
            selected + 1
        },
        CursorMove::PreviousPage => if selected < per_page {
            selected + last_page_start(items, per_page)
        } else {
            (selected - per_page) as nat
        },
        CursorMove::NextPage => if selected >= last_page_start(items, per_page) {
            (selected - last_page_start(items, per_page)) as nat
        } else {
            selected + per_page
        },
    }
}

/// The cursor once its pending move is resolved against a list of `items` rows shown `per_page`
/// at a time: the move is applied, the selection clamped, and nothing is left pending.
pub open spec fn resolved(cursor: ListCursor, per_page: nat, items: nat) -> ListCursor {
    ListCursor {
        selected: match cursor.pending {
            Some(cursor_move) => clamp_index(
                moved_index(cursor.selected, cursor_move, per_page, items),
                items,
            ),
            None => clamp_index(cursor.selected, items),
        },
        pending: None,
    }
}

/// In a list that is not empty, stepping back from the first item lands on the last, and stepping
/// forward from the last lands on the first.
pub proof fn lemma_single_steps_wrap(items: nat, per_page: nat)
    requires
        items > 0,
    ensures
        resolved(
            ListCursor { selected: 0, pending: Some(CursorMove::Previous) },
            per_page,
            items,
        ).selected == items - 1,
        resolved(
            ListCursor { selected: (items - 1) as nat, pending: Some(CursorMove::Next) },
            per_page,
            items,
        ).selected == 0,
{
}

/// A resolved cursor points into the list, or at 0 when the list is empty.
pub proof fn lemma_resolved_in_range(cursor: ListCursor, per_page: nat, items: nat)
    ensures
        resolved(cursor, per_page, items).selected <= last_index(items),
        items > 0 ==> resolved(cursor, per_page, items).selected < items,
        resolved(cursor, per_page, items).pending is None,
{
}

/// Resolving a cursor that points into the list can only move the selection when the list has
/// at least two items.
pub proof fn lemma_move_needs_two_items(cursor: ListCursor, per_page: nat, items: nat)
    requires
        cursor.selected <= last_index(items),
        resolved(cursor, per_page, items).selected != cursor.selected,
    ensures
        items >= 2,
{
}

/// In a list of at least two items, a single step from a cursor inside the list always moves
/// the selection.
pub proof fn lemma_single_step_moves(cursor: ListCursor, per_page: nat, items: nat)
    requires
        items >= 2,
        cursor.selected <= last_index(items),
        cursor.pending == Some(CursorMove::Previous) || cursor.pending == Some(CursorMove::Next),
    ensures
        resolved(cursor, per_page, items).selected != cursor.selected,
{
}

/// A page move from a cursor inside the list moves the selection exactly when the list takes
/// more than one page.
pub proof fn lemma_page_move_moves(cursor: ListCursor, per_page: nat, items: nat)
    requires
        per_page > 0,
        cursor.selected <= last_index(items),
        cursor.pending == Some(CursorMove::PreviousPage) || cursor.pending == Some(
            CursorMove::NextPage,
        ),
    ensures
        resolved(cursor, per_page, items).selected != cursor.selected <==> items > per_page,
{
    if items > 0 {
        lemma_last_page_start(items, per_page);
        let p = per_page as int;
        let q = (items - 1) / p;
        if items > per_page {
            assert(q >= 1) by (nonlinear_arith)
                requires
                    items - 1 < p * q + p,
                    items > p,
                    p > 0,
            ;
            assert(p * q >= p) by (nonlinear_arith)
                requires
                    q >= 1,
                    p > 0,
            ;
        } else {
            assert(q == 0) by (nonlinear_arith)
                requires
                    p * q <= items - 1,
                    items <= p,
                    q >= 0,
                    p > 0,
            ;
            assert(p * q == 0) by (nonlinear_arith)
                requires
                    q == 0,
            ;
        }
    }
}

proof fn lemma_last_page_start(items: nat, per_page: nat)
    requires
        per_page > 0,
        items > 0,
    ensures
        total_pages(items, per_page) >= 1,
        last_page_start(items, per_page) == per_page * ((items - 1) / (per_page as int)),
        last_page_start(items, per_page) <= items - 1,
        items - 1 < last_page_start(items, per_page) + per_page,
        (items - 1) / (per_page as int) >= 0,
{
    let p = per_page as int;
    let n = items as int;
    vstd::arithmetic::div_mod::lemma_fundamental_div_mod(n, p);
    vstd::arithmetic::div_mod::lemma_fundamental_div_mod(n - 1, p);
    let q = n / p;
    let r = n % p;
    let q1 = (n - 1) / p;
    let r1 = (n - 1) % p;
    if r == 0 {
        // n - 1 == p * (q - 1) + (p - 1)
        assert(q1 == q - 1) by (nonlinear_arith)
            requires
                p * q1 + r1 == p * q - 1,
                0 <= r1 < p,
                p > 0,
        ;
    } else {
        assert(q1 == q) by (nonlinear_arith)
            requires
                p * q1 + r1 == p * q + r - 1,
                0 <= r1 < p,
                0 < r < p,
                p > 0,
        ;
    }
    assert(q >= 0) by (nonlinear_arith)
        requires
            n == p * q + r,
            n > 0,
            0 <= r < p,
            p > 0,
    ;
    assert(r == 0 ==> q >= 1) by (nonlinear_arith)
        requires
            n == p * q + r,
            n > 0,
            p > 0,
    ;
}

impl Default for PaginatedListState {
    fn default() -> (state: Self)
        ensures
            state@ == (ListCursor { selected: 0, pending: None }),
    {
        PaginatedListState { selected: 0, cursor_move: None }
    }
}

impl PaginatedListState {
    /// The selected index.
    pub fn selected(&self) -> (index: usize)
        ensures
            index == self@.selected,
    {
        self.selected
    }

    /// Asks for the previous item at the next repaint. A move that is still pending is replaced.
    pub fn select_previous(&mut self)
        ensures
            final(self)@ == (ListCursor {
                selected: old(self)@.selected,
                pending: Some(CursorMove::Previous),
            }),
    {
        self.cursor_move = Some(CursorMove::Previous);
    }

    /// Asks for the next item at the next repaint. A move that is still pending is replaced.
    pub fn select_next(&mut self)
        ensures
            final(self)@ == (ListCursor {
                selected: old(self)@.selected,
                pending: Some(CursorMove::Next),
            }),
    {
        self.cursor_move = Some(CursorMove::Next);
    }

    /// Asks for the previous page at the next repaint. A move that is still pending is replaced.
    pub fn select_previous_page(&mut self)
        ensures
            final(self)@ == (ListCursor {
                selected: old(self)@.selected,
                pending: Some(CursorMove::PreviousPage),
            }),
    {
        self.cursor_move = Some(CursorMove::PreviousPage);
    }

    /// Asks for the next page at the next repaint. A move that is still pending is replaced.
    pub fn select_next_page(&mut self)
        ensures
            final(self)@ == (ListCursor {
                selected: old(self)@.selected,
                pending: Some(CursorMove::NextPage),
            }),
    {
        self.cursor_move = Some(CursorMove::NextPage);
    }

    /// Selects the first item at once and drops any pending move.
    pub fn select_first(&mut self)
        ensures
            final(self)@ == (ListCursor { selected: 0, pending: None }),
    {
        self.selected = 0;
        self.cursor_move = None;
    }

    /// Selects the last of `items` rows at once and drops any pending move.
    pub fn select_last(&mut self, items: usize)
        ensures
            final(self)@ == (ListCursor { selected: last_index(items as nat), pending: None }),
    {
        self.selected = if items == 0 {
            0
        } else {
            items - 1
        };
        self.cursor_move = None;
    }

    /// Pulls the selection back into a list of `items` rows; a pending move stays pending.
    pub fn clamp(&mut self, items: usize)
        ensures
            final(self)@ == (ListCursor {
                selected: clamp_index(old(self)@.selected, items as nat),
                pending: old(self)@.pending,
            }),
    {
        let last = if items == 0 {
            0
        } else {
            items - 1
        };
        if self.selected > last {
            self.selected = last;
        }
    }

    /// Resolves the pending move against a list of `items` rows shown `per_page` at a time.
    pub fn apply_cursor_move(&mut self, per_page: usize, items: usize)
        ensures
            final(self)@ == resolved(old(self)@, per_page as nat, items as nat),
    {
        let last = if items == 0 {
            0
        } else {
            items - 1
        };
        let last_page = if per_page == 0 || items == 0 {
            0
        } else {
            proof {
                lemma_last_page_start(items as nat, per_page as nat);
            }
            per_page * ((items - 1) / per_page)
        };
        let selected = self.selected;
        let target = match self.cursor_move {
            Some(CursorMove::Previous) => if selected == 0 {
                last
            } else {
                selected - 1
            },
            Some(CursorMove::Next) => if selected == last {
                0
            } else if selected > last {
                last
            } else {
                selected + 1
            },
            Some(CursorMove::PreviousPage) => if selected < per_page {
                // The sum only matters up to the clamp, so an overflow is as good as `last`.
                match selected.checked_add(last_page) {
                    Some(sum) => sum,
                    None => last,
                }
            } else {
                selected - per_page
            },
            Some(CursorMove::NextPage) => if selected >= last_page {
                selected - last_page
            } else {
                match selected.checked_add(per_page) {
                    Some(sum) => sum,
                    None => last,
                }
            },
            None => selected,
        };
        self.selected = if target > last {
            last
        } else {
            target
        };
        self.cursor_move = None;
    }
}

/// How many rows of a panel of `height` rows show items: one row is kept for the page strip and
/// one for the gap above it.
pub open spec fn per_page_of(height: nat) -> nat {
    if height > 2 {
        (height - 2) as nat
    } else {
        0
    }
}

/// The page that holds the selected item.
pub open spec fn page_of(selected: nat, per_page: nat) -> nat {
    if per_page == 0 {
        0
    } else {
        selected / per_page
    }
}

/// The style of the selected row: the accent colour while the panel has the focus.
pub open spec fn selected_style(focused: bool) -> Style {
    if focused {
        Style { fg: Some(primary()), ..Style::plain() }
    } else {
        Style::plain()
    }
}

/// The selected row: a bold `>` and a blank before the item, the whole in the style of the
/// selected row.
pub open spec fn marked(line: LineView, focused: bool) -> LineView {
    LineView {
        spans: seq![
            SpanView { content: ">"@, style: Style { bold: true, ..selected_style(focused) } },
            SpanView { content: " "@, style: Style::plain() },
        ] + line.spans,
        style: selected_style(focused),
    }
}

/// The lines of the page that holds the selected item, the selected one marked.
pub open spec fn page_rows(items: Seq<LineView>, selected: nat, per_page: nat, focused: bool) -> Seq<
    LineView,
> {
    let start = (page_of(selected, per_page) * per_page) as int;
    let end = if start + per_page < items.len() {
        start + per_page
    } else {
        items.len() as int
    };
    if start >= end {
        Seq::empty()
    } else {
        Seq::new(
            (end - start) as nat,
            |i: int|
                if start + i == selected {
                    marked(items[start + i], focused)
                } else {
                    items[start + i]
                },
        )
    }
}

/// The line of the page strip: one bullet a page, all dim but that of the current page.
pub open spec fn strip_line(pages: nat, page: nat) -> LineView {
    LineView {
        spans: Seq::new(
            pages,
            |n: int|
                SpanView {
                    content: "\u{2022} "@,
                    style: Style { bold: true, dim: n != page, ..Style::plain() },
                },
        ),
        style: Style::plain(),
    }
}

/// Lines placed on the rows of `area`, one after the other from the top.
pub open spec fn placed_rows(area: Rect, lines: Seq<LineView>) -> Seq<PlacedView> {
    Seq::new(lines.len(), |i: int| PlacedView { area: row_of_area(area, i), line: lines[i] })
}

/// The page strip on the last row of `area`. A single page gets no strip.
pub open spec fn page_strip(area: Rect, pages: nat, page: nat) -> Option<PlacedView> {
    if pages > 1 {
        Some(
            PlacedView {
                area: row_of_area(area, area.height - 1),
                line: strip_line(pages, page),
            },
        )
    } else {
        None
    }
}

/// One page of a list as it is drawn.
#[derive(Debug, PartialEq, Eq)]
pub struct ListPage {
    /// The block round the list, and the area it is drawn in.
    pub block: Option<Block>,
    pub area: Rect,
    /// The rows of the page, from the top.
    pub rows: Vec<Placed>,
    /// The page strip, where there is more than one page.
    pub strip: Option<Placed>,
}

/// The mathematical value of a [`ListPage`].
pub struct ListPageView {
    pub block: Option<Block>,
    pub area: Rect,
    pub rows: Seq<PlacedView>,
    pub strip: Option<PlacedView>,
}

impl View for ListPage {
    type V = ListPageView;

    open spec fn view(&self) -> ListPageView {
        ListPageView {
            block: self.block,
            area: self.area,
            rows: self.rows.deep_view(),
            strip: match self.strip {
                Some(strip) => Some(strip@),
                None => None,
            },
        }
    }
}

/// A paginated list, ready to be drawn.
#[derive(Debug, PartialEq, Eq)]
pub struct PaginatedList {
    block: Option<Block>,
    items: Vec<Line>,
    focused: bool,
}

/// The mathematical value of a [`PaginatedList`].
pub struct PaginatedListView {
    pub block: Option<Block>,
    pub items: Seq<LineView>,
    pub focused: bool,
}

impl View for PaginatedList {
    type V = PaginatedListView;

    closed spec fn view(&self) -> PaginatedListView {
        PaginatedListView {
            block: self.block,
            items: self.items.deep_view(),
            focused: self.focused,
        }
    }
}

/// The cursor and the page after a repaint of `list` in `area`. The list is drawn inside its
/// block; the height that the block leaves free sets the rows of a page.
pub open spec fn list_rendered(list: PaginatedListView, area: Rect, cursor: ListCursor) -> (
    ListCursor,
    ListPageView,
) {
    let inner = inner_if_some(list.block, area);
    let per_page = per_page_of(inner.height as nat);
    let after = resolved(cursor, per_page, list.items.len());
    (
        after,
        ListPageView {
            block: list.block,
            area,
            rows: placed_rows(inner, page_rows(list.items, after.selected, per_page, list.focused)),
            strip: page_strip(
                inner,
                total_pages(list.items.len(), per_page),
                page_of(after.selected, per_page),
            ),
        },
    )
}

/// A page shows at most as many rows as fit above the strip, and the selected item is among them
/// whenever the list and the page are not empty.
pub proof fn lemma_page_shows_selection(list: PaginatedListView, area: Rect, cursor: ListCursor)
    ensures
        ({
            let inner = inner_if_some(list.block, area);
            let per_page = per_page_of(inner.height as nat);
            let (after, page) = list_rendered(list, area, cursor);
            let start = page_of(after.selected, per_page) * per_page;
            &&& page.rows.len() <= per_page
            &&& list.items.len() > 0 && per_page > 0 ==> start <= after.selected < start
                + page.rows.len() && page.rows[after.selected - start].line == marked(
                list.items[after.selected as int],
                list.focused,
            )
        }),
{
    let inner = inner_if_some(list.block, area);
    let per_page = per_page_of(inner.height as nat);
    let after = resolved(cursor, per_page, list.items.len());
    if per_page > 0 {
        let p = per_page as int;
        let n = after.selected as int;
        vstd::arithmetic::div_mod::lemma_fundamental_div_mod(n, p);
        assert(page_of(after.selected, per_page) * per_page == p * (n / p)) by (nonlinear_arith)
            requires
                page_of(after.selected, per_page) == n / p,
                per_page == p,
        ;
    }
}

impl PaginatedList {
    /// A list of `items` without a block; `focused` says whether its panel has the focus.
    pub fn new(items: Vec<Line>, focused: bool) -> (list: Self)
        ensures
            list@ == (PaginatedListView { block: None, items: items.deep_view(), focused }),
    {
        PaginatedList { block: None, items, focused }
    }

    /// This list inside `block`.
    pub fn block(self, block: Block) -> (list: Self)
        ensures
            list@ == (PaginatedListView { block: Some(block), ..self@ }),
    {
        PaginatedList { block: Some(block), items: self.items, focused: self.focused }
    }

    /// Repaints the list in `area`: resolves the pending move of `state` and returns the page
    /// that holds the selection.
    pub fn render(self, area: Rect, state: &mut PaginatedListState) -> (page: ListPage)
        ensures
            (final(state)@, page@) == list_rendered(self@, area, old(state)@),
    {
        let inner = match &self.block {
            Some(block) => block.inner(area),
            None => area,
        };
        let per_page: usize = if inner.height > 2 {
            (inner.height - 2) as usize
        } else {
            0
        };
        let count = self.items.len();
        let pages: usize = if per_page == 0 {
            0
        } else if count % per_page == 0 {
            count / per_page
        } else {
            proof {
                vstd::arithmetic::div_mod::lemma_fundamental_div_mod(
                    count as int,
                    per_page as int,
                );
                assert(count as int / per_page as int <= per_page * (count as int / per_page as int))
                    by (nonlinear_arith)
                    requires
                        per_page >= 1,
                        count as int / per_page as int >= 0,
                ;
            }
            count / per_page + 1
        };
        state.apply_cursor_move(per_page, count);
        let selected = state.selected;
        let ghost items = self.items.deep_view();
        let ghost lines = page_rows(items, selected as nat, per_page as nat, self.focused);
        let ghost wanted = placed_rows(inner, lines);
        let mut rows: Vec<Placed> = Vec::new();
        let mut strip: Option<Placed> = None;
        let page: usize = if per_page == 0 {
            0
        } else {
            selected / per_page
        };
        if per_page > 0 && count > 0 {
            proof {
                vstd::arithmetic::div_mod::lemma_fundamental_div_mod(
                    selected as int,
                    per_page as int,
                );
                assert(page * per_page == per_page * (selected as int / per_page as int))
                    by (nonlinear_arith)
                    requires
                        page == selected as int / per_page as int,
                ;
            }
            let start = page * per_page;
            let end = if count - start > per_page {
                start + per_page
            } else {
                count
            };
            let mut n: usize = start;
            while n < end
                invariant
                    items == self.items.deep_view(),
                    start <= n <= end <= count,
                    count == self.items.len(),
                    start < end,
                    wanted.len() == end - start,
                    rows.len() == n - start,
                    forall|k: int| 0 <= k < rows.len() ==> rows[k]@ == wanted[k],
                    forall|k: int|
                        0 <= k < wanted.len() ==> wanted[k] == (PlacedView {
                            area: row_of_area(inner, k),
                            line: if start + k == selected {
                                marked(items[start + k], self.focused)
                            } else {
                                items[start + k]
                            },
                        }),
                decreases end - n,
            {
                let line = if n == selected {
                    let style = if self.focused {
                        Style::new().fg(primary_color())
                    } else {
                        Style::new()
                    };
                    let mut spans: Vec<Span> = Vec::new();
                    spans.push(Span::styled(">".to_owned(), style.bold()));
                    spans.push(Span::raw(" ".to_owned()));
                    let mut k: usize = 0;
                    while k < self.items[n].spans.len()
                        invariant
                            n < self.items.len(),
                            k <= self.items[n as int].spans.len(),
                            spans.len() == k + 2,
                            spans[0]@ == (SpanView {
                                content: ">"@,
                                style: Style { bold: true, ..selected_style(self.focused) },
                            }),
                            spans[1]@ == (SpanView { content: " "@, style: Style::plain() }),
                            forall|j: int|
                                0 <= j < k ==> spans[j + 2]@ == self.items[n as int].spans[j]@,
                        decreases self.items[n as int].spans.len() - k,
                    {
                        spans.push(self.items[n].spans[k].clone());
                        k = k + 1;
                    }
                    let line = Line { spans, style };
                    assert(line@.spans =~= marked(items[n as int], self.focused).spans);
                    line
                } else {
                    self.items[n].clone()
                };
                rows.push(Placed { area: row(inner, n - start), line });
                n = n + 1;
            }
        }
        assert(rows.deep_view() =~= wanted);
        if pages > 1 {
            let mut bullets: Vec<Span> = Vec::new();
            let mut n: usize = 0;
            while n < pages
                invariant
                    n <= pages,
                    bullets.len() == n,
                    forall|k: int|
                        0 <= k < n ==> bullets[k]@ == (SpanView {
                            content: "\u{2022} "@,
                            style: Style { bold: true, dim: k != page, ..Style::plain() },
                        }),
                decreases pages - n,
            {
                let style = if n != page {
                    Style::new().bold().dim()
                } else {
                    Style::new().bold()
                };
                bullets.push(Span::styled("\u{2022} ".to_owned(), style));
                n = n + 1;
            }
            let line = Line::from_spans(bullets);
            assert(line@.spans =~= strip_line(pages as nat, page as nat).spans);
            strip = Some(Placed { area: row(inner, (inner.height - 1) as usize), line });
        }
        ListPage { block: self.block, area, rows, strip }
    }
}

} // verus!
