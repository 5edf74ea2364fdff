//! What the program shows: the model turned into a header, three panels and a footer.

use crate::brp::{Component, Entity};
use crate::inspector::{rendered, Inspector, InspectorPage, InspectorPageView, InspectorView};
use crate::keybinds::{active, footer, no_custom, pairs_view, Binding, KeybindDisplay};
use crate::model::{Focus, Model, Session, SessionView, State, StateView};
use crate::names::{short_name, shorten};
use crate::layout::{
    shrunk, split, Block, BorderType, Borders, Constraint, Direction, Layout, Padding, Placed,
    PlacedView, Rect,
};
use crate::paginated_list::{
    list_rendered, ListPage, ListPageView, PaginatedList, PaginatedListView,
};
use crate::style::{primary, primary_color, Color, Line, LineView, Span, SpanView, Style};
use vstd::prelude::*;

verus! {

/// Where everything goes on the screen.
#[derive(Debug, Clone, Copy, PartialEq, Eq, Structural)]
pub struct Areas {
    pub header: Rect,
    pub body: Rect,
    pub footer: Rect,
    pub entities: Rect,
    pub components: Rect,
    pub inspector: Rect,
}

/// The components panel.
#[derive(Debug, PartialEq, Eq)]
pub enum ComponentsPanel {
    /// The page of the list that holds the selection.
    List(ListPage),
    /// What stands in for a list without components: a line inside a block.
    Nothing { block: Block, area: Rect, text: Placed },
}

/// The three panels of a session.
#[derive(Debug, PartialEq, Eq)]
pub struct Panels {
    pub entities: ListPage,
    pub components: ComponentsPanel,
    /// The inspector, while a component is selected.
    pub inspector: Option<InspectorPage>,
}

/// What fills the screen between header and footer.
#[derive(Debug, PartialEq, Eq)]
pub enum Body {
    Connected(Panels),
    Disconnected(Placed),
    Done,
}

/// One repaint of the screen.
#[derive(Debug, PartialEq, Eq)]
pub struct Screen {
    pub header: Placed,
    pub body: Body,
    pub footer: Placed,
}

/// The mathematical value of a [`ComponentsPanel`].
pub enum ComponentsPanelView {
    List(ListPageView),
    Nothing { block: Block, area: Rect, text: PlacedView },
}

/// The mathematical value of [`Panels`].
pub struct PanelsView {
    pub entities: ListPageView,
    pub components: ComponentsPanelView,
    pub inspector: Option<InspectorPageView>,
}

/// The mathematical value of a [`Body`].
pub enum BodyView {
    Connected(PanelsView),
    Disconnected(PlacedView),
    Done,
}

/// The mathematical value of a [`Screen`].
pub struct ScreenView {
    pub header: PlacedView,
    pub body: BodyView,
    pub footer: PlacedView,
}

impl View for ComponentsPanel {
    type V = ComponentsPanelView;

    open spec fn view(&self) -> ComponentsPanelView {
        match self {
            ComponentsPanel::List(page) => ComponentsPanelView::List(page@),
            ComponentsPanel::Nothing { block, area, text } => ComponentsPanelView::Nothing {
                block: *block,
                area: *area,
                text: text@,
            },
        }
    }
}

impl View for Panels {
    type V = PanelsView;

    open spec fn view(&self) -> PanelsView {
        PanelsView {
            entities: self.entities@,
            components: self.components@,
            inspector: match self.inspector {
                Some(page) => Some(page@),
                None => None,
            },
        }
    }
}

impl View for Body {
    type V = BodyView;

    open spec fn view(&self) -> BodyView {
        match self {
            Body::Connected(panels) => BodyView::Connected(panels@),
            Body::Disconnected(text) => BodyView::Disconnected(text@),
            Body::Done => BodyView::Done,
        }
    }
}

impl View for Screen {
    type V = ScreenView;

    open spec fn view(&self) -> ScreenView {
        ScreenView { header: self.header@, body: self.body@, footer: self.footer@ }
    }
}

/// The split of the screen into the header, the body and the footer: one row each for header
/// and footer, the rest for the body, a margin of one cell round the whole and a gap of one row
/// between the three.
pub open spec fn screen_layout() -> (Direction, Seq<Constraint>, u16, u16) {
    (
        Direction::Vertical,
        seq![Constraint::Length(1), Constraint::Fill(1), Constraint::Length(1)],
        1,
        1,
    )
}

/// The split of the body into the three panels: the entities and the components take one share
/// each, the inspector two.
pub open spec fn body_layout() -> (Direction, Seq<Constraint>, u16, u16) {
    (
        Direction::Horizontal,
        seq![Constraint::Fill(1), Constraint::Fill(1), Constraint::Fill(2)],
        0,
        0,
    )
}

/// What a layout holds.
pub open spec fn layout_view(layout: Layout) -> (Direction, Seq<Constraint>, u16, u16) {
    (layout.direction, layout.constraints@, layout.margin, layout.spacing)
}

/// The block of the entities panel: a thick border on its right.
pub open spec fn entities_block(focus: Focus) -> Block {
    Block {
        borders: Borders::on_the_right(),
        border_type: BorderType::Thick,
        border_style: border(focus == Focus::Entities || focus == Focus::Components),
        ..Block::plain()
    }
}

/// The block of the components panel: a column of padding on either side.
pub open spec fn components_block() -> Block {
    Block { padding: Padding { left: 1, right: 1, ..Padding::zero() }, ..Block::plain() }
}

/// The block of the inspector: a thick border on its left and a column of padding behind it.
pub open spec fn inspector_block(focus: Focus) -> Block {
    Block {
        borders: Borders::on_the_left(),
        border_type: BorderType::Thick,
        border_style: border(focus == Focus::Components || focus == Focus::Inspector),
        padding: Padding { left: 1, ..Padding::zero() },
    }
}

/// The style of a border: in the accent colour beside the focused panel, dim elsewhere.
pub open spec fn border(focused: bool) -> Style {
    if focused {
        Style { fg: Some(primary()), ..Style::plain() }
    } else {
        Style { dim: true, ..Style::plain() }
    }
}

/// The style of a border: in the accent colour beside the focused panel, dim elsewhere.
pub fn border_style(focused: bool) -> (style: Style)
    ensures
        style == border(focused),
{
    if focused {
        Style::new().fg(primary_color())
    } else {
        Style::new().dim()
    }
}

/// The header: the name of the program, white on the accent colour.
pub open spec fn header() -> LineView {
    LineView {
        spans: seq![SpanView { content: " brptui "@, style: Style::plain() }],
        style: Style { fg: Some(Color::White), bg: Some(primary()), ..Style::plain() },
    }
}

/// A line of plain text.
pub open spec fn plain_line(text: Seq<char>) -> LineView {
    LineView {
        spans: seq![SpanView { content: text, style: Style::plain() }],
        style: Style::plain(),
    }
}

/// What the components panel shows without components.
pub open spec fn no_components() -> LineView {
    LineView { style: Style { bold: true, ..Style::plain() }, ..plain_line("Nothing to show"@) }
}

/// The lines of the entities panel.
pub open spec fn entity_lines(entities: Seq<Entity>) -> Seq<LineView> {
    Seq::new(entities.len(), |i: int| entities[i].title())
}

/// The line of a component: the short name of its type, in bold.
pub open spec fn component_line(name: Seq<char>) -> LineView {
    LineView {
        spans: seq![
            SpanView { content: short_name(name), style: Style { bold: true, ..Style::plain() } },
        ],
        style: Style::plain(),
    }
}

/// The lines of the components panel.
pub open spec fn component_lines(components: Seq<Component>) -> Seq<LineView> {
    Seq::new(components.len(), |i: int| component_line(components[i].name))
}

/// The session and its panels after a repaint. The entities are drawn first, then the
/// components, where there are any, then the inspector over the value of the component that is
/// selected by then, if one is. Each panel that is drawn brings its cursor up to date.
pub open spec fn session_viewed(session: SessionView, areas: Areas) -> (SessionView, PanelsView) {
    let (entities_list, entities) = list_rendered(
        PaginatedListView {
            block: Some(entities_block(session.focus)),
            items: entity_lines(session.entities),
            focused: session.focus == Focus::Entities,
        },
        areas.entities,
        session.entities_list,
    );
    let (components_list, components) = if session.components.len() > 0 {
        let (cursor, page) = list_rendered(
            PaginatedListView {
                block: Some(components_block()),
                items: component_lines(session.components),
                focused: session.focus == Focus::Components,
            },
            areas.components,
            session.components_list,
        );
        (cursor, ComponentsPanelView::List(page))
    } else {
        (
            session.components_list,
            ComponentsPanelView::Nothing {
                block: components_block(),
                area: areas.components,
                text: PlacedView {
                    area: components_block().inner_of(areas.components),
                    line: no_components(),
                },
            },
        )
    };
    let (inspector_cursor, inspector) = if components_list.selected < session.components.len() {
        let (cursor, page) = rendered(
            InspectorView {
                value: session.components[components_list.selected as int].value,
                block: Some(inspector_block(session.focus)),
                focused: session.focus == Focus::Inspector,
            },
            areas.inspector,
            session.inspector,
        );
        (cursor, Some(page))
    } else {
        (session.inspector, None)
    };
    (
        SessionView { entities_list, components_list, inspector: inspector_cursor, ..session },
        PanelsView { entities, components, inspector },
    )
}

/// The state and the screen after a repaint. The footer shows the bindings that apply in the
/// state as the repaint leaves it; `customs` holds what the custom tests answered.
pub open spec fn viewed(
    state: StateView,
    keybinds: Seq<Binding>,
    customs: Seq<bool>,
    areas: Areas,
) -> (StateView, ScreenView) {
    let (after, body) = match state {
        StateView::Connected(session) => {
            let (session, panels) = session_viewed(session, areas);
            (StateView::Connected(session), BodyView::Connected(panels))
        },
        StateView::Disconnected => (
            state,
            BodyView::Disconnected(
                PlacedView { area: areas.body, line: plain_line("Disconnected"@) },
            ),
        ),
        StateView::Done => (state, BodyView::Done),
    };
    (
        after,
        ScreenView {
            header: PlacedView { area: areas.header, line: header() },
            body,
            footer: PlacedView {
                area: areas.footer,
                line: footer(active(keybinds, after, customs)),
            },
        },
    )
}

/// A repaint leaves both list cursors without a pending move where it drew their lists, and
/// leaves everything but the cursors as it was.
pub proof fn lemma_view_keeps_the_data(session: SessionView, areas: Areas)
    ensures
        ({
            let after = session_viewed(session, areas).0;
            &&& after.focus == session.focus
            &&& after.entities == session.entities
            &&& after.components == session.components
            &&& after.components_poller == session.components_poller
            &&& after.entities_list.pending is None
            &&& session.components.len() > 0 ==> after.components_list.pending is None
        }),
{
}

/// The panels are as high as the body: their blocks have borders and padding at the sides only.
pub proof fn lemma_panels_use_the_whole_height(focus: Focus, area: Rect)
    ensures
        entities_block(focus).inner_of(area).height == area.height,
        components_block().inner_of(area).height == area.height,
        inspector_block(focus).inner_of(area).height == area.height,
{
}

impl Session {
    /// Repaints the three panels.
    pub fn render(&mut self, areas: &Areas) -> (panels: Panels)
        ensures
            (final(self)@, panels@) == session_viewed(old(self)@, *areas),
    {
        let focus = self.focus;
        let entities_block = Block::new().borders(Borders::right()).border_type(
            BorderType::Thick,
        ).border_style(border_style(focus == Focus::Entities || focus == Focus::Components));
        let components_block = Block::new().padding(Padding::horizontal(1));
        let inspector_block = Block::new().padding(Padding::left(1)).borders(
            Borders::left(),
        ).border_type(BorderType::Thick).border_style(
            border_style(focus == Focus::Components || focus == Focus::Inspector),
        );
        let mut titles: Vec<Line> = Vec::new();
        let mut i: usize = 0;
        while i < self.entities.len()
            invariant
                i <= self.entities.len(),
                titles.len() == i,
                forall|j: int| 0 <= j < i ==> titles[j]@ == self.entities[j]@.title(),
            decreases self.entities.len() - i,
        {
            titles.push(self.entities[i].title());
            i = i + 1;
        }
        assert(titles.deep_view() =~= entity_lines(self.entities.deep_view()));
        let entities = PaginatedList::new(titles, focus == Focus::Entities).block(
            entities_block,
        ).render(areas.entities, &mut self.entities_list);
        let components = if self.components.len() > 0 {
            let mut names: Vec<Line> = Vec::new();
            let mut i: usize = 0;
            while i < self.components.len()
                invariant
                    i <= self.components.len(),
                    names.len() == i,
                    forall|j: int|
                        0 <= j < i ==> names[j]@ == component_line(
                            self.components[j].fully_qualified_name@,
                        ),
                decreases self.components.len() - i,
            {
                let short = shorten(self.components[i].fully_qualified_name.as_str());
                let mut spans: Vec<Span> = Vec::new();
                spans.push(Span::styled(short, Style::new().bold()));
                let line = Line::from_spans(spans);
                assert(line@.spans =~= component_line(
                    self.components[i as int].fully_qualified_name@,
                ).spans);
                names.push(line);
                i = i + 1;
            }
            assert(names.deep_view() =~= component_lines(self.components.deep_view()));
            ComponentsPanel::List(
                PaginatedList::new(names, focus == Focus::Components).block(
                    components_block,
                ).render(areas.components, &mut self.components_list),
            )
        } else {
            let mut line = Line::raw("Nothing to show".to_owned());
            line.style = Style::new().bold();
            ComponentsPanel::Nothing {
                block: components_block,
                area: areas.components,
                text: Placed { area: components_block.inner(areas.components), line },
            }
        };
        let selected = self.components_list.selected();
        let inspector = if selected < self.components.len() {
            Some(
                Inspector::new(&self.components[selected].value, focus == Focus::Inspector).block(
                    inspector_block,
                ).render(areas.inspector, &mut self.inspector),
            )
        } else {
            None
        };
        Panels { entities, components, inspector }
    }
}

/// Repaints the screen into the given areas: brings the cursors of the panels up to date with
/// the data and with the heights of their areas, and returns what is to be drawn where. What the
/// custom tests of the key bindings answer is not known beforehand: the result is what [`viewed`]
/// gives for some answers of theirs, and they do not matter where no binding has a custom test.
pub fn view_in(model: &mut Model, areas: &Areas) -> (screen: Screen)
    ensures
        exists|customs: Seq<bool>| #[trigger]
            viewed(old(model).state@, old(model).keybinds@, customs, *areas) == (
                final(model).state@,
                screen@,
            ),
        no_custom(old(model).keybinds@) ==> viewed(
            old(model).state@,
            old(model).keybinds@,
            Seq::empty(),
            *areas,
        ) == (final(model).state@, screen@),
        final(model).socket == old(model).socket,
        final(model).keybinds == old(model).keybinds,
{
    let mut text = Line::raw(" brptui ".to_owned());
    text.style = Style::new().fg(Color::White).bg(primary_color());
    let body = match &mut model.state {
        State::Connected(session) => Body::Connected(session.render(areas)),
        State::Disconnected => Body::Disconnected(
            Placed { area: areas.body, line: Line::raw("Disconnected".to_owned()) },
        ),
        State::Done => Body::Done,
    };
    let customs = model.keybinds.custom_answers(&model.state);
    let active_keybinds = model.keybinds.select_active(&model.state, &customs);
    assert(pairs_view(active_keybinds@) =~= active_keybinds.deep_view());
    let footer = KeybindDisplay(active_keybinds.as_slice()).render();
    let screen = Screen {
        header: Placed { area: areas.header, line: text },
        body,
        footer: Placed { area: areas.footer, line: footer },
    };
    proof {
        assert(viewed(old(model).state@, old(model).keybinds@, customs@, *areas) == (
            model.state@,
            screen@,
        ));
        if no_custom(old(model).keybinds@) {
            crate::keybinds::lemma_active_without_custom(
                old(model).keybinds@,
                model.state@,
                customs@,
                Seq::empty(),
            );
        }
    }
    screen
}

/// The split of the screen into header, body and footer.
pub fn screen_rows() -> (layout: Layout)
    ensures
        layout_view(layout) == screen_layout(),
{
    let mut constraints: Vec<Constraint> = Vec::new();
    constraints.push(Constraint::Length(1));
    constraints.push(Constraint::Fill(1));
    constraints.push(Constraint::Length(1));
    Layout { direction: Direction::Vertical, constraints, margin: 1, spacing: 1 }
}

/// The split of the body into the three panels.
pub fn body_columns() -> (layout: Layout)
    ensures
        layout_view(layout) == body_layout(),
{
    let mut constraints: Vec<Constraint> = Vec::new();
    constraints.push(Constraint::Fill(1));
    constraints.push(Constraint::Fill(1));
    constraints.push(Constraint::Fill(2));
    Layout { direction: Direction::Horizontal, constraints, margin: 0, spacing: 0 }
}

/// What is certain of the areas of a screen that fills `area`, however the layout solver shares
/// out the lengths: header, body and footer span the width of the screen without its margin, and
/// the three panels are as high as the body and start on its first row.
pub open spec fn laid_out(area: Rect, areas: Areas) -> bool {
    let inside = shrunk(area, 1);
    let body = shrunk(areas.body, 0);
    &&& areas.header.x == inside.x && areas.header.width == inside.width
    &&& areas.body.x == inside.x && areas.body.width == inside.width
    &&& areas.footer.x == inside.x && areas.footer.width == inside.width
    &&& areas.entities.y == body.y && areas.entities.height == body.height
    &&& areas.components.y == body.y && areas.components.height == body.height
    &&& areas.inspector.y == body.y && areas.inspector.height == body.height
}

/// The areas of a screen that fills `area`: the screen is split into header, body and footer,
/// and the body into the three panels.
pub fn layout(area: Rect) -> (areas: Areas)
    ensures
        laid_out(area, areas),
{
    let rows = split(&screen_rows(), area);
    let columns = split(&body_columns(), rows[1]);
    Areas {
        header: rows[0],
        body: rows[1],
        footer: rows[2],
        entities: columns[0],
        components: columns[1],
        inspector: columns[2],
    }
}

/// Repaints a screen that fills `area`: splits it into its areas and repaints into them. The
/// result is what [`viewed`] gives for the areas of the split and for some answers of the custom
/// tests.
pub fn view(model: &mut Model, area: Rect) -> (screen: Screen)
    ensures
        exists|customs: Seq<bool>, areas: Areas|
            laid_out(area, areas) && #[trigger] viewed(
                old(model).state@,
                old(model).keybinds@,
                customs,
                areas,
            ) == (final(model).state@, screen@),
        final(model).socket == old(model).socket,
        final(model).keybinds == old(model).keybinds,
{
    let areas = layout(area);
    view_in(model, &areas)
}

} // verus!
