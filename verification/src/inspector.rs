//! A tree view over a JSON value: the value flattened into indented lines, and the cursor and
//! scroll position that live across repaints.

use crate::json::{lemma_array_view, lemma_object_view, Json, JsonNumber, JsonValue, Number};
use crate::layout::{
    inner_if_some, row, row_of_area, saturating_difference, saturating_sum, Block, Placed,
    PlacedView, Rect,
};
use crate::paginated_list::{clamp_index, last_index};
use crate::style::{primary, primary_color, Color, Line, LineView, Span, SpanView, Style};
use crate::text::{decimal, push_decimal};
use vstd::prelude::*;
use vstd::string::StringExecFns;

verus! {

/// The kind of value that a selectable line shows.
#[derive(Debug, Clone, Copy, PartialEq, Eq, Structural)]
pub enum ValueType {
    Null,
    Bool,
    Number,
    String,
    Array,
    Object,
}

/// The cursor of the inspector: which selectable line is selected, where the window starts, and
/// what the selectable lines were at the last repaint.
#[derive(Debug, PartialEq, Eq)]
pub struct InspectorState {
    selected: usize,
    paths: Vec<String>,
    value_types: Vec<ValueType>,
    scroll: usize,
}

/// The mathematical value of an [`InspectorState`].
pub struct InspectorCursor {
    /// Index into the selectable lines.
    pub selected: nat,
    /// The path of each selectable line at the last repaint.
    pub paths: Seq<Seq<char>>,
    /// The kind of each selectable line at the last repaint.
    pub value_types: Seq<ValueType>,
    /// Index of the first visible line.
    pub scroll: nat,
}

impl View for InspectorState {
    type V = InspectorCursor;

    closed spec fn view(&self) -> InspectorCursor {
        InspectorCursor {
            selected: self.selected as nat,
            paths: self.paths.deep_view(),
            value_types: self.value_types@,
            scroll: self.scroll as nat,
        }
    }
}

impl DeepView for InspectorState {
    type V = InspectorCursor;

    open spec fn deep_view(&self) -> InspectorCursor {
        self@
    }
}

impl InspectorCursor {
    /// The cursor one selectable line up; it stays on the first.
    pub open spec fn previous(self) -> InspectorCursor {
        InspectorCursor {
            selected: if self.selected == 0 {
                0
            } else {
                (self.selected - 1) as nat
            },
            ..self
        }
    }

    /// The cursor one selectable line down; it stays on the last.
    pub open spec fn next(self) -> InspectorCursor {
        InspectorCursor {
            selected: if self.selected >= last_index(self.value_types.len()) {
                last_index(self.value_types.len())
            } else {
                self.selected + 1
            },
            ..self
        }
    }

    /// The cursor on the first selectable line.
    pub open spec fn first(self) -> InspectorCursor {
        InspectorCursor { selected: 0, ..self }
    }

    /// The cursor on the last selectable line.
    pub open spec fn last(self) -> InspectorCursor {
        InspectorCursor { selected: last_index(self.value_types.len()), ..self }
    }
}

impl Default for InspectorState {
    fn default() -> (state: Self)
        ensures
            state@ == (InspectorCursor {
                selected: 0,
                paths: Seq::empty(),
                value_types: Seq::empty(),
                scroll: 0,
            }),
    {
        let state = InspectorState {
            selected: 0,
            paths: Vec::new(),
            value_types: Vec::new(),
            scroll: 0,
        };
        assert(state.paths.deep_view() =~= Seq::empty());
        state
    }
}

impl InspectorState {
    /// Moves the selection one selectable line up, stopping at the first.
    pub fn select_previous(&mut self)
        ensures
            final(self)@ == old(self)@.previous(),
    {
        if self.selected > 0 {
            self.selected = self.selected - 1;
        }
    }

    /// Moves the selection one selectable line down, stopping at the last.
    pub fn select_next(&mut self)
        ensures
            final(self)@ == old(self)@.next(),
    {
        let count = self.value_types.len();
        let last = if count == 0 {
            0
        } else {
            count - 1
        };
        if self.selected >= last {
            self.selected = last;
        } else {
            self.selected = self.selected + 1;
        }
    }

    /// Moves the selection to the first selectable line.
    pub fn select_first(&mut self)
        ensures
            final(self)@ == old(self)@.first(),
    {
        self.selected = 0;
    }

    /// Moves the selection to the last selectable line.
    pub fn select_last(&mut self)
        ensures
            final(self)@ == old(self)@.last(),
    {
        let count = self.value_types.len();
        self.selected = if count == 0 {
            0
        } else {
            count - 1
        };
    }

    /// The path of the selected line, as of the last repaint.
    pub fn selected_path(&self) -> (path: &str)
        requires
            self@.selected < self@.paths.len(),
        ensures
            path@ == self@.paths[self@.selected as int],
    {
        self.paths[self.selected].as_str()
    }

    /// The kind of value on the selected line, as of the last repaint.
    pub fn selected_value_type(&self) -> (value_type: ValueType)
        requires
            self@.selected < self@.value_types.len(),
        ensures
            value_type == self@.value_types[self@.selected as int],
    {
        self.value_types[self.selected]
    }

    /// The kind of value on the selected line, if the last repaint left a line there.
    pub fn selected_kind(&self) -> (kind: Option<ValueType>)
        ensures
            kind == if self@.selected < self@.value_types.len() {
                Some(self@.value_types[self@.selected as int])
            } else {
                None
            },
    {
        if self.selected < self.value_types.len() {
            Some(self.value_types[self.selected])
        } else {
            None
        }
    }
}

/// A value that takes one line.
#[derive(Debug, PartialEq, Eq)]
pub enum PrimitiveValue {
    Null,
    Bool(bool),
    Number(JsonNumber),
    String(String),
}

/// The mathematical value of a [`PrimitiveValue`].
pub enum Primitive {
    Null,
    Bool(bool),
    Number(Number),
    String(Seq<char>),
}

impl View for PrimitiveValue {
    type V = Primitive;

    open spec fn view(&self) -> Primitive {
        match self {
            PrimitiveValue::Null => Primitive::Null,
            PrimitiveValue::Bool(b) => Primitive::Bool(*b),
            PrimitiveValue::Number(n) => Primitive::Number(n@),
            PrimitiveValue::String(s) => Primitive::String(s@),
        }
    }
}

/// What a line of the flattened tree shows.
#[derive(Debug, PartialEq, Eq)]
pub enum InspectorLineKind {
    ObjectStart,
    ArrayStart,
    Item { value: PrimitiveValue },
    ArrayEnd,
    ObjectEnd,
}

/// The mathematical value of an [`InspectorLineKind`].
pub enum LineKind {
    ObjectStart,
    ArrayStart,
    Item(Primitive),
    ArrayEnd,
    ObjectEnd,
}

impl View for InspectorLineKind {
    type V = LineKind;

    open spec fn view(&self) -> LineKind {
        match self {
            InspectorLineKind::ObjectStart => LineKind::ObjectStart,
            InspectorLineKind::ArrayStart => LineKind::ArrayStart,
            InspectorLineKind::Item { value } => LineKind::Item(value@),
            InspectorLineKind::ArrayEnd => LineKind::ArrayEnd,
            InspectorLineKind::ObjectEnd => LineKind::ObjectEnd,
        }
    }
}

/// One line of the flattened tree.
#[derive(Debug, PartialEq, Eq)]
pub struct InspectorLine {
    /// The key under which the value sits in its object; array items and closing lines have none.
    pub name: Option<String>,
    /// Where the value sits in the whole value, such as `.a.b[2]`.
    pub path: String,
    /// How deep the line is nested, which sets its indent.
    pub indent_level: u16,
    pub kind: InspectorLineKind,
}

/// The mathematical value of an [`InspectorLine`].
pub struct FlatLine {
    pub name: Option<Seq<char>>,
    pub path: Seq<char>,
    pub depth: nat,
    pub kind: LineKind,
}

impl View for InspectorLine {
    type V = FlatLine;

    open spec fn view(&self) -> FlatLine {
        FlatLine {
            name: match self.name {
                Some(name) => Some(name@),
                None => None,
            },
            path: self.path@,
            depth: self.indent_level as nat,
            kind: self.kind@,
        }
    }
}

impl DeepView for InspectorLine {
    type V = FlatLine;

    open spec fn deep_view(&self) -> FlatLine {
        self@
    }
}

impl FlatLine {
    /// The kind of value that the line shows; closing lines show none.
    pub open spec fn value_type(self) -> Option<ValueType> {
        match self.kind {
            LineKind::Item(Primitive::Null) => Some(ValueType::Null),
            LineKind::Item(Primitive::Bool(_)) => Some(ValueType::Bool),
            LineKind::Item(Primitive::Number(_)) => Some(ValueType::Number),
            LineKind::Item(Primitive::String(_)) => Some(ValueType::String),
            LineKind::ArrayStart => Some(ValueType::Array),
            LineKind::ObjectStart => Some(ValueType::Object),
            LineKind::ArrayEnd => None,
            LineKind::ObjectEnd => None,
        }
    }

    /// Whether the cursor can rest on the line: on every line but the closing ones.
    pub open spec fn selectable(self) -> bool {
        self.value_type() is Some
    }
}

impl ValueType {
    /// The kind of a value that takes one line.
    pub fn from(value: &PrimitiveValue) -> (value_type: ValueType)
        ensures
            Some(value_type) == (FlatLine {
                name: None,
                path: Seq::empty(),
                depth: 0,
                kind: LineKind::Item(value@),
            }).value_type(),
    {
        match value {
            PrimitiveValue::Null => ValueType::Null,
            PrimitiveValue::Bool(_) => ValueType::Bool,
            PrimitiveValue::Number(_) => ValueType::Number,
            PrimitiveValue::String(_) => ValueType::String,
        }
    }
}

impl InspectorLine {
    /// The kind of value that the line shows; closing lines show none.
    pub fn value_type(&self) -> (value_type: Option<ValueType>)
        ensures
            value_type == self@.value_type(),
    {
        match &self.kind {
            InspectorLineKind::Item { value } => Some(ValueType::from(value)),
            InspectorLineKind::ArrayStart => Some(ValueType::Array),
            InspectorLineKind::ObjectStart => Some(ValueType::Object),
            _ => None,
        }
    }

    /// Whether the cursor can rest on the line.
    pub fn selectable(&self) -> (selectable: bool)
        ensures
            selectable == self@.selectable(),
    {
        self.value_type().is_some()
    }
}

/// The deepest indent level that is told apart.
pub const MAX_INDENT_LEVEL: u16 = 0xffff;

/// The indent level one below `depth`; levels beyond the deepest one are not told apart.
pub open spec fn deeper(depth: nat) -> nat {
    if depth >= MAX_INDENT_LEVEL {
        MAX_INDENT_LEVEL as nat
    } else {
        depth + 1
    }
}

/// The path of item `index` of the array at `base`.
pub open spec fn index_path(base: Seq<char>, index: nat) -> Seq<char> {
    base + "["@ + decimal(index) + "]"@
}

/// The path of member `name` of the object at `base`.
pub open spec fn member_path(base: Seq<char>, name: Seq<char>) -> Seq<char> {
    base + "."@ + name
}

/// The value that takes one line, if `value` is no array and no object.
pub open spec fn primitive_of(value: Json) -> Primitive {
    match value {
        Json::Bool(b) => Primitive::Bool(b),
        Json::Number(n) => Primitive::Number(n),
        Json::String(s) => Primitive::String(s),
        _ => Primitive::Null,
    }
}

/// The lines of `value` in a pre-order walk: a primitive takes one line; an array or object takes
/// an opening line, the lines of its items or members one level deeper, and a closing line.
/// Only the first line carries `name`.
pub open spec fn flatten(name: Option<Seq<char>>, value: Json, path: Seq<char>, depth: nat) -> Seq<
    FlatLine,
>
    decreases value,
{
    match value {
        Json::Array(items) => seq![FlatLine { name, path, depth, kind: LineKind::ArrayStart }]
            + flatten_items(items, path, deeper(depth)) + seq![
            FlatLine { name: None, path, depth, kind: LineKind::ArrayEnd },
        ],
        Json::Object(members) => seq![FlatLine { name, path, depth, kind: LineKind::ObjectStart }]
            + flatten_members(members, path, deeper(depth)) + seq![
            FlatLine { name: None, path, depth, kind: LineKind::ObjectEnd },
        ],
        _ => seq![FlatLine { name, path, depth, kind: LineKind::Item(primitive_of(value)) }],
    }
}

/// The lines of the items of the array at `path`, one after the other.
pub open spec fn flatten_items(items: Seq<Json>, path: Seq<char>, depth: nat) -> Seq<FlatLine>
    decreases items,
{
    if items.len() == 0 {
        Seq::empty()
    } else {
        flatten_items(items.drop_last(), path, depth) + flatten(
            None,
            items.last(),
            index_path(path, (items.len() - 1) as nat),
            depth,
        )
    }
}

/// The lines of the members of the object at `path`, one after the other.
pub open spec fn flatten_members(members: Seq<(Seq<char>, Json)>, path: Seq<char>, depth: nat) -> Seq<
    FlatLine,
>
    decreases members,
{
    if members.len() == 0 {
        Seq::empty()
    } else {
        flatten_members(members.drop_last(), path, depth) + flatten(
            Some(members.last().0),
            members.last().1,
            member_path(path, members.last().0),
            depth,
        )
    }
}

/// The lines of a whole value: it has no name, the empty path, and no indent.
pub open spec fn flatten_value_spec(value: Json) -> Seq<FlatLine> {
    flatten(None, value, Seq::empty(), 0)
}

/// The view of an optional string.
pub open spec fn name_view(name: Option<&str>) -> Option<Seq<char>> {
    match name {
        Some(name) => Some(name@),
        None => None,
    }
}

fn owned_name(name: Option<&str>) -> (owned: Option<String>)
    ensures
        owned is Some == name is Some,
        owned matches Some(text) ==> name_view(name) == Some(text@),
{
    match name {
        Some(name) => Some(name.to_owned()),
        None => None,
    }
}

/// Appends the lines of `value` to `out`.
pub fn flatten_value_inner(
    name: Option<&str>,
    value: &JsonValue,
    out: &mut Vec<InspectorLine>,
    base_path: String,
    indent_level: u16,
)
    ensures
        final(out).deep_view() == old(out).deep_view() + flatten(
            name_view(name),
            value@,
            base_path@,
            indent_level as nat,
        ),
    decreases value,
{
    let ghost before = out.deep_view();
    let ghost path = base_path@;
    let ghost depth = indent_level as nat;
    let inner = if indent_level == MAX_INDENT_LEVEL {
        MAX_INDENT_LEVEL
    } else {
        indent_level + 1
    };
    match value {
        JsonValue::Array(items) => {
            proof {
                lemma_array_view(*items);
            }
            let ghost views = items.deep_view();
            let ghost start = FlatLine {
                name: name_view(name),
                path,
                depth,
                kind: LineKind::ArrayStart,
            };
            out.push(
                InspectorLine {
                    name: owned_name(name),
                    path: base_path.clone(),
                    indent_level,
                    kind: InspectorLineKind::ArrayStart,
                },
            );
            let mut i: usize = 0;
            while i < items.len()
                invariant
                    value matches JsonValue::Array(v) && v == items,
                    views == items.deep_view(),
                    i <= items.len(),
                    path == base_path@,
                    inner == deeper(depth),
                    out.deep_view() == before + seq![start] + flatten_items(
                        views.take(i as int),
                        path,
                        deeper(depth),
                    ),
                decreases items.len() - i,
            {
                let mut item_path = base_path.clone();
                item_path.append("[");
                push_decimal(&mut item_path, i as u64);
                item_path.append("]");
                flatten_value_inner(None, &items[i], out, item_path, inner);
                proof {
                    let next = views.take(i + 1);
                    assert(next.drop_last() =~= views.take(i as int));
                }
                i = i + 1;
            }
            assert(views.take(i as int) =~= views);
            let ghost inside = out.deep_view();
            out.push(
                InspectorLine {
                    name: None,
                    path: base_path,
                    indent_level,
                    kind: InspectorLineKind::ArrayEnd,
                },
            );
            assert(out.deep_view() =~= inside + seq![
                FlatLine { name: None, path, depth, kind: LineKind::ArrayEnd },
            ]);
        },
        JsonValue::Object(members) => {
            proof {
                lemma_object_view(*members);
            }
            let ghost views = members.deep_view();
            let ghost start = FlatLine {
                name: name_view(name),
                path,
                depth,
                kind: LineKind::ObjectStart,
            };
            out.push(
                InspectorLine {
                    name: owned_name(name),
                    path: base_path.clone(),
                    indent_level,
                    kind: InspectorLineKind::ObjectStart,
                },
            );
            let mut i: usize = 0;
            while i < members.len()
                invariant
                    value matches JsonValue::Object(v) && v == members,
                    views == members.deep_view(),
                    i <= members.len(),
                    path == base_path@,
                    inner == deeper(depth),
                    out.deep_view() == before + seq![start] + flatten_members(
                        views.take(i as int),
                        path,
                        deeper(depth),
                    ),
                decreases members.len() - i,
            {
                let key = members[i].0.as_str();
                let mut member_path_text = base_path.clone();
                member_path_text.append(".");
                member_path_text.append(key);
                flatten_value_inner(Some(key), &members[i].1, out, member_path_text, inner);
                proof {
                    let next = views.take(i + 1);
                    assert(next.drop_last() =~= views.take(i as int));
                }
                i = i + 1;
            }
            assert(views.take(i as int) =~= views);
            let ghost inside = out.deep_view();
            out.push(
                InspectorLine {
                    name: None,
                    path: base_path,
                    indent_level,
                    kind: InspectorLineKind::ObjectEnd,
                },
            );
            assert(out.deep_view() =~= inside + seq![
                FlatLine { name: None, path, depth, kind: LineKind::ObjectEnd },
            ]);
        },
        _ => {
            let primitive = match value {
                JsonValue::Bool(b) => PrimitiveValue::Bool(*b),
                JsonValue::Number(n) => PrimitiveValue::Number(n.clone()),
                JsonValue::String(s) => PrimitiveValue::String(s.clone()),
                _ => PrimitiveValue::Null,
            };
            out.push(
                InspectorLine {
                    name: owned_name(name),
                    path: base_path,
                    indent_level,
                    kind: InspectorLineKind::Item { value: primitive },
                },
            );
        },
    }
}

/// The lines of a whole value.
pub fn flatten_value(value: &JsonValue) -> (lines: Vec<InspectorLine>)
    ensures
        lines.deep_view() == flatten_value_spec(value@),
{
    let mut lines: Vec<InspectorLine> = Vec::new();
    flatten_value_inner(None, value, &mut lines, String::new(), 0);
    lines
}

/// The value that a one-line value stands for.
pub open spec fn json_of_primitive(value: Primitive) -> Json {
    match value {
        Primitive::Null => Json::Null,
        Primitive::Bool(b) => Json::Bool(b),
        Primitive::Number(n) => Json::Number(n),
        Primitive::String(s) => Json::String(s),
    }
}

/// Whether a line opens an array or an object.
pub open spec fn is_opening(kind: LineKind) -> bool {
    kind is ArrayStart || kind is ObjectStart
}

/// Reads back, from its last line to its first, the value whose lines end just before `end`:
/// the value, and the index of its first line. Only the kinds and the names of the lines are
/// read.
pub open spec fn read_value(lines: Seq<FlatLine>, end: int) -> (Json, int)
    decreases end, 0nat,
{
    if end <= 0 || end > lines.len() {
        (Json::Null, 0)
    } else {
        match lines[end - 1].kind {
            LineKind::Item(value) => (json_of_primitive(value), end - 1),
            LineKind::ArrayEnd => {
                let (items, start) = read_items(lines, end - 1);
                (Json::Array(items), start)
            },
            LineKind::ObjectEnd => {
                let (members, start) = read_members(lines, end - 1);
                (Json::Object(members), start)
            },
            _ => (Json::Null, 0),
        }
    }
}

/// Reads back the items whose lines end just before `end`, as far back as the line that opens
/// their array: the items, and the index of that line.
pub open spec fn read_items(lines: Seq<FlatLine>, end: int) -> (Seq<Json>, int)
    decreases end, 1nat,
{
    if end <= 0 || end > lines.len() {
        (Seq::empty(), 0)
    } else if is_opening(lines[end - 1].kind) {
        (Seq::empty(), end - 1)
    } else {
        let (value, start) = read_value(lines, end);
        if 0 <= start < end {
            let (front, opening) = read_items(lines, start);
            (front.push(value), opening)
        } else {
            (Seq::empty(), 0)
        }
    }
}

/// Reads back the members whose lines end just before `end`, as far back as the line that opens
/// their object: the members, and the index of that line. The name of a member stands on the
/// first line of its value.
pub open spec fn read_members(lines: Seq<FlatLine>, end: int) -> (Seq<(Seq<char>, Json)>, int)
    decreases end, 1nat,
{
    if end <= 0 || end > lines.len() {
        (Seq::empty(), 0)
    } else if is_opening(lines[end - 1].kind) {
        (Seq::empty(), end - 1)
    } else {
        let (value, start) = read_value(lines, end);
        if 0 <= start < end {
            let (front, opening) = read_members(lines, start);
            let name = match lines[start].name {
                Some(name) => name,
                None => Seq::empty(),
            };
            (front.push((name, value)), opening)
        } else {
            (Seq::empty(), 0)
        }
    }
}

/// The value that a run of lines stands for.
pub open spec fn rebuild(lines: Seq<FlatLine>) -> Json {
    read_value(lines, lines.len() as int).0
}

/// A value has at least one line; its first line carries its name, and its last line opens
/// nothing.
pub proof fn lemma_flatten_ends(name: Option<Seq<char>>, value: Json, path: Seq<char>, depth: nat)
    ensures
        flatten(name, value, path, depth).len() >= 1,
        flatten(name, value, path, depth).first().name == name,
        !is_opening(flatten(name, value, path, depth).last().kind),
{
}

proof fn lemma_read_value(
    before: Seq<FlatLine>,
    name: Option<Seq<char>>,
    value: Json,
    path: Seq<char>,
    depth: nat,
    after: Seq<FlatLine>,
)
    ensures
        read_value(
            before + flatten(name, value, path, depth) + after,
            (before.len() + flatten(name, value, path, depth).len()) as int,
        ) == (value, before.len() as int),
    decreases value,
{
    let own = flatten(name, value, path, depth);
    let lines = before + own + after;
    match value {
        Json::Array(items) => {
            let opening = FlatLine { name, path, depth, kind: LineKind::ArrayStart };
            let closing = FlatLine { name: None, path, depth, kind: LineKind::ArrayEnd };
            let inside = flatten_items(items, path, deeper(depth));
            let head = before.push(opening);
            let tail = seq![closing] + after;
            assert(lines =~= head + inside + tail);
            lemma_read_items(head, items, path, deeper(depth), tail);
        },
        Json::Object(members) => {
            let opening = FlatLine { name, path, depth, kind: LineKind::ObjectStart };
            let closing = FlatLine { name: None, path, depth, kind: LineKind::ObjectEnd };
            let inside = flatten_members(members, path, deeper(depth));
            let head = before.push(opening);
            let tail = seq![closing] + after;
            assert(lines =~= head + inside + tail);
            lemma_read_members(head, members, path, deeper(depth), tail);
        },
        _ => {},
    }
}

proof fn lemma_read_items(
    before: Seq<FlatLine>,
    items: Seq<Json>,
    path: Seq<char>,
    depth: nat,
    after: Seq<FlatLine>,
)
    requires
        before.len() > 0,
        is_opening(before.last().kind),
    ensures
        read_items(
            before + flatten_items(items, path, depth) + after,
            (before.len() + flatten_items(items, path, depth).len()) as int,
        ) == (items, before.len() - 1),
    decreases items,
{
    let inside = flatten_items(items, path, depth);
    let lines = before + inside + after;
    if items.len() > 0 {
        let front = flatten_items(items.drop_last(), path, depth);
        let item_path = index_path(path, (items.len() - 1) as nat);
        let own = flatten(None, items.last(), item_path, depth);
        assert(lines =~= (before + front) + own + after);
        lemma_read_value(before + front, None, items.last(), item_path, depth, after);
        assert(lines =~= before + front + (own + after));
        lemma_read_items(before, items.drop_last(), path, depth, own + after);
    }
}

proof fn lemma_read_members(
    before: Seq<FlatLine>,
    members: Seq<(Seq<char>, Json)>,
    path: Seq<char>,
    depth: nat,
    after: Seq<FlatLine>,
)
    requires
        before.len() > 0,
        is_opening(before.last().kind),
    ensures
        read_members(
            before + flatten_members(members, path, depth) + after,
            (before.len() + flatten_members(members, path, depth).len()) as int,
        ) == (members, before.len() - 1),
    decreases members,
{
    let inside = flatten_members(members, path, depth);
    let lines = before + inside + after;
    if members.len() > 0 {
        let front = flatten_members(members.drop_last(), path, depth);
        let key = members.last().0;
        let own = flatten(Some(key), members.last().1, member_path(path, key), depth);
        assert(lines =~= (before + front) + own + after);
        lemma_read_value(
            before + front,
            Some(key),
            members.last().1,
            member_path(path, key),
            depth,
            after,
        );
        assert(lines =~= before + front + (own + after));
        lemma_read_members(before, members.drop_last(), path, depth, own + after);
    }
}

/// The lines of a value hold the whole value: read back, they give the value itself, the
/// members of every object in their order.
pub proof fn lemma_flatten_round_trip(value: Json)
    ensures
        rebuild(flatten_value_spec(value)) == value,
{
    let lines = flatten_value_spec(value);
    lemma_read_value(Seq::empty(), None, value, Seq::empty(), 0, Seq::empty());
}

/// How many lines the cursor can rest on.
pub open spec fn selectable_count(lines: Seq<FlatLine>) -> nat
    decreases lines.len(),
{
    if lines.len() == 0 {
        0
    } else if lines.last().selectable() {
        selectable_count(lines.drop_last()) + 1
    } else {
        selectable_count(lines.drop_last())
    }
}

/// The paths of the lines the cursor can rest on, in order.
pub open spec fn selectable_paths(lines: Seq<FlatLine>) -> Seq<Seq<char>>
    decreases lines.len(),
{
    if lines.len() == 0 {
        Seq::empty()
    } else if lines.last().selectable() {
        selectable_paths(lines.drop_last()).push(lines.last().path)
    } else {
        selectable_paths(lines.drop_last())
    }
}

/// The kinds of value on the lines the cursor can rest on, in order.
pub open spec fn selectable_types(lines: Seq<FlatLine>) -> Seq<ValueType>
    decreases lines.len(),
{
    if lines.len() == 0 {
        Seq::empty()
    } else if lines.last().selectable() {
        selectable_types(lines.drop_last()).push(lines.last().value_type()->0)
    } else {
        selectable_types(lines.drop_last())
    }
}

/// The index among all lines of selectable line number `selected`, or 0 if there are not that
/// many selectable lines.
pub open spec fn selected_line(lines: Seq<FlatLine>, selected: nat) -> nat
    decreases lines.len(),
{
    if lines.len() == 0 {
        0
    } else if lines.last().selectable() && selectable_count(lines.drop_last()) == selected {
        (lines.len() - 1) as nat
    } else {
        selected_line(lines.drop_last(), selected)
    }
}

/// There are as many paths and kinds as there are selectable lines.
pub proof fn lemma_selectable_lengths(lines: Seq<FlatLine>)
    ensures
        selectable_paths(lines).len() == selectable_count(lines),
        selectable_types(lines).len() == selectable_count(lines),
        selectable_count(lines) <= lines.len(),
    decreases lines.len(),
{
    if lines.len() > 0 {
        lemma_selectable_lengths(lines.drop_last());
    }
}

/// The selected line is a line, and it is selectable where the selection points at one.
pub proof fn lemma_selected_line(lines: Seq<FlatLine>, selected: nat)
    ensures
        selected_line(lines, selected) <= last_index(lines.len()),
        selected < selectable_count(lines) ==> lines[selected_line(lines, selected) as int].selectable()
            && selectable_count(lines.take(selected_line(lines, selected) as int)) == selected,
    decreases lines.len(),
{
    if lines.len() > 0 {
        let front = lines.drop_last();
        lemma_selected_line(front, selected);
        let found_last = lines.last().selectable() && selectable_count(front) == selected;
        if !found_last && selected < selectable_count(lines) {
            let at = selected_line(front, selected) as int;
            assert(front.take(at) =~= lines.take(at));
        }
    }
}

/// How many lines of context the window keeps above and below the selected line.
pub const SCROLL_MARGIN: u16 = 6;

/// Where the window starts after a repaint that finds the selected line at index `line`: one line
/// up if the selected line is within the margin of the top, one line down if it is within the
/// margin of the bottom, and never so far down that the window would run past the last line.
pub open spec fn scrolled(scroll: nat, line: nat, height: nat, lines: nat) -> nat {
    let up = if line < scroll + SCROLL_MARGIN && scroll > 0 {
        (scroll - 1) as nat
    } else {
        scroll
    };
    let reach = if height > SCROLL_MARGIN {
        (height - SCROLL_MARGIN) as nat
    } else {
        0
    };
    let down = if line > up + reach {
        up + 1
    } else {
        up
    };
    let limit = if lines > height {
        (lines - height) as nat
    } else {
        0
    };
    if down > limit {
        limit
    } else {
        down
    }
}

impl InspectorCursor {
    /// The cursor after a repaint of `lines` in a window of `height` lines: the selectable lines
    /// are noted, the selection is pulled back onto the last of them, and the window follows the
    /// selection by at most one line.
    pub open spec fn updated(self, lines: Seq<FlatLine>, height: nat) -> InspectorCursor {
        let selected = clamp_index(self.selected, selectable_count(lines));
        InspectorCursor {
            selected,
            paths: selectable_paths(lines),
            value_types: selectable_types(lines),
            scroll: scrolled(self.scroll, selected_line(lines, selected), height, lines.len()),
        }
    }
}

/// After a repaint the selection points at a selectable line, and the window at a line.
pub proof fn lemma_updated_in_range(cursor: InspectorCursor, lines: Seq<FlatLine>, height: nat)
    ensures
        cursor.updated(lines, height).selected <= last_index(
            cursor.updated(lines, height).value_types.len(),
        ),
        cursor.updated(lines, height).value_types.len() == cursor.updated(
            lines,
            height,
        ).paths.len(),
        cursor.updated(lines, height).scroll + height <= lines.len() || cursor.updated(
            lines,
            height,
        ).scroll == 0,
        cursor.updated(lines, height).scroll <= cursor.scroll + 1,
        cursor.scroll <= cursor.updated(lines, height).scroll + 1 || cursor.updated(
            lines,
            height,
        ).scroll + height == lines.len() || cursor.updated(lines, height).scroll == 0,
{
    lemma_selectable_lengths(lines);
}

impl InspectorState {
    /// Notes the paths of the selectable lines.
    pub fn update_paths(&mut self, flat_map: &Vec<InspectorLine>)
        ensures
            final(self)@ == (InspectorCursor {
                paths: selectable_paths(flat_map.deep_view()),
                ..old(self)@
            }),
    {
        let ghost lines = flat_map.deep_view();
        let mut paths: Vec<String> = Vec::new();
        let mut i: usize = 0;
        while i < flat_map.len()
            invariant
                lines == flat_map.deep_view(),
                i <= flat_map.len(),
                paths.deep_view() == selectable_paths(lines.take(i as int)),
            decreases flat_map.len() - i,
        {
            proof {
                assert(lines.take(i + 1).drop_last() =~= lines.take(i as int));
            }
            if flat_map[i].selectable() {
                paths.push(flat_map[i].path.clone());
            }
            i = i + 1;
        }
        assert(lines.take(i as int) =~= lines);
        self.paths = paths;
    }

    /// Notes the kinds of value on the selectable lines.
    pub fn update_value_types(&mut self, flat_map: &Vec<InspectorLine>)
        ensures
            final(self)@ == (InspectorCursor {
                value_types: selectable_types(flat_map.deep_view()),
                ..old(self)@
            }),
    {
        let ghost lines = flat_map.deep_view();
        let mut value_types: Vec<ValueType> = Vec::new();
        let mut i: usize = 0;
        while i < flat_map.len()
            invariant
                lines == flat_map.deep_view(),
                i <= flat_map.len(),
                value_types@ == selectable_types(lines.take(i as int)),
            decreases flat_map.len() - i,
        {
            proof {
                assert(lines.take(i + 1).drop_last() =~= lines.take(i as int));
            }
            match flat_map[i].value_type() {
                Some(value_type) => {
                    value_types.push(value_type);
                },
                None => {},
            }
            i = i + 1;
        }
        assert(lines.take(i as int) =~= lines);
        self.value_types = value_types;
    }

    /// Pulls the selection back onto the last selectable line.
    pub fn update_selected(&mut self, flat_map: &Vec<InspectorLine>)
        ensures
            final(self)@ == (InspectorCursor {
                selected: clamp_index(
                    old(self)@.selected,
                    selectable_count(flat_map.deep_view()),
                ),
                ..old(self)@
            }),
    {
        let count = count_selectable(flat_map);
        let last = if count == 0 {
            0
        } else {
            count - 1
        };
        if self.selected > last {
            self.selected = last;
        }
    }

    /// Lets the window follow the selection, by at most one line.
    pub fn update_scroll(&mut self, flat_map: &Vec<InspectorLine>, height: u16)
        ensures
            final(self)@ == (InspectorCursor {
                scroll: scrolled(
                    old(self)@.scroll,
                    selected_line(flat_map.deep_view(), old(self)@.selected),
                    height as nat,
                    flat_map.len() as nat,
                ),
                ..old(self)@
            }),
    {
        let line = find_selected_line(flat_map, self.selected);
        let height = height as usize;
        let margin = SCROLL_MARGIN as usize;
        let mut scroll = self.scroll;
        if scroll > 0 && (line < margin || line - margin < scroll) {
            scroll = scroll - 1;
        }
        let reach = if height > margin {
            height - margin
        } else {
            0
        };
        if line >= reach && line - reach > scroll {
            scroll = scroll + 1;
        }
        let limit = if flat_map.len() > height {
            flat_map.len() - height
        } else {
            0
        };
        if scroll > limit {
            scroll = limit;
        }
        self.scroll = scroll;
    }
}

/// How many lines the cursor can rest on.
pub fn count_selectable(flat_map: &Vec<InspectorLine>) -> (count: usize)
    ensures
        count == selectable_count(flat_map.deep_view()),
{
    let ghost lines = flat_map.deep_view();
    let mut count: usize = 0;
    let mut i: usize = 0;
    while i < flat_map.len()
        invariant
            lines == flat_map.deep_view(),
            i <= flat_map.len(),
            count <= i,
            count == selectable_count(lines.take(i as int)),
        decreases flat_map.len() - i,
    {
        proof {
            assert(lines.take(i + 1).drop_last() =~= lines.take(i as int));
        }
        if flat_map[i].selectable() {
            count = count + 1;
        }
        i = i + 1;
    }
    assert(lines.take(i as int) =~= lines);
    count
}

/// The index among all lines of selectable line number `selected`, or 0 if there are not that
/// many selectable lines.
pub fn find_selected_line(flat_map: &Vec<InspectorLine>, selected: usize) -> (line: usize)
    ensures
        line == selected_line(flat_map.deep_view(), selected as nat),
        line <= last_index(flat_map.len() as nat),
{
    let ghost lines = flat_map.deep_view();
    let mut line: usize = 0;
    let mut seen: usize = 0;
    let mut i: usize = 0;
    while i < flat_map.len()
        invariant
            lines == flat_map.deep_view(),
            i <= flat_map.len(),
            seen <= i,
            seen == selectable_count(lines.take(i as int)),
            line == selected_line(lines.take(i as int), selected as nat),
            line <= last_index(i as nat),
        decreases flat_map.len() - i,
    {
        proof {
            assert(lines.take(i + 1).drop_last() =~= lines.take(i as int));
        }
        if flat_map[i].selectable() {
            if seen == selected {
                line = i;
            }
            seen = seen + 1;
        }
        i = i + 1;
    }
    assert(lines.take(i as int) =~= lines);
    line
}

/// How many columns one level of nesting indents a line.
pub const INDENT_AMOUNT: u16 = 3;

/// The text that stands for a value that takes one line.
pub open spec fn primitive_text(value: Primitive) -> Seq<char> {
    match value {
        Primitive::Null => "None"@,
        Primitive::Bool(b) => if b {
            "true"@
        } else {
            "false"@
        },
        Primitive::Number(n) => n.text(),
        Primitive::String(s) => s,
    }
}

/// The text that a line shows after its name: a bracket, or the value itself.
pub open spec fn glyph(kind: LineKind) -> Seq<char> {
    match kind {
        LineKind::ObjectStart => "{"@,
        LineKind::ObjectEnd => "}"@,
        LineKind::ArrayStart => "["@,
        LineKind::ArrayEnd => "]"@,
        LineKind::Item(value) => primitive_text(value),
    }
}

/// The style of a name: bold, and in the accent colour on the selected line.
pub open spec fn name_style(selected: bool) -> Style {
    Style {
        fg: Some(
            if selected {
                primary()
            } else {
                Color::Reset
            },
        ),
        bg: None,
        bold: true,
        dim: false,
    }
}

/// The style of a value: bold and in the accent colour on the selected line, plain elsewhere.
pub open spec fn value_style(selected: bool) -> Style {
    if selected {
        Style { fg: Some(primary()), bg: None, bold: true, dim: false }
    } else {
        Style::plain()
    }
}

/// The indent of a line at `depth`, as far as it can be counted.
pub open spec fn indent_of(depth: nat) -> nat {
    if depth * INDENT_AMOUNT > 0xffff {
        0xffff
    } else {
        (depth * INDENT_AMOUNT) as nat
    }
}

/// The text of a line as it is drawn: the name in bold with `": "` after it, then the bracket or
/// the value.
pub open spec fn line_of(line: FlatLine, selected: bool) -> LineView {
    let value = SpanView { content: glyph(line.kind), style: value_style(selected) };
    LineView {
        spans: match line.name {
            Some(name) => seq![
                SpanView { content: name, style: name_style(selected) },
                SpanView { content: ": "@, style: name_style(selected) },
                value,
            ],
            None => seq![value],
        },
        style: Style::plain(),
    }
}

/// The part of a row that is left after an indent of `indent` columns.
pub open spec fn indented(row: Rect, indent: nat) -> Rect {
    Rect {
        x: saturating_sum(row.x as int, indent as int),
        width: saturating_difference(row.width as int, indent as int),
        ..row
    }
}

/// The rows of a window on `lines` that starts at line `scroll` and fills `area`: each line on a
/// row of its own, behind its indent. The selected line is marked only while the panel has the
/// focus.
pub open spec fn visible_rows(
    lines: Seq<FlatLine>,
    scroll: nat,
    area: Rect,
    selected: nat,
    focused: bool,
) -> Seq<PlacedView> {
    let end = if scroll + area.height < lines.len() {
        scroll + area.height
    } else {
        lines.len() as int
    };
    if scroll >= end {
        Seq::empty()
    } else {
        Seq::new(
            (end - scroll) as nat,
            |i: int|
                PlacedView {
                    area: indented(row_of_area(area, i), indent_of(lines[scroll + i].depth)),
                    line: line_of(lines[scroll + i], focused && scroll + i == selected),
                },
        )
    }
}

/// What is drawn in place of an object without members.
pub open spec fn nothing_to_show() -> LineView {
    LineView {
        spans: seq![SpanView { content: "Nothing to show"@, style: Style::plain() }],
        style: Style { bold: true, ..Style::plain() },
    }
}

/// The inspector as it is drawn.
#[derive(Debug, PartialEq, Eq)]
pub struct InspectorPage {
    /// The block round the inspector, and the area it is drawn in.
    pub block: Option<Block>,
    pub area: Rect,
    /// The visible lines, from the top.
    pub rows: Vec<Placed>,
}

/// The mathematical value of an [`InspectorPage`].
pub struct InspectorPageView {
    pub block: Option<Block>,
    pub area: Rect,
    pub rows: Seq<PlacedView>,
}

impl View for InspectorPage {
    type V = InspectorPageView;

    open spec fn view(&self) -> InspectorPageView {
        InspectorPageView { block: self.block, area: self.area, rows: self.rows.deep_view() }
    }
}

/// The inspector over one value, ready to be drawn.
#[derive(Debug)]
pub struct Inspector<'a> {
    value: &'a JsonValue,
    block: Option<Block>,
    focused: bool,
}

/// The mathematical value of an [`Inspector`].
pub struct InspectorView {
    pub value: Json,
    pub block: Option<Block>,
    pub focused: bool,
}

impl View for Inspector<'_> {
    type V = InspectorView;

    closed spec fn view(&self) -> InspectorView {
        InspectorView { value: self.value@, block: self.block, focused: self.focused }
    }
}

/// The cursor and the page after a repaint of `inspector` in `area`. The inspector is drawn
/// inside its block; the height that the block leaves free is the height of the window. An
/// object without members leaves the cursor alone.
pub open spec fn rendered(inspector: InspectorView, area: Rect, cursor: InspectorCursor) -> (
    InspectorCursor,
    InspectorPageView,
) {
    let inner = inner_if_some(inspector.block, area);
    if inspector.value matches Json::Object(members) && members.len() == 0 {
        (
            cursor,
            InspectorPageView {
                block: inspector.block,
                area,
                rows: seq![PlacedView { area: inner, line: nothing_to_show() }],
            },
        )
    } else {
        let lines = flatten_value_spec(inspector.value);
        let after = cursor.updated(lines, inner.height as nat);
        (
            after,
            InspectorPageView {
                block: inspector.block,
                area,
                rows: visible_rows(
                    lines,
                    after.scroll,
                    inner,
                    selected_line(lines, after.selected),
                    inspector.focused,
                ),
            },
        )
    }
}

impl InspectorLine {
    /// The text of the line as it is drawn.
    pub fn line(&self, selected: bool) -> (line: Line)
        ensures
            line@ == line_of(self@, selected),
    {
        let text = match &self.kind {
            InspectorLineKind::ObjectStart => "{".to_owned(),
            InspectorLineKind::ObjectEnd => "}".to_owned(),
            InspectorLineKind::ArrayStart => "[".to_owned(),
            InspectorLineKind::ArrayEnd => "]".to_owned(),
            InspectorLineKind::Item { value } => match value {
                PrimitiveValue::Null => "None".to_owned(),
                PrimitiveValue::Bool(b) => if *b {
                    "true".to_owned()
                } else {
                    "false".to_owned()
                },
                PrimitiveValue::Number(n) => n.to_text(),
                PrimitiveValue::String(s) => s.clone(),
            },
        };
        let accent = if selected {
            Style::new().fg(primary_color()).bold()
        } else {
            Style::new()
        };
        let name_accent = if selected {
            Style::new().fg(primary_color()).bold()
        } else {
            Style::new().fg(Color::Reset).bold()
        };
        let mut spans: Vec<Span> = Vec::new();
        match &self.name {
            Some(name) => {
                spans.push(Span::styled(name.clone(), name_accent));
                spans.push(Span::styled(": ".to_owned(), name_accent));
            },
            None => {},
        }
        spans.push(Span::styled(text, accent));
        let line = Line::from_spans(spans);
        assert(line@.spans =~= line_of(self@, selected).spans);
        line
    }

    /// The columns by which the line is indented.
    pub fn indent(&self) -> (indent: u16)
        ensures
            indent == indent_of(self@.depth),
    {
        if self.indent_level > 0xffff / INDENT_AMOUNT {
            0xffff
        } else {
            self.indent_level * INDENT_AMOUNT
        }
    }
}

impl<'a> Inspector<'a> {
    /// An inspector over `value` without a block; `focused` says whether its panel has the
    /// focus.
    pub fn new(value: &'a JsonValue, focused: bool) -> (inspector: Self)
        ensures
            inspector@ == (InspectorView { value: value@, block: None, focused }),
    {
        Inspector { value, block: None, focused }
    }

    /// This inspector inside `block`.
    pub fn block(self, block: Block) -> (inspector: Self)
        ensures
            inspector@ == (InspectorView { block: Some(block), ..self@ }),
    {
        Inspector { value: self.value, block: Some(block), focused: self.focused }
    }

    /// The number of members of an object; any other value counts as one field.
    pub fn fields(&self) -> (fields: usize)
        ensures
            fields == match self@.value {
                Json::Object(members) => members.len(),
                _ => 1,
            },
    {
        match self.value {
            JsonValue::Object(members) => {
                members.len()
            },
            _ => 1,
        }
    }

    /// Repaints the inspector in `area`: brings `state` up to date with the value and returns
    /// the visible rows.
    pub fn render(self, area: Rect, state: &mut InspectorState) -> (page: InspectorPage)
        ensures
            (final(state)@, page@) == rendered(self@, area, old(state)@),
    {
        let inner = match &self.block {
            Some(block) => block.inner(area),
            None => area,
        };
        let mut rows: Vec<Placed> = Vec::new();
        if self.fields() == 0 {
            let mut line = Line::raw("Nothing to show".to_owned());
            line.style = Style::new().bold();
            rows.push(Placed { area: inner, line });
            assert(rows.deep_view() =~= seq![
                PlacedView { area: inner, line: nothing_to_show() },
            ]);
            return InspectorPage { block: self.block, area, rows };
        }
        let flat_map = flatten_value(self.value);
        let ghost lines = flat_map.deep_view();
        state.update_paths(&flat_map);
        state.update_value_types(&flat_map);
        state.update_selected(&flat_map);
        state.update_scroll(&flat_map, inner.height);
        let selected = find_selected_line(&flat_map, state.selected);
        let scroll = state.scroll;
        let height = inner.height as usize;
        let upper_limit = if flat_map.len() - scroll.min(flat_map.len()) > height {
            scroll + height
        } else {
            flat_map.len()
        };
        let ghost wanted = visible_rows(lines, scroll as nat, inner, selected as nat, self.focused);
        let mut y: usize = scroll;
        if y < upper_limit {
            while y < upper_limit
                invariant
                    lines == flat_map.deep_view(),
                    scroll <= y <= upper_limit <= flat_map.len(),
                    scroll < upper_limit,
                    wanted.len() == upper_limit - scroll,
                    rows.len() == y - scroll,
                    forall|k: int| 0 <= k < rows.len() ==> rows[k]@ == wanted[k],
                    forall|k: int|
                        0 <= k < wanted.len() ==> wanted[k] == (PlacedView {
                            area: indented(
                                row_of_area(inner, k),
                                indent_of(lines[scroll + k].depth),
                            ),
                            line: line_of(
                                lines[scroll + k],
                                self.focused && scroll + k == selected,
                            ),
                        }),
                decreases upper_limit - y,
            {
                let whole = row(inner, y - scroll);
                let indent = flat_map[y].indent();
                rows.push(
                    Placed {
                        area: Rect {
                            x: whole.x.saturating_add(indent),
                            y: whole.y,
                            width: whole.width.saturating_sub(indent),
                            height: whole.height,
                        },
                        line: flat_map[y].line(self.focused && y == selected),
                    },
                );
                y = y + 1;
            }
        }
        assert(rows.deep_view() =~= wanted);
        InspectorPage { block: self.block, area, rows }
    }
}

fn reversed<T>(items: Vec<T>) -> (out: Vec<T>)
    ensures
        out@ == items@.reverse(),
{
    let ghost all = items@;
    let mut rest = items;
    let mut out: Vec<T> = Vec::new();
    while rest.len() > 0
        invariant
            rest.len() + out.len() == all.len(),
            rest@ == all.take(rest.len() as int),
            forall|i: int| 0 <= i < out.len() ==> out[i] == all[all.len() - 1 - i],
        decreases rest.len(),
    {
        let item = rest.pop().unwrap();
        out.push(item);
    }
    out
}

impl PrimitiveValue {
    /// The value that this one-line value stands for.
    pub fn to_json(&self) -> (value: JsonValue)
        ensures
            value@ == json_of_primitive(self@),
    {
        match self {
            PrimitiveValue::Null => JsonValue::Null,
            PrimitiveValue::Bool(b) => JsonValue::Bool(*b),
            PrimitiveValue::Number(n) => JsonValue::Number(n.clone()),
            PrimitiveValue::String(s) => JsonValue::String(s.clone()),
        }
    }
}

fn read_back_value(lines: &Vec<InspectorLine>, end: usize) -> (read: (JsonValue, usize))
    ensures
        (read.0@, read.1 as int) == read_value(lines.deep_view(), end as int),
    decreases end, 0nat,
{
    if end == 0 || end > lines.len() {
        return (JsonValue::Null, 0);
    }
    match &lines[end - 1].kind {
        InspectorLineKind::Item { value } => (value.to_json(), end - 1),
        InspectorLineKind::ArrayEnd => {
            let (items, start) = read_back_items(lines, end - 1);
            proof {
                lemma_array_view(items);
            }
            (JsonValue::Array(items), start)
        },
        InspectorLineKind::ObjectEnd => {
            let (members, start) = read_back_members(lines, end - 1);
            proof {
                lemma_object_view(members);
            }
            (JsonValue::Object(members), start)
        },
        _ => (JsonValue::Null, 0),
    }
}

fn read_back_items(lines: &Vec<InspectorLine>, end: usize) -> (read: (Vec<JsonValue>, usize))
    ensures
        (read.0.deep_view(), read.1 as int) == read_items(lines.deep_view(), end as int),
    decreases end, 1nat,
{
    let ghost flat = lines.deep_view();
    let mut found: Vec<JsonValue> = Vec::new();
    let mut at: usize = end;
    let mut opening: usize = 0;
    loop
        invariant_except_break
            at <= end,
            flat == lines.deep_view(),
            read_items(flat, end as int).0 == read_items(flat, at as int).0
                + found.deep_view().reverse(),
            read_items(flat, end as int).1 == read_items(flat, at as int).1,
        ensures
            read_items(flat, end as int) == (found.deep_view().reverse(), opening as int),
        decreases at,
    {
        if at == 0 || at > lines.len() {
            opening = 0;
            break ;
        }
        let is_start = match &lines[at - 1].kind {
            InspectorLineKind::ArrayStart => true,
            InspectorLineKind::ObjectStart => true,
            _ => false,
        };
        if is_start {
            opening = at - 1;
            break ;
        }
        let (value, start) = read_back_value(lines, at);
        if start < at {
            found.push(value);
            at = start;
        } else {
            opening = 0;
            break ;
        }
    }
    let items = reversed(found);
    (items, opening)
}

fn read_back_members(lines: &Vec<InspectorLine>, end: usize) -> (read: (
    Vec<(String, JsonValue)>,
    usize,
))
    ensures
        (read.0.deep_view(), read.1 as int) == read_members(lines.deep_view(), end as int),
    decreases end, 1nat,
{
    let ghost flat = lines.deep_view();
    let mut found: Vec<(String, JsonValue)> = Vec::new();
    let mut at: usize = end;
    let mut opening: usize = 0;
    loop
        invariant_except_break
            at <= end,
            flat == lines.deep_view(),
            read_members(flat, end as int).0 == read_members(flat, at as int).0
                + found.deep_view().reverse(),
            read_members(flat, end as int).1 == read_members(flat, at as int).1,
        ensures
            read_members(flat, end as int) == (found.deep_view().reverse(), opening as int),
        decreases at,
    {
        if at == 0 || at > lines.len() {
            opening = 0;
            break ;
        }
        let is_start = match &lines[at - 1].kind {
            InspectorLineKind::ArrayStart => true,
            InspectorLineKind::ObjectStart => true,
            _ => false,
        };
        if is_start {
            opening = at - 1;
            break ;
        }
        let (value, start) = read_back_value(lines, at);
        if start < at {
            let name = match &lines[start].name {
                Some(name) => name.clone(),
                None => String::new(),
            };
            found.push((name, value));
            at = start;
        } else {
            opening = 0;
            break ;
        }
    }
    let members = reversed(found);
    (members, opening)
}

/// The value that a run of lines stands for. On the lines of a value this is the value itself.
pub fn rebuild_value(lines: &Vec<InspectorLine>) -> (value: JsonValue)
    ensures
        value@ == rebuild(lines.deep_view()),
        forall|source: Json|
            lines.deep_view() == flatten_value_spec(source) ==> value@ == source,
{
    proof {
        assert forall|source: Json| lines.deep_view() == flatten_value_spec(source) implies rebuild(
            lines.deep_view(),
        ) == source by {
            lemma_flatten_round_trip(source);
        }
    }
    read_back_value(lines, lines.len()).0
}

} // verus!
