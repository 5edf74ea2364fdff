//! The registry of key bindings, and the footer that shows those that apply.

use crate::inspector::ValueType;
use crate::model::{Focus, State, StateView};
use crate::style::{Line, LineView, Span, SpanView, Style};
use vstd::prelude::*;

verus! {

/// A test on the state that a user of the registry supplies.
pub trait StatePredicate {
    /// Whether the binding applies in `state`.
    fn holds(&self, state: &State) -> bool;
}

/// When a key binding applies.
pub enum KeybindCondition {
    /// In every state.
    Always,
    /// While the server answers.
    Connected,
    /// While one of these panels has the focus.
    Focus(Vec<Focus>),
    /// While the inspector has the focus and its selected line shows one of these kinds of value.
    InspectorValue(Vec<ValueType>),
    /// While a test of the user's own holds.
    Custom(Box<dyn StatePredicate>),
}

/// The mathematical value of a [`KeybindCondition`].
pub enum Condition {
    Always,
    Connected,
    Focus(Seq<Focus>),
    InspectorValue(Seq<ValueType>),
    Custom,
}

impl View for KeybindCondition {
    type V = Condition;

    open spec fn view(&self) -> Condition {
        match self {
            KeybindCondition::Always => Condition::Always,
            KeybindCondition::Connected => Condition::Connected,
            KeybindCondition::Focus(required) => Condition::Focus(required@),
            KeybindCondition::InspectorValue(values) => Condition::InspectorValue(values@),
            KeybindCondition::Custom(_) => Condition::Custom,
        }
    }
}

/// A key binding: the keys as the footer names them, what they do, and when they apply.
pub struct Keybind {
    pub keys: String,
    pub description: String,
    pub condition: KeybindCondition,
}

/// The mathematical value of a [`Keybind`].
pub struct Binding {
    pub keys: Seq<char>,
    pub description: Seq<char>,
    pub condition: Condition,
}

impl View for Keybind {
    type V = Binding;

    open spec fn view(&self) -> Binding {
        Binding { keys: self.keys@, description: self.description@, condition: self.condition@ }
    }
}

impl DeepView for Keybind {
    type V = Binding;

    open spec fn deep_view(&self) -> Binding {
        self@
    }
}

/// The key bindings of the program, in the order in which they were added.
pub struct KeybindSet {
    keybinds: Vec<Keybind>,
}

impl View for KeybindSet {
    type V = Seq<Binding>;

    closed spec fn view(&self) -> Seq<Binding> {
        self.keybinds.deep_view()
    }
}

impl Condition {
    /// Whether a binding under this condition applies in `state`. `custom` is what the user's
    /// test answered; it counts for a custom condition only.
    pub open spec fn holds(self, state: StateView, custom: bool) -> bool {
        match self {
            Condition::Always => true,
            Condition::Connected => state is Connected,
            Condition::Focus(required) => state matches StateView::Connected(session)
                && required.contains(session.focus),
            Condition::InspectorValue(values) => state matches StateView::Connected(session)
                && session.focus == Focus::Inspector && session.inspector.selected
                < session.inspector.value_types.len() && values.contains(
                session.inspector.value_types[session.inspector.selected as int],
            ),
            Condition::Custom => custom,
        }
    }
}

/// What the custom test of binding `index` answered; a missing answer counts as no.
pub open spec fn answer(customs: Seq<bool>, index: int) -> bool {
    0 <= index < customs.len() && customs[index]
}

/// The keys and descriptions of the bindings that apply in `state`, in the order of the
/// registry. `customs` holds, at the index of each binding, what a custom test answered.
pub open spec fn active(bindings: Seq<Binding>, state: StateView, customs: Seq<bool>) -> Seq<
    (Seq<char>, Seq<char>),
>
    decreases bindings.len(),
{
    if bindings.len() == 0 {
        Seq::empty()
    } else {
        let front = active(bindings.drop_last(), state, customs);
        let last = bindings.last();
        if last.condition.holds(state, answer(customs, bindings.len() - 1)) {
            front.push((last.keys, last.description))
        } else {
            front
        }
    }
}

/// No binding has a test of the user's own.
pub open spec fn no_custom(bindings: Seq<Binding>) -> bool {
    forall|i: int| 0 <= i < bindings.len() ==> !((#[trigger] bindings[i]).condition is Custom)
}

/// Where no binding has a custom test, the answers of custom tests do not matter.
pub proof fn lemma_active_without_custom(
    bindings: Seq<Binding>,
    state: StateView,
    a: Seq<bool>,
    b: Seq<bool>,
)
    requires
        no_custom(bindings),
    ensures
        active(bindings, state, a) == active(bindings, state, b),
    decreases bindings.len(),
{
    if bindings.len() > 0 {
        let front = bindings.drop_last();
        lemma_active_without_custom(front, state, a, b);
    }
}

fn contains_focus(required: &Vec<Focus>, focus: Focus) -> (found: bool)
    ensures
        found == required@.contains(focus),
{
    let mut i: usize = 0;
    while i < required.len()
        invariant
            i <= required.len(),
            forall|j: int| 0 <= j < i ==> required[j] != focus,
        decreases required.len() - i,
    {
        if required[i] == focus {
            return true;
        }
        i = i + 1;
    }
    false
}

fn contains_value_type(values: &Vec<ValueType>, value_type: ValueType) -> (found: bool)
    ensures
        found == values@.contains(value_type),
{
    let mut i: usize = 0;
    while i < values.len()
        invariant
            i <= values.len(),
            forall|j: int| 0 <= j < i ==> values[j] != value_type,
        decreases values.len() - i,
    {
        if values[i] == value_type {
            return true;
        }
        i = i + 1;
    }
    false
}

impl KeybindCondition {
    /// Whether a binding under this condition applies in `state`, given what a custom test
    /// answered.
    pub fn holds(&self, state: &State, custom: bool) -> (holds: bool)
        ensures
            holds == self@.holds(state@, custom),
    {
        match self {
            KeybindCondition::Always => true,
            KeybindCondition::Connected => match state {
                State::Connected(_) => true,
                _ => false,
            },
            KeybindCondition::Focus(required) => match state {
                State::Connected(session) => contains_focus(required, session.focus),
                _ => false,
            },
            KeybindCondition::InspectorValue(values) => match state {
                State::Connected(session) => {
                    if session.focus == Focus::Inspector {
                        match session.inspector.selected_kind() {
                            Some(kind) => contains_value_type(values, kind),
                            None => false,
                        }
                    } else {
                        false
                    }
                },
                _ => false,
            },
            KeybindCondition::Custom(_) => custom,
        }
    }
}

impl KeybindSet {
    /// A registry without bindings.
    pub fn new() -> (set: Self)
        ensures
            set@ == Seq::<Binding>::empty(),
    {
        let set = KeybindSet { keybinds: Vec::new() };
        set
    }

    /// Adds a binding after those that are there.
    pub fn add(&mut self, keys: &str, description: &str, condition: KeybindCondition) -> (set:
        &mut Self)
        ensures
            set@ == old(self)@.push(
                Binding { keys: keys@, description: description@, condition: condition@ },
            ),
            *final(self) == *final(set),
    {
        self.keybinds.push(
            Keybind { keys: keys.to_owned(), description: description.to_owned(), condition },
        );
        self
    }

    /// Adds a binding that applies in every state.
    pub fn always(&mut self, keys: &str, description: &str) -> (set: &mut Self)
        ensures
            set@ == old(self)@.push(
                Binding { keys: keys@, description: description@, condition: Condition::Always },
            ),
            *final(self) == *final(set),
    {
        self.add(keys, description, KeybindCondition::Always)
    }

    /// Adds a binding that applies while the server answers.
    pub fn when_connected(&mut self, keys: &str, description: &str) -> (set: &mut Self)
        ensures
            set@ == old(self)@.push(
                Binding {
                    keys: keys@,
                    description: description@,
                    condition: Condition::Connected,
                },
            ),
            *final(self) == *final(set),
    {
        self.add(keys, description, KeybindCondition::Connected)
    }

    /// Adds a binding that applies while one of the panels in `focus` has the focus.
    pub fn when_focus(&mut self, keys: &str, description: &str, focus: Vec<Focus>) -> (set:
        &mut Self)
        ensures
            set@ == old(self)@.push(
                Binding {
                    keys: keys@,
                    description: description@,
                    condition: Condition::Focus(focus@),
                },
            ),
            *final(self) == *final(set),
    {
        self.add(keys, description, KeybindCondition::Focus(focus))
    }

    /// Adds a binding that applies while the inspector has the focus and its selected line shows
    /// one of the kinds in `value`.
    pub fn when_inspector_value(
        &mut self,
        keys: &str,
        description: &str,
        value: Vec<ValueType>,
    ) -> (set: &mut Self)
        ensures
            set@ == old(self)@.push(
                Binding {
                    keys: keys@,
                    description: description@,
                    condition: Condition::InspectorValue(value@),
                },
            ),
            *final(self) == *final(set),
    {
        self.add(keys, description, KeybindCondition::InspectorValue(value))
    }

    /// Asks the custom tests. The answer stands at the index of its binding; a binding without
    /// a custom test gets `false`.
    pub fn custom_answers(&self, state: &State) -> (customs: Vec<bool>)
        ensures
            customs.len() == self@.len(),
            forall|i: int|
                0 <= i < self@.len() && !(self@[i].condition is Custom) ==> !#[trigger] customs[i],
    {
        let mut customs: Vec<bool> = Vec::new();
        let mut i: usize = 0;
        while i < self.keybinds.len()
            invariant
                i <= self.keybinds.len(),
                customs.len() == i,
                forall|j: int|
                    0 <= j < i && !(self.keybinds[j]@.condition is Custom) ==> !#[trigger] customs[j],
            decreases self.keybinds.len() - i,
        {
            let answer = match &self.keybinds[i].condition {
                KeybindCondition::Custom(test) => test.holds(state),
                _ => false,
            };
            customs.push(answer);
            i = i + 1;
        }
        customs
    }

    /// The keys and descriptions of the bindings that apply in `state`, in the order of the
    /// registry, given what the custom tests answered.
    pub fn select_active(&self, state: &State, customs: &Vec<bool>) -> (shown: Vec<(&str, &str)>)
        ensures
            shown.deep_view() == active(self@, state@, customs@),
    {
        let ghost bindings = self.keybinds.deep_view();
        let mut shown: Vec<(&str, &str)> = Vec::new();
        let mut i: usize = 0;
        while i < self.keybinds.len()
            invariant
                bindings == self.keybinds.deep_view(),
                i <= self.keybinds.len(),
                shown.deep_view() == active(bindings.take(i as int), state@, customs@),
            decreases self.keybinds.len() - i,
        {
            let keybind = &self.keybinds[i];
            let custom = i < customs.len() && customs[i];
            proof {
                assert(bindings.take(i + 1).drop_last() =~= bindings.take(i as int));
            }
            if keybind.condition.holds(state, custom) {
                shown.push((keybind.keys.as_str(), keybind.description.as_str()));
            }
            i = i + 1;
        }
        assert(bindings.take(i as int) =~= bindings);
        shown
    }

    /// The keys and descriptions of the bindings that apply in `state`, in the order of the
    /// registry. What the custom tests answer is not known beforehand: the result is what
    /// [`active`] gives for some answers of theirs, and they do not matter where the registry
    /// holds no custom test.
    pub fn active_keybinds(&self, state: &State) -> (shown: Vec<(&str, &str)>)
        ensures
            exists|customs: Seq<bool>| #[trigger]
                active(self@, state@, customs) == shown.deep_view(),
            no_custom(self@) ==> shown.deep_view() == active(self@, state@, Seq::empty()),
    {
        let customs = self.custom_answers(state);
        let shown = self.select_active(state, &customs);
        proof {
            if no_custom(self@) {
                lemma_active_without_custom(self@, state@, customs@, Seq::empty());
            }
        }
        shown
    }
}

/// The spans that one binding takes in the footer: its keys in bold, a blank, its description,
/// and the separator, which is left empty after the last binding. All of it is dim.
pub open spec fn binding_spans(keys: Seq<char>, description: Seq<char>, last: bool) -> Seq<SpanView> {
    let dim = Style { dim: true, ..Style::plain() };
    seq![
        SpanView { content: keys, style: Style { bold: true, ..dim } },
        SpanView { content: " "@, style: Style::plain() },
        SpanView { content: description, style: dim },
        if last {
            SpanView { content: Seq::empty(), style: Style::plain() }
        } else {
            SpanView { content: " \u{2022} "@, style: dim }
        },
    ]
}

/// The spans of the first `count` bindings of the footer.
pub open spec fn footer_spans(shown: Seq<(Seq<char>, Seq<char>)>, count: nat) -> Seq<SpanView>
    decreases count,
{
    if count == 0 {
        Seq::empty()
    } else {
        footer_spans(shown, (count - 1) as nat) + binding_spans(
            shown[count - 1].0,
            shown[count - 1].1,
            count == shown.len(),
        )
    }
}

/// The footer: the bindings that apply, each as its keys and its description, with a bullet
/// between one binding and the next.
pub open spec fn footer(shown: Seq<(Seq<char>, Seq<char>)>) -> LineView {
    LineView { spans: footer_spans(shown, shown.len()), style: Style::plain() }
}

/// The keys and descriptions behind a slice of borrowed pairs.
pub open spec fn pairs_view(shown: Seq<(&str, &str)>) -> Seq<(Seq<char>, Seq<char>)> {
    Seq::new(shown.len(), |i: int| (shown[i].0@, shown[i].1@))
}

/// The footer over the bindings that apply.
pub struct KeybindDisplay<'a>(pub &'a [(&'a str, &'a str)]);

impl KeybindDisplay<'_> {
    /// The line that the footer shows.
    pub fn render(self) -> (line: Line)
        ensures
            line@ == footer(pairs_view(self.0@)),
    {
        let ghost shown = pairs_view(self.0@);
        let keybinds_len = self.0.len();
        let dim = Style::new().dim();
        let mut spans: Vec<Span> = Vec::new();
        let mut n: usize = 0;
        while n < keybinds_len
            invariant
                shown == pairs_view(self.0@),
                keybinds_len == self.0@.len(),
                n <= keybinds_len,
                dim == (Style { dim: true, ..Style::plain() }),
                spans.deep_view() == footer_spans(shown, n as nat),
            decreases keybinds_len - n,
        {
            let (key, description) = self.0[n];
            spans.push(Span::styled(key.to_owned(), dim.bold()));
            spans.push(Span::raw(" ".to_owned()));
            spans.push(Span::styled(description.to_owned(), dim));
            if n != keybinds_len - 1 {
                spans.push(Span::styled(" \u{2022} ".to_owned(), dim));
            } else {
                spans.push(Span::raw(String::new()));
            }
            n = n + 1;
        }
        Line::from_spans(spans)
    }
}


} // verus!
