//! The model of the program and the reducer that folds messages into it.

use crate::brp::{
    by_id, by_name, sort_components, sort_entities, Component, ComponentRecord, Entity, EntityMeta,
    Socket,
};
use crate::keybinds::KeybindSet;
use crate::inspector::{InspectorCursor, InspectorState};
use crate::paginated_list::{clamp_index, last_index, CursorMove, ListCursor, PaginatedListState};
use crate::brp::{entities_message, lemma_listing_orders};
use crate::json::Json;
use crate::sorting::{
    lemma_stable_sort_of_sorted, lemma_stable_sort_permutes, lemma_stable_sort_sorted, sorted_by,
    stable_sort,
};
use vstd::prelude::*;

verus! {

/// The areas that can hold the focus.
#[derive(Debug, Clone, Copy, PartialEq, Eq, Structural)]
pub enum Focus {
    /// The panel that lists the entities of the world.
    Entities,
    /// The panel that lists the components of the selected entity.
    Components,
    /// The panel that shows the value of the selected component.
    Inspector,
    /// The search bar.
    Search,
}

impl Default for Focus {
    fn default() -> (focus: Self)
        ensures
            focus == Focus::Entities,
    {
        Focus::Entities
    }
}

/// What the model holds while the server answers.
#[derive(Debug, PartialEq, Eq)]
pub struct Session {
    pub focus: Focus,
    /// The entities of the world, sorted by identifier.
    pub entities: Vec<EntityMeta>,
    pub entities_list: PaginatedListState,
    /// The components of the selected entity, sorted by name.
    pub components: Vec<ComponentRecord>,
    pub components_list: PaginatedListState,
    /// The entity that the live component poller is bound to, if one is live.
    pub components_poller: Option<u64>,
    pub inspector: InspectorState,
}

/// The mathematical value of a [`Session`].
pub struct SessionView {
    pub focus: Focus,
    pub entities: Seq<Entity>,
    pub entities_list: ListCursor,
    pub components: Seq<Component>,
    pub components_list: ListCursor,
    pub components_poller: Option<u64>,
    pub inspector: InspectorCursor,
}

impl View for Session {
    type V = SessionView;

    open spec fn view(&self) -> SessionView {
        SessionView {
            focus: self.focus,
            entities: self.entities.deep_view(),
            entities_list: self.entities_list@,
            components: self.components.deep_view(),
            components_list: self.components_list@,
            components_poller: self.components_poller,
            inspector: self.inspector@,
        }
    }
}

/// Whether the server answers, and what is known of the world while it does.
#[derive(Debug, PartialEq, Eq)]
pub enum State {
    Connected(Session),
    Disconnected,
    Done,
}

/// The mathematical value of a [`State`].
pub enum StateView {
    Connected(SessionView),
    Disconnected,
    Done,
}

impl View for State {
    type V = StateView;

    open spec fn view(&self) -> StateView {
        match self {
            State::Connected(session) => StateView::Connected(session@),
            State::Disconnected => StateView::Disconnected,
            State::Done => StateView::Done,
        }
    }
}

impl Default for State {
    fn default() -> (state: Self)
        ensures
            state@ == StateView::Disconnected,
    {
        State::Disconnected
    }
}

/// What the reducer is fed: key presses, poll results and its own follow-ups.
#[derive(Debug, PartialEq, Eq)]
pub enum Message {
    MoveLeft,
    MoveRight,
    MoveUp,
    MoveDown,
    PageUp,
    PageDown,
    Home,
    End,
    Delete,
    SpawnComponentsThread,
    UpdateEntities(Vec<EntityMeta>),
    UpdateComponents(Vec<ComponentRecord>),
    CommunicationFailed,
    Quit,
}

/// The mathematical value of a [`Message`].
pub enum MessageView {
    MoveLeft,
    MoveRight,
    MoveUp,
    MoveDown,
    PageUp,
    PageDown,
    Home,
    End,
    Delete,
    SpawnComponentsThread,
    UpdateEntities(Seq<Entity>),
    UpdateComponents(Seq<Component>),
    CommunicationFailed,
    Quit,
}

impl View for Message {
    type V = MessageView;

    open spec fn view(&self) -> MessageView {
        match self {
            Message::MoveLeft => MessageView::MoveLeft,
            Message::MoveRight => MessageView::MoveRight,
            Message::MoveUp => MessageView::MoveUp,
            Message::MoveDown => MessageView::MoveDown,
            Message::PageUp => MessageView::PageUp,
            Message::PageDown => MessageView::PageDown,
            Message::Home => MessageView::Home,
            Message::End => MessageView::End,
            Message::Delete => MessageView::Delete,
            Message::SpawnComponentsThread => MessageView::SpawnComponentsThread,
            Message::UpdateEntities(entities) => MessageView::UpdateEntities(entities.deep_view()),
            Message::UpdateComponents(components) => MessageView::UpdateComponents(
                components.deep_view(),
            ),
            Message::CommunicationFailed => MessageView::CommunicationFailed,
            Message::Quit => MessageView::Quit,
        }
    }
}

/// A write that the reducer hands out to be sent to the server; no answer is awaited.
#[derive(Debug, PartialEq, Eq)]
pub enum WriteRequest {
    /// Destroy an entity.
    Destroy { entity: u64 },
    /// Remove one component, named by the path of its type, from an entity.
    Remove { entity: u64, component: String },
}

/// The mathematical value of a [`WriteRequest`].
pub enum WriteRequestView {
    Destroy { entity: u64 },
    Remove { entity: u64, component: Seq<char> },
}

impl View for WriteRequest {
    type V = WriteRequestView;

    open spec fn view(&self) -> WriteRequestView {
        match self {
            WriteRequest::Destroy { entity } => WriteRequestView::Destroy { entity: *entity },
            WriteRequest::Remove { entity, component } => WriteRequestView::Remove {
                entity: *entity,
                component: component@,
            },
        }
    }
}

/// What one step of the reducer asks of the program around it.
#[derive(Debug, PartialEq, Eq)]
pub struct Effects {
    /// A message to feed back into the reducer after the next repaint.
    pub next: Option<Message>,
    /// Raise the cancel flag of the live component poller. This comes before any spawn.
    pub cancel_poller: bool,
    /// Start a component poller for this entity, with a cancel flag of its own.
    pub spawn_poller: Option<u64>,
    /// Send this write in a detached worker.
    pub request: Option<WriteRequest>,
}

/// The mathematical value of [`Effects`].
pub struct EffectsView {
    pub next: Option<MessageView>,
    pub cancel_poller: bool,
    pub spawn_poller: Option<u64>,
    pub request: Option<WriteRequestView>,
}

impl View for Effects {
    type V = EffectsView;

    open spec fn view(&self) -> EffectsView {
        EffectsView {
            next: match self.next {
                Some(message) => Some(message@),
                None => None,
            },
            cancel_poller: self.cancel_poller,
            spawn_poller: self.spawn_poller,
            request: match self.request {
                Some(request) => Some(request@),
                None => None,
            },
        }
    }
}

/// A step that asks for nothing.
pub open spec fn quiet() -> EffectsView {
    EffectsView { next: None, cancel_poller: false, spawn_poller: None, request: None }
}

/// The focus after a move to the left.
pub open spec fn focus_left(focus: Focus) -> Focus {
    match focus {
        Focus::Components => Focus::Entities,
        Focus::Inspector => Focus::Components,
        _ => focus,
    }
}

/// The focus after a move to the right; the components panel takes it only when it shows
/// something.
pub open spec fn focus_right(focus: Focus, components: nat) -> Focus {
    match focus {
        Focus::Entities => if components > 0 {
            Focus::Components
        } else {
            focus
        },
        Focus::Components => Focus::Inspector,
        _ => focus,
    }
}

impl SessionView {
    /// A session that has just begun: nothing focused but the entities, no component known, no
    /// poller live.
    pub open spec fn fresh(entities: Seq<Entity>) -> SessionView {
        SessionView {
            focus: Focus::Entities,
            entities,
            entities_list: ListCursor { selected: 0, pending: None },
            components: Seq::empty(),
            components_list: ListCursor { selected: 0, pending: None },
            components_poller: None,
            inspector: InspectorCursor {
                selected: 0,
                paths: Seq::empty(),
                value_types: Seq::empty(),
                scroll: 0,
            },
        }
    }

    /// The session with both list cursors pulled back into their lists.
    pub open spec fn clamped(self) -> SessionView {
        SessionView {
            entities_list: ListCursor {
                selected: clamp_index(self.entities_list.selected, self.entities.len()),
                pending: self.entities_list.pending,
            },
            components_list: ListCursor {
                selected: clamp_index(self.components_list.selected, self.components.len()),
                pending: self.components_list.pending,
            },
            ..self
        }
    }

    /// Both list cursors point into their lists, or at 0 where the list is empty.
    pub open spec fn cursors_in_range(self) -> bool {
        &&& self.entities_list.selected <= last_index(self.entities.len())
        &&& self.components_list.selected <= last_index(self.components.len())
    }

    /// The session after a move within the focused panel. A list only notes the move, to resolve
    /// it at the next repaint; the inspector moves at once, and knows no page moves. From the
    /// entities panel the component poller is asked to follow, unless the list is too short for
    /// any move to change the selection.
    pub open spec fn moved(self, cursor_move: CursorMove) -> (SessionView, EffectsView) {
        match self.focus {
            Focus::Entities => (
                SessionView {
                    entities_list: ListCursor {
                        selected: self.entities_list.selected,
                        pending: Some(cursor_move),
                    },
                    ..self
                },
                EffectsView {
                    next: if self.entities.len() >= 2 {
                        Some(MessageView::SpawnComponentsThread)
                    } else {
                        None
                    },
                    ..quiet()
                },
            ),
            Focus::Components => (
                SessionView {
                    components_list: ListCursor {
                        selected: self.components_list.selected,
                        pending: Some(cursor_move),
                    },
                    ..self
                },
                quiet(),
            ),
            Focus::Inspector => (
                SessionView {
                    inspector: match cursor_move {
                        CursorMove::Previous => self.inspector.previous(),
                        CursorMove::Next => self.inspector.next(),
                        _ => self.inspector,
                    },
                    ..self
                },
                quiet(),
            ),
            Focus::Search => (self, quiet()),
        }
    }

    /// The session after a jump to the first item of the focused panel (`to_last` false) or to
    /// its last. The jump is made at once. From the entities panel the component poller is asked
    /// to follow when the selection has changed.
    pub open spec fn jumped(self, to_last: bool) -> (SessionView, EffectsView) {
        match self.focus {
            Focus::Entities => {
                let target = if to_last {
                    last_index(self.entities.len())
                } else {
                    0
                };
                (
                    SessionView {
                        entities_list: ListCursor { selected: target, pending: None },
                        ..self
                    },
                    EffectsView {
                        next: if target != self.entities_list.selected {
                            Some(MessageView::SpawnComponentsThread)
                        } else {
                            None
                        },
                        ..quiet()
                    },
                )
            },
            Focus::Components => (
                SessionView {
                    components_list: ListCursor {
                        selected: if to_last {
                            last_index(self.components.len())
                        } else {
                            0
                        },
                        pending: None,
                    },
                    ..self
                },
                quiet(),
            ),
            Focus::Inspector => (
                SessionView {
                    inspector: if to_last {
                        self.inspector.last()
                    } else {
                        self.inspector.first()
                    },
                    ..self
                },
                quiet(),
            ),
            Focus::Search => (self, quiet()),
        }
    }

    /// The session after a delete. In the entities panel the selected entity leaves the list and
    /// its destruction is requested; in the components panel the selected component leaves the
    /// list and its removal from the selected entity is requested. Where nothing is selected,
    /// nothing happens.
    pub open spec fn deleted(self) -> (SessionView, EffectsView) {
        let entity = self.entities_list.selected as int;
        let component = self.components_list.selected as int;
        match self.focus {
            Focus::Entities => if entity < self.entities.len() {
                (
                    SessionView { entities: self.entities.remove(entity), ..self },
                    EffectsView {
                        request: Some(
                            WriteRequestView::Destroy { entity: self.entities[entity].id },
                        ),
                        ..quiet()
                    },
                )
            } else {
                (self, quiet())
            },
            Focus::Components => if entity < self.entities.len() && component
                < self.components.len() {
                (
                    SessionView { components: self.components.remove(component), ..self },
                    EffectsView {
                        request: Some(
                            WriteRequestView::Remove {
                                entity: self.entities[entity].id,
                                component: self.components[component].name,
                            },
                        ),
                        ..quiet()
                    },
                )
            } else {
                (self, quiet())
            },
            _ => (self, quiet()),
        }
    }

    /// The session after the component poller was asked to follow the selection: the live poller,
    /// if any, is cancelled, and a new one is bound to the selected entity, if there is one.
    pub open spec fn respawned(self) -> (SessionView, EffectsView) {
        let target = if self.entities_list.selected < self.entities.len() {
            Some(self.entities[self.entities_list.selected as int].id)
        } else {
            None
        };
        (
            SessionView { components_poller: target, ..self },
            EffectsView {
                cancel_poller: self.components_poller is Some,
                spawn_poller: target,
                ..quiet()
            },
        )
    }
}

/// What a message does to a session that outlives it.
pub open spec fn step_session(session: SessionView, message: MessageView) -> (
    SessionView,
    EffectsView,
) {
    match message {
        MessageView::MoveLeft => (
            SessionView { focus: focus_left(session.focus), ..session },
            quiet(),
        ),
        MessageView::MoveRight => (
            SessionView { focus: focus_right(session.focus, session.components.len()), ..session },
            quiet(),
        ),
        MessageView::MoveUp => session.moved(CursorMove::Previous),
        MessageView::MoveDown => session.moved(CursorMove::Next),
        MessageView::PageUp => session.moved(CursorMove::PreviousPage),
        MessageView::PageDown => session.moved(CursorMove::NextPage),
        MessageView::Home => session.jumped(false),
        MessageView::End => session.jumped(true),
        MessageView::Delete => session.deleted(),
        MessageView::SpawnComponentsThread => session.respawned(),
        MessageView::UpdateEntities(entities) => (
            SessionView { entities: stable_sort(entities, by_id()), ..session },
            quiet(),
        ),
        MessageView::UpdateComponents(components) => (
            SessionView { components: stable_sort(components, by_name()), ..session },
            quiet(),
        ),
        _ => (session, quiet()),
    }
}

/// One step of the reducer while the server answers. A failed communication and a quit end the
/// session and cancel its component poller; after any other message both list cursors are
/// pulled back into their lists.
pub open spec fn step_connected(session: SessionView, message: MessageView) -> (
    StateView,
    EffectsView,
) {
    let leaving = EffectsView { cancel_poller: session.components_poller is Some, ..quiet() };
    match message {
        MessageView::CommunicationFailed => (StateView::Disconnected, leaving),
        MessageView::Quit => (StateView::Done, leaving),
        _ => {
            let (next, effects) = step_session(session, message);
            (StateView::Connected(next.clamped()), effects)
        },
    }
}

/// One step of the reducer while the server does not answer, or after the program is done. The
/// first list of entities opens a session and asks for a component poller.
pub open spec fn step_idle(state: StateView, message: MessageView) -> (StateView, EffectsView) {
    match message {
        MessageView::UpdateEntities(entities) => (
            StateView::Connected(SessionView::fresh(stable_sort(entities, by_id()))),
            EffectsView { next: Some(MessageView::SpawnComponentsThread), ..quiet() },
        ),
        MessageView::CommunicationFailed => (StateView::Disconnected, quiet()),
        MessageView::Quit => (StateView::Done, quiet()),
        _ => (state, quiet()),
    }
}

/// One step of the reducer: the state after `message`, and what the step asks for.
pub open spec fn step(state: StateView, message: MessageView) -> (StateView, EffectsView) {
    match state {
        StateView::Connected(session) => step_connected(session, message),
        _ => step_idle(state, message),
    }
}

impl Effects {
    /// A step that asks for nothing.
    pub fn none() -> (effects: Self)
        ensures
            effects@ == quiet(),
    {
        Effects { next: None, cancel_poller: false, spawn_poller: None, request: None }
    }
}

impl Session {
    /// A session that has just begun, over `entities` as they are given.
    pub fn new(entities: Vec<EntityMeta>) -> (session: Self)
        ensures
            session@ == SessionView::fresh(entities.deep_view()),
    {
        let session = Session {
            focus: Focus::Entities,
            entities,
            entities_list: PaginatedListState::default(),
            components: Vec::new(),
            components_list: PaginatedListState::default(),
            components_poller: None,
            inspector: InspectorState::default(),
        };
        assert(session.components.deep_view() =~= Seq::empty());
        session
    }

    /// Pulls both list cursors back into their lists.
    pub fn clamp_cursors(&mut self)
        ensures
            final(self)@ == old(self)@.clamped(),
    {
        self.entities_list.clamp(self.entities.len());
        self.components_list.clamp(self.components.len());
    }

    /// Moves within the focused panel, and says whether the component poller should follow.
    pub fn post_move(&mut self, cursor_move: CursorMove) -> (effects: Effects)
        ensures
            (final(self)@, effects@) == old(self)@.moved(cursor_move),
    {
        let mut effects = Effects::none();
        match self.focus {
            Focus::Entities => {
                match cursor_move {
                    CursorMove::Previous => self.entities_list.select_previous(),
                    CursorMove::Next => self.entities_list.select_next(),
                    CursorMove::PreviousPage => self.entities_list.select_previous_page(),
                    CursorMove::NextPage => self.entities_list.select_next_page(),
                }
                if self.entities.len() >= 2 {
                    effects.next = Some(Message::SpawnComponentsThread);
                }
            },
            Focus::Components => {
                match cursor_move {
                    CursorMove::Previous => self.components_list.select_previous(),
                    CursorMove::Next => self.components_list.select_next(),
                    CursorMove::PreviousPage => self.components_list.select_previous_page(),
                    CursorMove::NextPage => self.components_list.select_next_page(),
                }
            },
            Focus::Inspector => {
                match cursor_move {
                    CursorMove::Previous => self.inspector.select_previous(),
                    CursorMove::Next => self.inspector.select_next(),
                    _ => {},
                }
            },
            Focus::Search => {},
        }
        effects
    }

    /// Jumps to the first item of the focused panel, or to its last, and says whether the
    /// component poller should follow.
    pub fn jump(&mut self, to_last: bool) -> (effects: Effects)
        ensures
            (final(self)@, effects@) == old(self)@.jumped(to_last),
    {
        let mut effects = Effects::none();
        match self.focus {
            Focus::Entities => {
                let before = self.entities_list.selected();
                if to_last {
                    self.entities_list.select_last(self.entities.len());
                } else {
                    self.entities_list.select_first();
                }
                if self.entities_list.selected() != before {
                    effects.next = Some(Message::SpawnComponentsThread);
                }
            },
            Focus::Components => {
                if to_last {
                    self.components_list.select_last(self.components.len());
                } else {
                    self.components_list.select_first();
                }
            },
            Focus::Inspector => {
                if to_last {
                    self.inspector.select_last();
                } else {
                    self.inspector.select_first();
                }
            },
            Focus::Search => {},
        }
        effects
    }

    /// Deletes what is selected in the focused panel and hands out the matching write.
    pub fn delete_selected(&mut self) -> (effects: Effects)
        ensures
            (final(self)@, effects@) == old(self)@.deleted(),
    {
        let mut effects = Effects::none();
        let entity = self.entities_list.selected();
        let component = self.components_list.selected();
        match self.focus {
            Focus::Entities => {
                if entity < self.entities.len() {
                    let removed = self.entities.remove(entity);
                    assert(self.entities.deep_view() =~= old(self).entities.deep_view().remove(
                        entity as int,
                    ));
                    effects.request = Some(WriteRequest::Destroy { entity: removed.id });
                }
            },
            Focus::Components => {
                if entity < self.entities.len() && component < self.components.len() {
                    let id = self.entities[entity].id;
                    let removed = self.components.remove(component);
                    assert(self.components.deep_view() =~= old(
                        self,
                    ).components.deep_view().remove(component as int));
                    effects.request = Some(
                        WriteRequest::Remove { entity: id, component: removed.fully_qualified_name },
                    );
                }
            },
            _ => {},
        }
        effects
    }

    /// Cancels the live component poller and binds a new one to the selected entity.
    pub fn respawn_poller(&mut self) -> (effects: Effects)
        ensures
            (final(self)@, effects@) == old(self)@.respawned(),
    {
        let mut effects = Effects::none();
        effects.cancel_poller = self.components_poller.is_some();
        let selected = self.entities_list.selected();
        let target = if selected < self.entities.len() {
            Some(self.entities[selected].id)
        } else {
            None
        };
        self.components_poller = target;
        effects.spawn_poller = target;
        effects
    }
}

impl State {
    /// Whether a component poller is live.
    pub fn has_live_poller(&self) -> (live: bool)
        ensures
            live == (self@ matches StateView::Connected(session) && session.components_poller is Some),
    {
        match self {
            State::Connected(session) => session.components_poller.is_some(),
            _ => false,
        }
    }
}

/// The model of the program.
pub struct Model {
    pub state: State,
    /// Where the server listens. It stays as it was given.
    pub socket: Socket,
    /// The key bindings. They stay as they were given.
    pub keybinds: KeybindSet,
}

impl Model {
    /// A model that has not heard of the server yet.
    pub fn new(socket: Socket, keybinds: KeybindSet) -> (model: Self)
        ensures
            model.state@ == StateView::Disconnected,
            model.socket == socket,
            model.keybinds == keybinds,
    {
        Model { state: State::default(), socket, keybinds }
    }
}

/// Folds one message into the model, and says what the step asks of the program around it:
/// a follow-up message, the cancelling and spawning of component pollers, a write to send.
pub fn update(model: &mut Model, msg: Message) -> (effects: Effects)
    ensures
        final(model).state@ == step(old(model).state@, msg@).0,
        effects@ == step(old(model).state@, msg@).1,
        final(model).socket == old(model).socket,
        final(model).keybinds == old(model).keybinds,
{
    match msg {
        Message::CommunicationFailed => {
            let mut effects = Effects::none();
            effects.cancel_poller = model.state.has_live_poller();
            model.state = State::Disconnected;
            effects
        },
        Message::Quit => {
            let mut effects = Effects::none();
            effects.cancel_poller = model.state.has_live_poller();
            model.state = State::Done;
            effects
        },
        Message::UpdateEntities(entities) => {
            let sorted = sort_entities(entities);
            let mut effects = Effects::none();
            if let State::Connected(session) = &mut model.state {
                session.entities = sorted;
                session.clamp_cursors();
            } else {
                model.state = State::Connected(Session::new(sorted));
                effects.next = Some(Message::SpawnComponentsThread);
            }
            effects
        },
        other => {
            if let State::Connected(session) = &mut model.state {
                let effects = match other {
                    Message::MoveLeft => {
                        session.focus = match session.focus {
                            Focus::Components => Focus::Entities,
                            Focus::Inspector => Focus::Components,
                            focus => focus,
                        };
                        Effects::none()
                    },
                    Message::MoveRight => {
                        session.focus = match session.focus {
                            Focus::Entities => if session.components.len() > 0 {
                                Focus::Components
                            } else {
                                Focus::Entities
                            },
                            Focus::Components => Focus::Inspector,
                            focus => focus,
                        };
                        Effects::none()
                    },
                    Message::MoveUp => session.post_move(CursorMove::Previous),
                    Message::MoveDown => session.post_move(CursorMove::Next),
                    Message::PageUp => session.post_move(CursorMove::PreviousPage),
                    Message::PageDown => session.post_move(CursorMove::NextPage),
                    Message::Home => session.jump(false),
                    Message::End => session.jump(true),
                    Message::Delete => session.delete_selected(),
                    Message::SpawnComponentsThread => session.respawn_poller(),
                    Message::UpdateComponents(components) => {
                        session.components = sort_components(components);
                        Effects::none()
                    },
                    _ => Effects::none(),
                };
                session.clamp_cursors();
                effects
            } else {
                Effects::none()
            }
        },
    }
}

/// After any message both list cursors point into their lists, or at 0 where the list is empty.
pub proof fn lemma_cursors_stay_in_range(state: StateView, message: MessageView)
    ensures
        step(state, message).0 matches StateView::Connected(session) ==> session.cursors_in_range(),
{
}

/// A list of entities that arrives is shown sorted by identifier, with nothing added or lost.
pub proof fn lemma_entities_shown_sorted(state: StateView, entities: Seq<Entity>)
    ensures
        step(state, MessageView::UpdateEntities(entities)).0 matches StateView::Connected(session)
            && sorted_by(session.entities, by_id()) && session.entities.to_multiset()
            == entities.to_multiset(),
{
    lemma_stable_sort_sorted(entities, by_id());
    lemma_stable_sort_permutes(entities, by_id());
}

/// A list of components that arrives during a session is shown sorted by name, with nothing
/// added or lost.
pub proof fn lemma_components_shown_sorted(session: SessionView, components: Seq<Component>)
    ensures
        step(StateView::Connected(session), MessageView::UpdateComponents(components)).0 matches StateView::Connected(
            after,
        ) && sorted_by(after.components, by_name()) && after.components.to_multiset()
            == components.to_multiset(),
{
    lemma_listing_orders();
    lemma_stable_sort_sorted(components, by_name());
    lemma_stable_sort_permutes(components, by_name());
}

/// The same list of entities arriving twice in a row: the second arrival changes nothing and
/// asks for nothing.
pub proof fn lemma_update_entities_idempotent(state: StateView, entities: Seq<Entity>)
    ensures
        ({
            let once = step(state, MessageView::UpdateEntities(entities)).0;
            step(once, MessageView::UpdateEntities(entities)) == (once, quiet())
        }),
{
}

/// The number of component pollers that the model holds to be live.
pub open spec fn live_pollers(state: StateView) -> nat {
    if state matches StateView::Connected(session) && session.components_poller is Some {
        1
    } else {
        0
    }
}

/// The number of live component pollers once the program has carried out `effects`: the cancel
/// stops every live poller, and only then is the new one started.
pub open spec fn live_after(live: nat, effects: EffectsView) -> nat {
    let kept = if effects.cancel_poller {
        0
    } else {
        live
    };
    if effects.spawn_poller is Some {
        kept + 1
    } else {
        kept
    }
}

/// The state and the number of live component pollers after a run of messages, each step's
/// effects carried out before the next message is fed.
pub open spec fn run(state: StateView, live: nat, messages: Seq<MessageView>) -> (StateView, nat)
    decreases messages.len(),
{
    if messages.len() == 0 {
        (state, live)
    } else {
        let (next, effects) = step(state, messages[0]);
        run(next, live_after(live, effects), messages.drop_first())
    }
}

/// A step that starts a poller while one is live cancels the live one; a step that leaves the
/// session cancels the live one; and the model's count follows what the effects do.
pub proof fn lemma_cancel_before_spawn(state: StateView, message: MessageView)
    ensures
        ({
            let (next, effects) = step(state, message);
            &&& live_pollers(state) == 1 && effects.spawn_poller is Some ==> effects.cancel_poller
            &&& live_pollers(state) == 1 && !(next is Connected) ==> effects.cancel_poller
            &&& live_after(live_pollers(state), effects) == live_pollers(next)
            &&& effects.spawn_poller matches Some(entity) ==> next matches StateView::Connected(
                session,
            ) && session.components_poller == Some(entity)
        }),
{
}

/// Over any run of messages, from any state, at most one component poller is live, and it is
/// the one the model knows of.
pub proof fn lemma_at_most_one_poller(state: StateView, messages: Seq<MessageView>)
    ensures
        run(state, live_pollers(state), messages).1 == live_pollers(
            run(state, live_pollers(state), messages).0,
        ),
        run(state, live_pollers(state), messages).1 <= 1,
    decreases messages.len(),
{
    if messages.len() > 0 {
        lemma_at_most_one_poller(step(state, messages[0]).0, messages.drop_first());
    }
}

impl SessionView {
    /// The entities are sorted by identifier and the components by name.
    pub open spec fn lists_sorted(self) -> bool {
        sorted_by(self.entities, by_id()) && sorted_by(self.components, by_name())
    }
}

/// The lists of a session stay sorted over every message.
pub proof fn lemma_lists_stay_sorted(state: StateView, message: MessageView)
    requires
        state matches StateView::Connected(session) ==> session.lists_sorted(),
    ensures
        step(state, message).0 matches StateView::Connected(session) ==> session.lists_sorted(),
{
    lemma_listing_orders();
    match message {
        MessageView::UpdateEntities(entities) => {
            lemma_stable_sort_sorted(entities, by_id());
        },
        MessageView::UpdateComponents(components) => {
            lemma_stable_sort_sorted(components, by_name());
        },
        _ => {},
    }
}

/// What the entity poller sends is listed as it was sent: it comes sorted, and sorting it again
/// changes nothing.
pub proof fn lemma_polled_entities_listed_as_sent(state: StateView, response: Option<Json>)
    ensures
        entities_message(response) matches MessageView::UpdateEntities(entities) ==> step(
            state,
            MessageView::UpdateEntities(entities),
        ).0 matches StateView::Connected(session) && session.entities == entities,
{
    if let MessageView::UpdateEntities(entities) = entities_message(response) {
        let unsorted = choose|unsorted: Seq<Entity>| entities == stable_sort(unsorted, by_id());
        lemma_stable_sort_sorted(unsorted, by_id());
        lemma_stable_sort_of_sorted(entities, by_id());
    }
}

} // verus!
