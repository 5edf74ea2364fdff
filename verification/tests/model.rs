use brptui::brp::{ComponentRecord, EntityMeta, Socket};
use brptui::json::{JsonNumber, JsonValue};
use brptui::keybinds::KeybindSet;
use brptui::model::{update, Effects, Focus, Message, Model, Session, State, WriteRequest};
use brptui::layout::Rect;
use brptui::view::{view_in, Areas};

fn number(value: u64) -> JsonValue {
    JsonValue::Number(JsonNumber::PosInt(value))
}

fn entity(id: u64, name: Option<&str>) -> EntityMeta {
    EntityMeta { id, name: name.map(str::to_string) }
}

fn entities(ids: &[u64]) -> Vec<EntityMeta> {
    ids.iter().map(|id| entity(*id, None)).collect()
}

fn component(name: &str, value: JsonValue) -> ComponentRecord {
    ComponentRecord { fully_qualified_name: name.to_string(), value }
}

fn components(names: &[&str]) -> Vec<ComponentRecord> {
    names.iter().map(|name| component(name, JsonValue::Null)).collect()
}

fn model() -> Model {
    Model::new(Socket::default_socket(), KeybindSet::new())
}

/// A screen whose lists show three rows a page.
fn areas() -> Areas {
    Areas {
        header: Rect { x: 1, y: 1, width: 78, height: 1 },
        body: Rect { x: 1, y: 3, width: 78, height: 5 },
        footer: Rect { x: 1, y: 9, width: 78, height: 1 },
        entities: Rect { x: 1, y: 3, width: 20, height: 5 },
        components: Rect { x: 21, y: 3, width: 19, height: 5 },
        inspector: Rect { x: 40, y: 3, width: 39, height: 5 },
    }
}

fn session(model: &Model) -> &Session {
    match &model.state {
        State::Connected(session) => session,
        other => panic!("no session in {other:?}"),
    }
}

fn session_mut(model: &mut Model) -> &mut Session {
    match &mut model.state {
        State::Connected(session) => session,
        other => panic!("no session in {other:?}"),
    }
}

/// A model in a session over entities with these identifiers, once drawn.
fn connected(ids: &[u64]) -> Model {
    let mut model = model();
    update(&mut model, Message::UpdateEntities(entities(ids)));
    view_in(&mut model, &areas());
    model
}

/// Feeds a message, repaints, and feeds the follow-ups, repainting after each, as the main loop
/// does. Returns the effects of every step.
fn feed(model: &mut Model, message: Message) -> Vec<Effects> {
    let mut effects = Vec::new();
    let mut next = Some(message);
    while let Some(message) = next {
        let mut step = update(model, message);
        view_in(model, &areas());
        next = step.next.take();
        effects.push(step);
    }
    effects
}

fn quiet() -> Effects {
    Effects { next: None, cancel_poller: false, spawn_poller: None, request: None }
}

fn ids(model: &Model) -> Vec<u64> {
    session(model).entities.iter().map(|entity| entity.id).collect()
}

fn names(model: &Model) -> Vec<String> {
    session(model)
        .components
        .iter()
        .map(|component| component.fully_qualified_name.clone())
        .collect()
}

#[test]
fn a_new_model_is_disconnected() {
    let model = model();
    assert_eq!(model.state, State::Disconnected);
    assert_eq!(model.socket, Socket::default_socket());
    assert_eq!(State::default(), State::Disconnected);
    assert_eq!(Focus::default(), Focus::Entities);
}

#[test]
fn the_first_entities_open_a_session() {
    let mut model = model();
    let effects = update(&mut model, Message::UpdateEntities(entities(&[3, 1, 2])));
    assert_eq!(
        effects,
        Effects { next: Some(Message::SpawnComponentsThread), ..quiet() }
    );
    assert_eq!(model.state, State::Connected(Session::new(entities(&[1, 2, 3]))));
    let session = session(&model);
    assert_eq!(session.focus, Focus::Entities);
    assert_eq!(session.entities_list.selected(), 0);
    assert!(session.components.is_empty());
    assert_eq!(session.components_poller, None);
}

#[test]
fn an_empty_world_opens_an_empty_session() {
    let mut model = model();
    let effects = feed(&mut model, Message::UpdateEntities(Vec::new()));
    assert_eq!(effects.len(), 2);
    assert_eq!(effects[0].next, None);
    assert_eq!(effects[1], quiet());
    assert_eq!(ids(&model), Vec::<u64>::new());
    assert_eq!(session(&model).components_poller, None);
    assert_eq!(session(&model).entities_list.selected(), 0);
}

#[test]
fn the_follow_up_of_the_first_entities_starts_the_poller() {
    let mut model = model();
    let effects = feed(&mut model, Message::UpdateEntities(entities(&[42])));
    assert_eq!(effects.len(), 2);
    assert_eq!(effects[1], Effects { spawn_poller: Some(42), ..quiet() });
    assert_eq!(session(&model).components_poller, Some(42));
}

#[test]
fn later_entities_replace_the_list_and_keep_the_session() {
    let mut model = connected(&[1, 2, 3]);
    session_mut(&mut model).focus = Focus::Components;
    session_mut(&mut model).components_poller = Some(1);
    let effects = update(&mut model, Message::UpdateEntities(entities(&[9, 8])));
    assert_eq!(effects, quiet());
    assert_eq!(ids(&model), vec![8, 9]);
    assert_eq!(session(&model).focus, Focus::Components);
    assert_eq!(session(&model).components_poller, Some(1));
}

#[test]
fn entities_are_shown_sorted_by_identifier() {
    let mut model = model();
    update(&mut model, Message::UpdateEntities(entities(&[30, 7, 19, 7, 0])));
    assert_eq!(ids(&model), vec![0, 7, 7, 19, 30]);
    update(&mut model, Message::UpdateEntities(entities(&[5, 4, 3, 2, 1])));
    assert_eq!(ids(&model), vec![1, 2, 3, 4, 5]);
}

#[test]
fn components_are_shown_sorted_by_name() {
    let mut model = connected(&[1]);
    let effects = update(
        &mut model,
        Message::UpdateComponents(components(&["game::Health", "bevy::Transform", "game::Armor"])),
    );
    assert_eq!(effects, quiet());
    assert_eq!(names(&model), vec!["bevy::Transform", "game::Armor", "game::Health"]);
}

#[test]
fn components_are_dropped_without_a_session() {
    let mut model = model();
    let effects = update(&mut model, Message::UpdateComponents(components(&["game::Health"])));
    assert_eq!(effects, quiet());
    assert_eq!(model.state, State::Disconnected);
}

#[test]
fn the_same_entities_twice_change_nothing_the_second_time() {
    let mut once = connected(&[1, 2, 3, 4, 5]);
    session_mut(&mut once).entities_list.select_last(5);
    session_mut(&mut once).focus = Focus::Components;
    update(&mut once, Message::UpdateEntities(entities(&[3, 1, 2])));
    let mut twice = connected(&[1, 2, 3, 4, 5]);
    session_mut(&mut twice).entities_list.select_last(5);
    session_mut(&mut twice).focus = Focus::Components;
    update(&mut twice, Message::UpdateEntities(entities(&[3, 1, 2])));
    let effects = update(&mut twice, Message::UpdateEntities(entities(&[3, 1, 2])));
    assert_eq!(effects, quiet());
    assert_eq!(twice.state, once.state);
    assert_eq!(session(&twice).entities_list.selected(), 2);
}

#[test]
fn the_same_entities_twice_from_disconnected_keep_the_fresh_session() {
    let mut model = model();
    update(&mut model, Message::UpdateEntities(entities(&[2, 1])));
    let effects = update(&mut model, Message::UpdateEntities(entities(&[2, 1])));
    assert_eq!(effects, quiet());
    assert_eq!(model.state, State::Connected(Session::new(entities(&[1, 2]))));
}

#[test]
fn the_focus_moves_left_and_right_between_the_panels() {
    let mut model = connected(&[1]);
    update(&mut model, Message::UpdateComponents(components(&["a::A"])));
    assert_eq!(update(&mut model, Message::MoveRight), quiet());
    assert_eq!(session(&model).focus, Focus::Components);
    update(&mut model, Message::MoveRight);
    assert_eq!(session(&model).focus, Focus::Inspector);
    update(&mut model, Message::MoveRight);
    assert_eq!(session(&model).focus, Focus::Inspector);
    assert_eq!(update(&mut model, Message::MoveLeft), quiet());
    assert_eq!(session(&model).focus, Focus::Components);
    update(&mut model, Message::MoveLeft);
    assert_eq!(session(&model).focus, Focus::Entities);
    update(&mut model, Message::MoveLeft);
    assert_eq!(session(&model).focus, Focus::Entities);
}

#[test]
fn the_focus_stays_on_the_entities_while_there_are_no_components() {
    let mut model = connected(&[1]);
    update(&mut model, Message::MoveRight);
    assert_eq!(session(&model).focus, Focus::Entities);
}

#[test]
fn the_search_bar_keeps_the_focus() {
    let mut model = connected(&[1, 2]);
    session_mut(&mut model).focus = Focus::Search;
    for message in [Message::MoveLeft, Message::MoveRight, Message::MoveUp, Message::End, Message::Delete] {
        assert_eq!(update(&mut model, message), quiet());
    }
    assert_eq!(session(&model).focus, Focus::Search);
    assert_eq!(ids(&model), vec![1, 2]);
}

#[test]
fn moves_do_nothing_without_a_session() {
    for state in [State::Disconnected, State::Done] {
        for message in [
            Message::MoveLeft,
            Message::MoveRight,
            Message::MoveUp,
            Message::MoveDown,
            Message::PageUp,
            Message::PageDown,
            Message::Home,
            Message::End,
            Message::Delete,
            Message::SpawnComponentsThread,
        ] {
            let mut model = model();
            model.state = match state {
                State::Done => State::Done,
                _ => State::Disconnected,
            };
            assert_eq!(update(&mut model, message), quiet());
            assert_eq!(model.state, state);
        }
    }
}

#[test]
fn a_step_down_in_the_entities_is_resolved_at_the_repaint() {
    let mut model = connected(&[10, 20]);
    let effects = update(&mut model, Message::MoveDown);
    assert_eq!(effects, Effects { next: Some(Message::SpawnComponentsThread), ..quiet() });
    assert_eq!(session(&model).entities_list.selected(), 0);
    view_in(&mut model, &areas());
    assert_eq!(session(&model).entities_list.selected(), 1);
}

#[test]
fn a_step_down_retargets_the_component_poller() {
    let mut model = model();
    feed(&mut model, Message::UpdateEntities(entities(&[10, 20])));
    assert_eq!(session(&model).components_poller, Some(10));
    let effects = feed(&mut model, Message::MoveDown);
    assert_eq!(
        effects,
        vec![
            Effects { next: None, ..quiet() },
            Effects { cancel_poller: true, spawn_poller: Some(20), ..quiet() },
        ]
    );
    assert_eq!(session(&model).entities_list.selected(), 1);
    assert_eq!(session(&model).components_poller, Some(20));
}

#[test]
fn a_step_in_a_list_of_one_entity_asks_for_no_new_poller() {
    for message in [Message::MoveUp, Message::MoveDown, Message::PageUp, Message::PageDown] {
        let mut model = connected(&[10]);
        assert_eq!(update(&mut model, message), quiet());
    }
    let mut model = connected(&[]);
    assert_eq!(update(&mut model, Message::MoveDown), quiet());
}

#[test]
fn page_moves_in_the_entities_ask_for_a_new_poller() {
    let ids: Vec<u64> = (1..=8).collect();
    let mut model = connected(&ids);
    let effects = feed(&mut model, Message::PageDown);
    assert_eq!(effects[0].next, None);
    assert_eq!(effects[1].spawn_poller, Some(4));
    assert_eq!(session(&model).entities_list.selected(), 3);
    let effects = feed(&mut model, Message::PageUp);
    assert_eq!(effects[1].spawn_poller, Some(1));
}

#[test]
fn moves_in_the_components_ask_for_no_new_poller() {
    let mut model = connected(&[1, 2]);
    update(&mut model, Message::UpdateComponents(components(&["a::A", "b::B", "c::C"])));
    update(&mut model, Message::MoveRight);
    assert_eq!(update(&mut model, Message::MoveDown), quiet());
    view_in(&mut model, &areas());
    assert_eq!(session(&model).components_list.selected(), 1);
    assert_eq!(session(&model).entities_list.selected(), 0);
    assert_eq!(update(&mut model, Message::MoveUp), quiet());
    view_in(&mut model, &areas());
    assert_eq!(session(&model).components_list.selected(), 0);
    assert_eq!(update(&mut model, Message::PageUp), quiet());
}

#[test]
fn home_and_end_jump_at_once() {
    let mut model = connected(&[1, 2, 3]);
    let effects = update(&mut model, Message::End);
    assert_eq!(effects, Effects { next: Some(Message::SpawnComponentsThread), ..quiet() });
    assert_eq!(session(&model).entities_list.selected(), 2);
    assert_eq!(update(&mut model, Message::End), quiet());
    let effects = update(&mut model, Message::Home);
    assert_eq!(effects, Effects { next: Some(Message::SpawnComponentsThread), ..quiet() });
    assert_eq!(session(&model).entities_list.selected(), 0);
    assert_eq!(update(&mut model, Message::Home), quiet());
}

#[test]
fn home_and_end_jump_in_the_components_too() {
    let mut model = connected(&[1]);
    update(&mut model, Message::UpdateComponents(components(&["a::A", "b::B", "c::C"])));
    update(&mut model, Message::MoveRight);
    assert_eq!(update(&mut model, Message::End), quiet());
    assert_eq!(session(&model).components_list.selected(), 2);
    assert_eq!(update(&mut model, Message::Home), quiet());
    assert_eq!(session(&model).components_list.selected(), 0);
}

#[test]
fn the_inspector_takes_steps_and_jumps() {
    let mut model = connected(&[1]);
    let value = JsonValue::Array(vec![number(1), number(2), number(3)]);
    update(&mut model, Message::UpdateComponents(vec![component("a::A", value)]));
    update(&mut model, Message::MoveRight);
    update(&mut model, Message::MoveRight);
    view_in(&mut model, &areas());
    assert_eq!(update(&mut model, Message::MoveDown), quiet());
    assert_eq!(session(&model).inspector.selected_path(), "[0]");
    update(&mut model, Message::End);
    assert_eq!(session(&model).inspector.selected_path(), "[2]");
    update(&mut model, Message::MoveDown);
    assert_eq!(session(&model).inspector.selected_path(), "[2]");
    update(&mut model, Message::MoveUp);
    assert_eq!(session(&model).inspector.selected_path(), "[1]");
    update(&mut model, Message::PageUp);
    update(&mut model, Message::PageDown);
    assert_eq!(session(&model).inspector.selected_path(), "[1]");
    update(&mut model, Message::Home);
    assert_eq!(session(&model).inspector.selected_path(), "");
}

#[test]
fn delete_in_the_entities_removes_the_entity_and_asks_to_destroy_it() {
    let mut model = connected(&[10, 20, 30]);
    feed(&mut model, Message::MoveDown);
    let effects = update(&mut model, Message::Delete);
    assert_eq!(
        effects,
        Effects { request: Some(WriteRequest::Destroy { entity: 20 }), ..quiet() }
    );
    assert_eq!(ids(&model), vec![10, 30]);
    assert_eq!(session(&model).entities_list.selected(), 1);
}

#[test]
fn deleting_the_last_entity_pulls_the_selection_back() {
    let mut model = connected(&[10, 20, 30]);
    update(&mut model, Message::End);
    let effects = update(&mut model, Message::Delete);
    assert_eq!(effects.request, Some(WriteRequest::Destroy { entity: 30 }));
    assert_eq!(ids(&model), vec![10, 20]);
    assert_eq!(session(&model).entities_list.selected(), 1);
    update(&mut model, Message::UpdateEntities(entities(&[10])));
    assert_eq!(session(&model).entities_list.selected(), 0);
}

#[test]
fn delete_in_an_empty_list_does_nothing() {
    let mut model = connected(&[]);
    assert_eq!(update(&mut model, Message::Delete), quiet());
    let mut model = connected(&[1]);
    session_mut(&mut model).focus = Focus::Components;
    assert_eq!(update(&mut model, Message::Delete), quiet());
    assert_eq!(ids(&model), vec![1]);
}

#[test]
fn delete_in_the_components_removes_the_component_from_the_selected_entity() {
    let mut model = connected(&[10, 20]);
    feed(&mut model, Message::MoveDown);
    update(&mut model, Message::UpdateComponents(components(&["a::A", "b::B", "c::C"])));
    update(&mut model, Message::MoveRight);
    feed(&mut model, Message::MoveDown);
    let effects = update(&mut model, Message::Delete);
    assert_eq!(
        effects,
        Effects {
            request: Some(WriteRequest::Remove { entity: 20, component: "b::B".to_string() }),
            ..quiet()
        }
    );
    assert_eq!(names(&model), vec!["a::A", "c::C"]);
    assert_eq!(ids(&model), vec![10, 20]);
}

#[test]
fn delete_in_the_inspector_does_nothing() {
    let mut model = connected(&[10]);
    update(&mut model, Message::UpdateComponents(components(&["a::A"])));
    session_mut(&mut model).focus = Focus::Inspector;
    assert_eq!(update(&mut model, Message::Delete), quiet());
    assert_eq!(names(&model), vec!["a::A"]);
}

#[test]
fn a_failed_communication_disconnects_and_cancels_the_poller() {
    let mut model = model();
    feed(&mut model, Message::UpdateEntities(entities(&[1])));
    let effects = update(&mut model, Message::CommunicationFailed);
    assert_eq!(effects, Effects { cancel_poller: true, ..quiet() });
    assert_eq!(model.state, State::Disconnected);
    assert_eq!(update(&mut model, Message::CommunicationFailed), quiet());
    assert_eq!(model.state, State::Disconnected);
}

#[test]
fn leaving_a_session_without_a_poller_cancels_nothing() {
    let mut model = connected(&[]);
    assert_eq!(update(&mut model, Message::CommunicationFailed), quiet());
    let mut model = connected(&[]);
    assert_eq!(update(&mut model, Message::Quit), quiet());
    assert_eq!(model.state, State::Done);
}

#[test]
fn the_session_comes_back_with_the_next_entities() {
    let mut model = model();
    feed(&mut model, Message::UpdateEntities(entities(&[1, 2])));
    feed(&mut model, Message::MoveDown);
    update(&mut model, Message::CommunicationFailed);
    let effects = feed(&mut model, Message::UpdateEntities(entities(&[1, 2])));
    assert_eq!(effects[1], Effects { spawn_poller: Some(1), ..quiet() });
    assert_eq!(session(&model).entities_list.selected(), 0);
    assert_eq!(session(&model).components_poller, Some(1));
}

#[test]
fn quit_ends_the_program_and_cancels_the_poller() {
    let mut model = model();
    feed(&mut model, Message::UpdateEntities(entities(&[1])));
    let effects = update(&mut model, Message::Quit);
    assert_eq!(effects, Effects { cancel_poller: true, ..quiet() });
    assert_eq!(model.state, State::Done);
    let mut model = Model::new(Socket::default_socket(), KeybindSet::new());
    assert_eq!(update(&mut model, Message::Quit), quiet());
    assert_eq!(model.state, State::Done);
}

#[test]
fn respawning_without_an_entity_only_cancels() {
    let mut model = connected(&[1]);
    update(&mut model, Message::SpawnComponentsThread);
    update(&mut model, Message::UpdateEntities(Vec::new()));
    let effects = update(&mut model, Message::SpawnComponentsThread);
    assert_eq!(effects, Effects { cancel_poller: true, ..quiet() });
    assert_eq!(session(&model).components_poller, None);
    assert_eq!(update(&mut model, Message::SpawnComponentsThread), quiet());
}

#[test]
fn the_cursors_stay_inside_their_lists_after_every_message() {
    let script = vec![
        Message::UpdateEntities(entities(&[5, 3, 8, 1, 9, 2])),
        Message::End,
        Message::UpdateEntities(entities(&[5, 3])),
        Message::UpdateComponents(components(&["a::A", "b::B", "c::C"])),
        Message::MoveRight,
        Message::End,
        Message::UpdateComponents(components(&["a::A"])),
        Message::Delete,
        Message::Delete,
        Message::MoveLeft,
        Message::Delete,
        Message::Delete,
        Message::Delete,
        Message::MoveDown,
        Message::PageDown,
        Message::UpdateEntities(Vec::new()),
        Message::SpawnComponentsThread,
        Message::UpdateComponents(Vec::new()),
        Message::Home,
    ];
    let mut model = model();
    for message in script {
        update(&mut model, message);
        let session = session(&model);
        assert!(session.entities_list.selected() < session.entities.len().max(1));
        assert!(session.components_list.selected() < session.components.len().max(1));
    }
}

#[test]
fn at_most_one_poller_is_live_over_a_long_run() {
    let script = vec![
        Message::SpawnComponentsThread,
        Message::UpdateEntities(entities(&[1, 2, 3])),
        Message::SpawnComponentsThread,
        Message::MoveDown,
        Message::SpawnComponentsThread,
        Message::SpawnComponentsThread,
        Message::CommunicationFailed,
        Message::SpawnComponentsThread,
        Message::UpdateEntities(entities(&[4])),
        Message::SpawnComponentsThread,
        Message::UpdateEntities(Vec::new()),
        Message::SpawnComponentsThread,
        Message::UpdateEntities(entities(&[5, 6])),
        Message::End,
        Message::SpawnComponentsThread,
        Message::Delete,
        Message::Quit,
        Message::UpdateEntities(entities(&[7])),
        Message::SpawnComponentsThread,
        Message::Quit,
    ];
    let mut model = model();
    let mut live = 0;
    for message in script {
        let effects = update(&mut model, message);
        view_in(&mut model, &areas());
        if effects.spawn_poller.is_some() && live > 0 {
            assert!(effects.cancel_poller);
        }
        if effects.cancel_poller {
            live = 0;
        }
        if effects.spawn_poller.is_some() {
            live += 1;
        }
        assert!(live <= 1);
        let known = match &model.state {
            State::Connected(session) => session.components_poller.is_some(),
            _ => false,
        };
        assert_eq!(live == 1, known);
    }
}

#[test]
fn update_leaves_socket_and_state_of_the_widgets_alone_on_stale_components() {
    let mut model = connected(&[1, 2]);
    feed(&mut model, Message::MoveDown);
    let before = session(&model).entities_list;
    update(&mut model, Message::UpdateComponents(components(&["old::Stale"])));
    assert_eq!(session(&model).entities_list, before);
    assert_eq!(names(&model), vec!["old::Stale"]);
    assert_eq!(model.socket, Socket::default_socket());
}
