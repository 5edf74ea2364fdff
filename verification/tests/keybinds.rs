use brptui::brp::ComponentRecord;
use brptui::inspector::ValueType;
use brptui::json::{JsonNumber, JsonValue};
use brptui::keybinds::{KeybindCondition, KeybindDisplay, KeybindSet, StatePredicate};
use brptui::model::{Focus, Session, State};
use brptui::style::Style;
use brptui::layout::Rect;
use brptui::view::Areas;

fn baseline() -> KeybindSet {
    let mut keybinds = KeybindSet::new();
    keybinds
        .always("s", "search")
        .when_focus("x", "despawn", vec![Focus::Entities])
        .when_focus("x", "remove", vec![Focus::Components])
        .when_focus("[]", "move page", vec![Focus::Entities, Focus::Components])
        .when_inspector_value("t", "toggle", vec![ValueType::Bool])
        .when_inspector_value("e", "edit", vec![ValueType::Number, ValueType::String])
        .when_connected("hjkl/\u{2190}\u{2193}\u{2191}\u{2192}", "move")
        .always("q", "quit");
    keybinds
}

/// A session whose only component has `value`, with the cursor of the inspector on line
/// `selected`.
fn inspecting(value: JsonValue, selected: usize) -> State {
    let mut session = Session::new(Vec::new());
    session.components = vec![ComponentRecord { fully_qualified_name: "game::Thing".to_string(), value }];
    session.focus = Focus::Inspector;
    let column = Rect { x: 0, y: 0, width: 20, height: 10 };
    let row = Rect { x: 0, y: 0, width: 60, height: 1 };
    session.render(&Areas {
        header: row,
        body: row,
        footer: row,
        entities: column,
        components: column,
        inspector: column,
    });
    for _ in 0..selected {
        session.inspector.select_next();
    }
    State::Connected(session)
}

fn focused(focus: Focus) -> State {
    let mut session = Session::new(Vec::new());
    session.focus = focus;
    State::Connected(session)
}

fn footer(keybinds: &KeybindSet, state: &State) -> String {
    KeybindDisplay(&keybinds.active_keybinds(state)).render().text()
}

#[test]
fn an_empty_registry_shows_nothing() {
    let keybinds = KeybindSet::new();
    assert!(keybinds.active_keybinds(&State::Disconnected).is_empty());
    assert_eq!(footer(&keybinds, &State::Disconnected), "");
}

#[test]
fn only_the_unconditional_bindings_show_while_disconnected() {
    let keybinds = baseline();
    assert_eq!(
        keybinds.active_keybinds(&State::Disconnected),
        vec![("s", "search"), ("q", "quit")]
    );
    assert_eq!(
        keybinds.active_keybinds(&State::Done),
        vec![("s", "search"), ("q", "quit")]
    );
}

#[test]
fn the_entities_panel_offers_despawn_and_paging() {
    assert_eq!(
        baseline().active_keybinds(&focused(Focus::Entities)),
        vec![
            ("s", "search"),
            ("x", "despawn"),
            ("[]", "move page"),
            ("hjkl/\u{2190}\u{2193}\u{2191}\u{2192}", "move"),
            ("q", "quit"),
        ]
    );
}

#[test]
fn the_components_panel_offers_remove_and_paging() {
    assert_eq!(
        baseline().active_keybinds(&focused(Focus::Components)),
        vec![
            ("s", "search"),
            ("x", "remove"),
            ("[]", "move page"),
            ("hjkl/\u{2190}\u{2193}\u{2191}\u{2192}", "move"),
            ("q", "quit"),
        ]
    );
}

#[test]
fn the_search_bar_offers_only_what_any_session_offers() {
    assert_eq!(
        baseline().active_keybinds(&focused(Focus::Search)),
        vec![
            ("s", "search"),
            ("hjkl/\u{2190}\u{2193}\u{2191}\u{2192}", "move"),
            ("q", "quit"),
        ]
    );
}

#[test]
fn the_inspector_offers_toggle_on_a_bool() {
    let state = inspecting(JsonValue::Bool(true), 0);
    assert_eq!(
        baseline().active_keybinds(&state),
        vec![
            ("s", "search"),
            ("t", "toggle"),
            ("hjkl/\u{2190}\u{2193}\u{2191}\u{2192}", "move"),
            ("q", "quit"),
        ]
    );
}

#[test]
fn the_inspector_offers_edit_on_numbers_and_strings() {
    let wanted = vec![
        ("s", "search"),
        ("e", "edit"),
        ("hjkl/\u{2190}\u{2193}\u{2191}\u{2192}", "move"),
        ("q", "quit"),
    ];
    let state = inspecting(JsonValue::Number(JsonNumber::PosInt(1)), 0);
    assert_eq!(baseline().active_keybinds(&state), wanted);
    let state = inspecting(JsonValue::String("x".to_string()), 0);
    assert_eq!(baseline().active_keybinds(&state), wanted);
}

#[test]
fn the_inspector_follows_its_selected_line() {
    let value = JsonValue::Array(vec![JsonValue::Bool(false), JsonValue::Null]);
    let plain = vec![
        ("s", "search"),
        ("hjkl/\u{2190}\u{2193}\u{2191}\u{2192}", "move"),
        ("q", "quit"),
    ];
    assert_eq!(baseline().active_keybinds(&inspecting(value.clone(), 0)), plain);
    assert!(baseline()
        .active_keybinds(&inspecting(value.clone(), 1))
        .contains(&("t", "toggle")));
    assert_eq!(baseline().active_keybinds(&inspecting(value, 2)), plain);
}

#[test]
fn inspector_bindings_need_the_focus_on_the_inspector() {
    let mut state = inspecting(JsonValue::Bool(true), 0);
    if let State::Connected(session) = &mut state {
        session.focus = Focus::Components;
    }
    assert!(!baseline().active_keybinds(&state).contains(&("t", "toggle")));
}

#[test]
fn inspector_bindings_need_a_selected_line() {
    let never_drawn = focused(Focus::Inspector);
    assert_eq!(
        baseline().active_keybinds(&never_drawn),
        vec![
            ("s", "search"),
            ("hjkl/\u{2190}\u{2193}\u{2191}\u{2192}", "move"),
            ("q", "quit"),
        ]
    );
}

#[test]
fn bindings_show_in_the_order_in_which_they_were_added() {
    let mut keybinds = KeybindSet::new();
    keybinds.always("z", "last letter");
    keybinds.add("a", "first letter", KeybindCondition::Always);
    keybinds.when_connected("m", "middle");
    assert_eq!(
        keybinds.active_keybinds(&focused(Focus::Entities)),
        vec![("z", "last letter"), ("a", "first letter"), ("m", "middle")]
    );
}

struct WhileDone;

impl StatePredicate for WhileDone {
    fn holds(&self, state: &State) -> bool {
        matches!(state, State::Done)
    }
}

#[test]
fn a_custom_test_decides_for_its_binding() {
    let mut keybinds = baseline();
    keybinds.add("r", "restart", KeybindCondition::Custom(Box::new(WhileDone)));
    assert_eq!(
        keybinds.active_keybinds(&State::Done),
        vec![("s", "search"), ("q", "quit"), ("r", "restart")]
    );
    assert_eq!(
        keybinds.active_keybinds(&State::Disconnected),
        vec![("s", "search"), ("q", "quit")]
    );
}

#[test]
fn custom_answers_stand_at_the_index_of_their_binding() {
    let mut keybinds = KeybindSet::new();
    keybinds.always("s", "search");
    keybinds.add("r", "restart", KeybindCondition::Custom(Box::new(WhileDone)));
    keybinds.always("q", "quit");
    assert_eq!(keybinds.custom_answers(&State::Done), vec![false, true, false]);
    assert_eq!(keybinds.custom_answers(&State::Disconnected), vec![false, false, false]);
}

#[test]
fn select_active_goes_by_the_answers_it_is_given() {
    let mut keybinds = KeybindSet::new();
    keybinds.always("s", "search");
    keybinds.add("r", "restart", KeybindCondition::Custom(Box::new(WhileDone)));
    keybinds.when_connected("m", "move");
    let state = State::Disconnected;
    assert_eq!(
        keybinds.select_active(&state, &vec![false, true, true]),
        vec![("s", "search"), ("r", "restart")]
    );
    assert_eq!(
        keybinds.select_active(&state, &vec![true, false, true]),
        vec![("s", "search")]
    );
    assert_eq!(keybinds.select_active(&state, &Vec::new()), vec![("s", "search")]);
}

#[test]
fn conditions_hold_as_their_kind_says() {
    let entities = focused(Focus::Entities);
    assert!(KeybindCondition::Always.holds(&State::Done, false));
    assert!(KeybindCondition::Connected.holds(&entities, false));
    assert!(!KeybindCondition::Connected.holds(&State::Disconnected, true));
    assert!(KeybindCondition::Focus(vec![Focus::Entities]).holds(&entities, false));
    assert!(!KeybindCondition::Focus(vec![Focus::Inspector]).holds(&entities, false));
    assert!(!KeybindCondition::Focus(Vec::new()).holds(&entities, false));
    assert!(!KeybindCondition::Focus(vec![Focus::Entities]).holds(&State::Done, false));
    let custom = KeybindCondition::Custom(Box::new(WhileDone));
    assert!(custom.holds(&entities, true));
    assert!(!custom.holds(&State::Done, false));
}

#[test]
fn the_footer_separates_bindings_with_bullets() {
    assert_eq!(
        footer(&baseline(), &State::Disconnected),
        "s search \u{2022} q quit"
    );
    assert_eq!(
        footer(&baseline(), &focused(Focus::Entities)),
        "s search \u{2022} x despawn \u{2022} [] move page \u{2022} hjkl/\u{2190}\u{2193}\u{2191}\u{2192} move \u{2022} q quit"
    );
}

#[test]
fn the_footer_is_dim_with_bold_keys() {
    let line = KeybindDisplay(&[("s", "search"), ("q", "quit")]).render();
    let contents: Vec<&str> = line.spans.iter().map(|span| span.content.as_str()).collect();
    assert_eq!(
        contents,
        vec!["s", " ", "search", " \u{2022} ", "q", " ", "quit", ""]
    );
    assert_eq!(line.spans[0].style, Style::new().dim().bold());
    assert_eq!(line.spans[1].style, Style::new());
    assert_eq!(line.spans[2].style, Style::new().dim());
    assert_eq!(line.spans[3].style, Style::new().dim());
    assert_eq!(line.spans[7].style, Style::new());
}

#[test]
fn a_footer_of_one_binding_has_no_bullet() {
    assert_eq!(KeybindDisplay(&[("q", "quit")]).render().text(), "q quit");
    assert_eq!(KeybindDisplay(&[]).render().text(), "");
}
