use brptui::inspector::{
    flatten_value, rebuild_value, Inspector, InspectorLine, InspectorLineKind, InspectorState,
    PrimitiveValue, ValueType,
};
use brptui::layout::{Block, Borders, Padding, Placed, Rect};
use brptui::json::{JsonNumber, JsonValue};
use brptui::style::{primary_color, Color, Style};

fn text(value: &str) -> JsonValue {
    JsonValue::String(value.to_string())
}

fn number(value: u64) -> JsonValue {
    JsonValue::Number(JsonNumber::PosInt(value))
}

fn object(members: Vec<(&str, JsonValue)>) -> JsonValue {
    JsonValue::Object(
        members
            .into_iter()
            .map(|(name, value)| (name.to_string(), value))
            .collect(),
    )
}

/// `{a:{b:[1,2,{c:true}]}}`
fn nested() -> JsonValue {
    object(vec![(
        "a",
        object(vec![(
            "b",
            JsonValue::Array(vec![
                number(1),
                number(2),
                object(vec![("c", JsonValue::Bool(true))]),
            ]),
        )]),
    )])
}

/// An array of the numbers below `count`.
fn numbers(count: u64) -> JsonValue {
    JsonValue::Array((0..count).map(number).collect())
}

fn line(name: Option<&str>, path: &str, indent_level: u16, kind: InspectorLineKind) -> InspectorLine {
    InspectorLine {
        name: name.map(str::to_string),
        path: path.to_string(),
        indent_level,
        kind,
    }
}

fn item(value: PrimitiveValue) -> InspectorLineKind {
    InspectorLineKind::Item { value }
}

/// A window of `height` rows in the top left corner.
fn window(height: u16) -> Rect {
    Rect { x: 0, y: 0, width: 80, height }
}

fn texts(rows: &[Placed]) -> Vec<String> {
    rows.iter().map(|row| row.line.text()).collect()
}

/// The indices of the rows that are drawn as selected.
fn marked(rows: &[Placed]) -> Vec<usize> {
    let accent = Style::new().fg(primary_color()).bold();
    rows.iter()
        .enumerate()
        .filter(|(_, row)| row.line.spans.last().unwrap().style == accent)
        .map(|(index, _)| index)
        .collect()
}

#[test]
fn a_primitive_takes_one_line() {
    assert_eq!(
        flatten_value(&JsonValue::Null),
        vec![line(None, "", 0, item(PrimitiveValue::Null))]
    );
    assert_eq!(
        flatten_value(&JsonValue::Bool(true)),
        vec![line(None, "", 0, item(PrimitiveValue::Bool(true)))]
    );
    assert_eq!(
        flatten_value(&number(7)),
        vec![line(None, "", 0, item(PrimitiveValue::Number(JsonNumber::PosInt(7))))]
    );
    assert_eq!(
        flatten_value(&text("hi")),
        vec![line(None, "", 0, item(PrimitiveValue::String("hi".to_string())))]
    );
}

#[test]
fn an_empty_array_takes_an_opening_and_a_closing_line() {
    assert_eq!(
        flatten_value(&JsonValue::Array(Vec::new())),
        vec![
            line(None, "", 0, InspectorLineKind::ArrayStart),
            line(None, "", 0, InspectorLineKind::ArrayEnd),
        ]
    );
}

#[test]
fn flatten_walks_the_value_in_pre_order() {
    assert_eq!(
        flatten_value(&nested()),
        vec![
            line(None, "", 0, InspectorLineKind::ObjectStart),
            line(Some("a"), ".a", 1, InspectorLineKind::ObjectStart),
            line(Some("b"), ".a.b", 2, InspectorLineKind::ArrayStart),
            line(None, ".a.b[0]", 3, item(PrimitiveValue::Number(JsonNumber::PosInt(1)))),
            line(None, ".a.b[1]", 3, item(PrimitiveValue::Number(JsonNumber::PosInt(2)))),
            line(None, ".a.b[2]", 3, InspectorLineKind::ObjectStart),
            line(Some("c"), ".a.b[2].c", 4, item(PrimitiveValue::Bool(true))),
            line(None, ".a.b[2]", 3, InspectorLineKind::ObjectEnd),
            line(None, ".a.b", 2, InspectorLineKind::ArrayEnd),
            line(None, ".a", 1, InspectorLineKind::ObjectEnd),
            line(None, "", 0, InspectorLineKind::ObjectEnd),
        ]
    );
}

#[test]
fn array_paths_count_in_decimal() {
    let lines = flatten_value(&numbers(12));
    assert_eq!(lines[1].path, "[0]");
    assert_eq!(lines[10].path, "[9]");
    assert_eq!(lines[11].path, "[10]");
    assert_eq!(lines[12].path, "[11]");
}

#[test]
fn closing_lines_are_not_selectable() {
    let lines = flatten_value(&nested());
    let selectable: Vec<bool> = lines.iter().map(InspectorLine::selectable).collect();
    assert_eq!(
        selectable,
        vec![true, true, true, true, true, true, true, false, false, false, false]
    );
}

#[test]
fn lines_know_the_kind_of_their_value() {
    let value = JsonValue::Array(vec![
        JsonValue::Null,
        JsonValue::Bool(false),
        number(1),
        text("x"),
        object(Vec::new()),
    ]);
    let kinds: Vec<Option<ValueType>> = flatten_value(&value)
        .iter()
        .map(InspectorLine::value_type)
        .collect();
    assert_eq!(
        kinds,
        vec![
            Some(ValueType::Array),
            Some(ValueType::Null),
            Some(ValueType::Bool),
            Some(ValueType::Number),
            Some(ValueType::String),
            Some(ValueType::Object),
            None,
            None,
        ]
    );
    assert_eq!(ValueType::from(&PrimitiveValue::Null), ValueType::Null);
    assert_eq!(ValueType::from(&PrimitiveValue::Bool(true)), ValueType::Bool);
}

#[test]
fn the_lines_of_a_value_rebuild_the_value() {
    let values = vec![
        JsonValue::Null,
        JsonValue::Bool(false),
        number(3),
        JsonValue::Number(JsonNumber::NegInt(-3)),
        JsonValue::Number(JsonNumber::Float("0.25".to_string())),
        text(""),
        JsonValue::Array(Vec::new()),
        object(Vec::new()),
        nested(),
        numbers(5),
        JsonValue::Array(vec![JsonValue::Array(vec![JsonValue::Array(Vec::new())])]),
        object(vec![
            ("z", object(Vec::new())),
            ("a", JsonValue::Array(vec![object(vec![("k", JsonValue::Null)])])),
            ("", text("empty key")),
        ]),
    ];
    for value in values {
        assert_eq!(rebuild_value(&flatten_value(&value)), value);
    }
}

#[test]
fn rebuilding_keeps_the_order_of_the_members() {
    let value = object(vec![("b", number(2)), ("a", number(1))]);
    let rebuilt = rebuild_value(&flatten_value(&value));
    assert_eq!(
        rebuilt.as_object().unwrap()[0],
        ("b".to_string(), number(2))
    );
}

#[test]
fn render_draws_names_brackets_and_values() {
    let value = nested();
    let mut state = InspectorState::default();
    let rows = Inspector::new(&value, false).render(window(20), &mut state).rows;
    assert_eq!(
        texts(&rows),
        vec!["{", "a: {", "b: [", "1", "2", "{", "c: true", "}", "]", "}", "}"]
    );
    let indents: Vec<u16> = rows.iter().map(|row| row.area.x).collect();
    assert_eq!(indents, vec![0, 3, 6, 9, 9, 9, 12, 9, 6, 3, 0]);
    let widths: Vec<u16> = rows.iter().map(|row| row.area.width).collect();
    assert_eq!(widths, vec![80, 77, 74, 71, 71, 71, 68, 71, 74, 77, 80]);
    let tops: Vec<u16> = rows.iter().map(|row| row.area.y).collect();
    assert_eq!(tops, vec![0, 1, 2, 3, 4, 5, 6, 7, 8, 9, 10]);
}

#[test]
fn render_draws_each_kind_of_primitive() {
    let value = JsonValue::Array(vec![
        JsonValue::Null,
        JsonValue::Bool(true),
        JsonValue::Bool(false),
        number(100),
        JsonValue::Number(JsonNumber::NegInt(-5)),
        JsonValue::Number(JsonNumber::Float("1.5".to_string())),
        text("some text"),
    ]);
    let mut state = InspectorState::default();
    let rows = Inspector::new(&value, false).render(window(20), &mut state).rows;
    assert_eq!(
        texts(&rows),
        vec!["[", "None", "true", "false", "100", "-5", "1.5", "some text", "]"]
    );
}

#[test]
fn names_are_bold_and_follow_the_selection_in_colour() {
    let value = object(vec![("hp", number(100))]);
    let mut state = InspectorState::default();
    Inspector::new(&value, true).render(window(20), &mut state).rows;
    state.select_next();
    let rows = Inspector::new(&value, true).render(window(20), &mut state).rows;
    let selected = &rows[1].line.spans;
    assert_eq!(selected[0].content, "hp");
    assert_eq!(selected[0].style, Style::new().fg(primary_color()).bold());
    assert_eq!(selected[1].content, ": ");
    assert_eq!(selected[2].content, "100");
    assert_eq!(selected[2].style, Style::new().fg(primary_color()).bold());
    state.select_previous();
    let rows = Inspector::new(&value, true).render(window(20), &mut state).rows;
    let plain = &rows[1].line.spans;
    assert_eq!(plain[0].style, Style::new().fg(Color::Reset).bold());
    assert_eq!(plain[2].style, Style::new());
}

#[test]
fn an_object_without_members_shows_nothing_to_show() {
    let value = object(Vec::new());
    let mut state = InspectorState::default();
    let rows = Inspector::new(&value, true).render(window(20), &mut state).rows;
    assert_eq!(texts(&rows), vec!["Nothing to show"]);
    assert_eq!(rows[0].line.style, Style::new().bold());
    assert_eq!(rows[0].area, window(20));
    assert_eq!(state, InspectorState::default());
    assert_eq!(Inspector::new(&value, true).fields(), 0);
}

#[test]
fn fields_counts_members_or_one() {
    assert_eq!(Inspector::new(&nested(), false).fields(), 1);
    assert_eq!(
        Inspector::new(&object(vec![("a", number(1)), ("b", number(2))]), false).fields(),
        2
    );
    assert_eq!(Inspector::new(&numbers(5), false).fields(), 1);
    assert_eq!(Inspector::new(&JsonValue::Null, false).fields(), 1);
}

#[test]
fn six_steps_down_reach_the_innermost_value() {
    let value = nested();
    let mut state = InspectorState::default();
    let rows = Inspector::new(&value, true).render(window(20), &mut state).rows;
    assert_eq!(marked(&rows), vec![0]);
    for _ in 0..6 {
        state.select_next();
    }
    let rows = Inspector::new(&value, true).render(window(20), &mut state).rows;
    assert_eq!(marked(&rows), vec![6]);
    assert_eq!(rows[6].line.text(), "c: true");
    assert_eq!(state.selected_path(), ".a.b[2].c");
    assert_eq!(state.selected_value_type(), ValueType::Bool);
    assert_eq!(state.selected_kind(), Some(ValueType::Bool));
}

#[test]
fn steps_up_walk_back_over_the_opening_lines() {
    let value = nested();
    let mut state = InspectorState::default();
    Inspector::new(&value, true).render(window(20), &mut state).rows;
    for _ in 0..6 {
        state.select_next();
    }
    state.select_previous();
    let rows = Inspector::new(&value, true).render(window(20), &mut state).rows;
    assert_eq!(marked(&rows), vec![5]);
    assert_eq!(state.selected_value_type(), ValueType::Object);
    for _ in 0..3 {
        state.select_previous();
    }
    let rows = Inspector::new(&value, true).render(window(20), &mut state).rows;
    assert_eq!(marked(&rows), vec![2]);
    assert_eq!(rows[2].line.text(), "b: [");
    assert_eq!(state.selected_path(), ".a.b");
    assert_eq!(state.selected_value_type(), ValueType::Array);
}

#[test]
fn the_selection_stops_at_both_ends() {
    let value = nested();
    let mut state = InspectorState::default();
    Inspector::new(&value, true).render(window(20), &mut state).rows;
    state.select_previous();
    let rows = Inspector::new(&value, true).render(window(20), &mut state).rows;
    assert_eq!(marked(&rows), vec![0]);
    for _ in 0..50 {
        state.select_next();
    }
    let rows = Inspector::new(&value, true).render(window(20), &mut state).rows;
    assert_eq!(marked(&rows), vec![6]);
    state.select_first();
    let rows = Inspector::new(&value, true).render(window(20), &mut state).rows;
    assert_eq!(marked(&rows), vec![0]);
    state.select_last();
    let rows = Inspector::new(&value, true).render(window(20), &mut state).rows;
    assert_eq!(marked(&rows), vec![6]);
}

#[test]
fn a_fresh_cursor_does_not_move_before_the_first_repaint() {
    let mut state = InspectorState::default();
    state.select_next();
    state.select_last();
    assert_eq!(state, InspectorState::default());
    assert_eq!(state.selected_kind(), None);
}

#[test]
fn nothing_is_marked_without_the_focus() {
    let value = nested();
    let mut state = InspectorState::default();
    let rows = Inspector::new(&value, false).render(window(20), &mut state).rows;
    assert_eq!(marked(&rows), Vec::<usize>::new());
}

#[test]
fn the_selection_is_pulled_back_when_the_value_shrinks() {
    let mut state = InspectorState::default();
    let long = numbers(10);
    Inspector::new(&long, true).render(window(30), &mut state).rows;
    state.select_last();
    let rows = Inspector::new(&long, true).render(window(30), &mut state).rows;
    assert_eq!(marked(&rows), vec![10]);
    let short = numbers(2);
    let rows = Inspector::new(&short, true).render(window(30), &mut state).rows;
    assert_eq!(marked(&rows), vec![2]);
    assert_eq!(state.selected_path(), "[1]");
}

#[test]
fn the_window_follows_the_selection_one_line_a_repaint() {
    let value = numbers(28);
    let mut state = InspectorState::default();
    let rows = Inspector::new(&value, true).render(window(10), &mut state).rows;
    assert_eq!(texts(&rows), vec!["[", "0", "1", "2", "3", "4", "5", "6", "7", "8"]);
    state.select_last();
    let rows = Inspector::new(&value, true).render(window(10), &mut state).rows;
    assert_eq!(rows[0].line.text(), "0");
    assert_eq!(rows.len(), 10);
    let rows = Inspector::new(&value, true).render(window(10), &mut state).rows;
    assert_eq!(rows[0].line.text(), "1");
    assert_eq!(marked(&rows), Vec::<usize>::new());
}

#[test]
fn the_window_never_runs_past_the_last_line() {
    let value = numbers(28);
    let mut state = InspectorState::default();
    Inspector::new(&value, true).render(window(10), &mut state).rows;
    state.select_last();
    let mut rows = Vec::new();
    for _ in 0..40 {
        rows = Inspector::new(&value, true).render(window(10), &mut state).rows;
    }
    assert_eq!(rows.len(), 10);
    assert_eq!(rows[0].line.text(), "19");
    assert_eq!(rows[9].line.text(), "]");
    assert_eq!(marked(&rows), vec![8]);
}

#[test]
fn the_window_goes_back_up_when_the_selection_nears_the_top() {
    let value = numbers(28);
    let mut state = InspectorState::default();
    Inspector::new(&value, true).render(window(10), &mut state).rows;
    state.select_last();
    for _ in 0..40 {
        Inspector::new(&value, true).render(window(10), &mut state).rows;
    }
    state.select_first();
    let rows = Inspector::new(&value, true).render(window(10), &mut state).rows;
    assert_eq!(rows[0].line.text(), "18");
    for _ in 0..40 {
        Inspector::new(&value, true).render(window(10), &mut state).rows;
    }
    let rows = Inspector::new(&value, true).render(window(10), &mut state).rows;
    assert_eq!(rows[0].line.text(), "[");
    assert_eq!(marked(&rows), vec![0]);
}

#[test]
fn the_window_keeps_still_while_the_selection_is_inside_the_margins() {
    let value = numbers(28);
    let mut state = InspectorState::default();
    Inspector::new(&value, true).render(window(10), &mut state).rows;
    for _ in 0..4 {
        state.select_next();
    }
    let rows = Inspector::new(&value, true).render(window(10), &mut state).rows;
    assert_eq!(rows[0].line.text(), "[");
    assert_eq!(marked(&rows), vec![4]);
    state.select_next();
    let rows = Inspector::new(&value, true).render(window(10), &mut state).rows;
    assert_eq!(rows[0].line.text(), "0");
    assert_eq!(marked(&rows), vec![4]);
}

#[test]
fn a_window_taller_than_the_value_shows_all_of_it() {
    let value = numbers(3);
    let mut state = InspectorState::default();
    let rows = Inspector::new(&value, true).render(window(100), &mut state).rows;
    assert_eq!(texts(&rows), vec!["[", "0", "1", "2", "]"]);
}

#[test]
fn a_window_without_height_shows_nothing() {
    let value = numbers(3);
    let mut state = InspectorState::default();
    let rows = Inspector::new(&value, true).render(window(0), &mut state).rows;
    assert!(rows.is_empty());
    assert_eq!(state.selected_path(), "");
}

#[test]
fn rows_are_drawn_inside_the_block() {
    let block = Block::new().borders(Borders::left()).padding(Padding::left(1));
    let area = Rect { x: 10, y: 5, width: 30, height: 8 };
    let value = nested();
    let mut state = InspectorState::default();
    let page = Inspector::new(&value, false).block(block).render(area, &mut state);
    assert_eq!(page.block, Some(block));
    assert_eq!(page.area, area);
    assert_eq!(page.rows.len(), 8);
    assert_eq!(page.rows[0].area, Rect { x: 12, y: 5, width: 28, height: 1 });
    assert_eq!(page.rows[1].area, Rect { x: 15, y: 6, width: 25, height: 1 });
    assert_eq!(page.rows[6].area, Rect { x: 24, y: 11, width: 16, height: 1 });
}

#[test]
fn an_indent_wider_than_the_window_leaves_no_room() {
    let mut value = number(1);
    for _ in 0..5 {
        value = JsonValue::Array(vec![value]);
    }
    let mut state = InspectorState::default();
    let area = Rect { x: 0, y: 0, width: 10, height: 20 };
    let rows = Inspector::new(&value, false).render(area, &mut state).rows;
    assert_eq!(rows[3].area, Rect { x: 9, y: 3, width: 1, height: 1 });
    assert_eq!(rows[4].area, Rect { x: 12, y: 4, width: 0, height: 1 });
    assert_eq!(rows[5].area, Rect { x: 15, y: 5, width: 0, height: 1 });
}
