use card_browser::{input_for_key, App, Card, DetailLine, Input, Key, Step};

fn card(name: &str, set: &str, number: &str) -> Card {
    Card {
        name: name.to_string(),
        set_code: set.to_string(),
        collector_number: number.to_string(),
        type_line: "Creature".to_string(),
        oracle_text: None,
        mana_cost: None,
    }
}

fn sets(names: &[&str]) -> Vec<String> {
    names.iter().map(|s| s.to_string()).collect()
}

fn three_cards(set: &str) -> Vec<Card> {
    vec![card("CardA", set, "1"), card("CardB", set, "2"), card("CardC", set, "3")]
}

#[test]
fn set_down_wraps_and_reloads_scenario() {
    let mut app = App::new(sets(&["SET1", "SET2"]));
    app.set_cards(three_cards("SET1"));
    assert_eq!(app.set_selection(), Some(0));
    assert_eq!(app.handle(Input::SetDown), Step::Reload);
    assert_eq!(app.set_selection(), Some(1));
    assert_eq!(app.current_set().map(|s| s.as_str()), Some("SET2"));
    assert!(!app.is_synced());
    app.set_cards(vec![card("Other", "SET2", "1")]);
    assert!(app.is_synced());
    assert_eq!(app.card_selection(), 0);
    assert_eq!(app.current_card().unwrap().set_code, "SET2");
    assert_eq!(app.handle(Input::SetDown), Step::Reload);
    assert_eq!(app.set_selection(), Some(0));
    assert_eq!(app.current_set().map(|s| s.as_str()), Some("SET1"));
    app.set_cards(three_cards("SET1"));
    assert_eq!(app.card_selection(), 0);
    assert_eq!(app.current_card().unwrap().name, "CardA");
}

#[test]
fn card_right_clamps_scenario() {
    let mut app = App::new(sets(&["SET1"]));
    app.set_cards(three_cards("SET1"));
    assert_eq!(app.card_selection(), 0);
    assert_eq!(app.handle(Input::CardRight), Step::Redraw);
    app.handle(Input::CardRight);
    assert_eq!(app.card_selection(), 2);
    assert_eq!(app.current_card().unwrap().name, "CardC");
    app.handle(Input::CardRight);
    assert_eq!(app.card_selection(), 2);
    assert_eq!(app.current_card().unwrap().name, "CardC");
}

#[test]
fn empty_set_shows_nothing_scenario() {
    let mut app = App::new(sets(&["SET1", "EMPTY"]));
    app.set_cards(three_cards("SET1"));
    app.handle(Input::CardRight);
    app.handle(Input::SetDown);
    app.set_cards(Vec::new());
    assert!(app.current_card().is_none());
    assert!(app.detail().is_empty());
    app.handle(Input::CardRight);
    assert_eq!(app.card_selection(), 0);
    app.handle(Input::CardLeft);
    assert_eq!(app.card_selection(), 0);
    assert!(app.current_card().is_none());
}

#[test]
fn set_down_full_cycle_returns() {
    let mut app = App::new(sets(&["A", "B", "C", "D"]));
    app.next_set();
    for _ in 0..4 {
        app.next_set();
    }
    assert_eq!(app.set_selection(), Some(1));
}

#[test]
fn set_up_from_first_goes_to_last() {
    let mut app = App::new(sets(&["A", "B", "C"]));
    assert_eq!(app.handle(Input::SetUp), Step::Reload);
    assert_eq!(app.set_selection(), Some(2));
    assert_eq!(app.current_set().map(|s| s.as_str()), Some("C"));
    app.previous_set();
    assert_eq!(app.set_selection(), Some(1));
}

#[test]
fn single_set_stays_selected() {
    let mut app = App::new(sets(&["ONLY"]));
    app.next_set();
    assert_eq!(app.set_selection(), Some(0));
    app.previous_set();
    assert_eq!(app.set_selection(), Some(0));
}

#[test]
fn card_left_from_first_stays() {
    let mut app = App::new(sets(&["SET1"]));
    app.set_cards(three_cards("SET1"));
    app.previous_card();
    assert_eq!(app.card_selection(), 0);
    app.next_card();
    app.previous_card();
    assert_eq!(app.card_selection(), 0);
}

#[test]
fn set_change_resets_card_selection() {
    let mut app = App::new(sets(&["SET1", "SET2"]));
    app.set_cards(three_cards("SET1"));
    app.next_card();
    app.next_card();
    assert_eq!(app.card_selection(), 2);
    app.handle(Input::SetUp);
    app.set_cards(three_cards("SET2"));
    assert_eq!(app.card_selection(), 0);
    assert_eq!(app.cards().len(), 3);
    assert!(app.cards().iter().all(|c| c.set_code == "SET2"));
}

#[test]
fn no_sets_is_a_valid_state() {
    let mut app = App::new(Vec::new());
    assert_eq!(app.set_selection(), None);
    assert!(app.current_set().is_none());
    assert!(app.is_synced());
    assert_eq!(app.handle(Input::SetDown), Step::Redraw);
    assert_eq!(app.handle(Input::SetUp), Step::Redraw);
    assert_eq!(app.set_selection(), None);
    assert_eq!(app.handle(Input::CardRight), Step::Redraw);
    assert_eq!(app.card_selection(), 0);
}

#[test]
fn set_sets_resets_selection_and_cards() {
    let mut app = App::new(sets(&["A", "B"]));
    app.next_set();
    app.set_cards(three_cards("B"));
    app.set_sets(sets(&["X", "Y", "Z"]));
    assert_eq!(app.set_selection(), Some(0));
    assert!(app.cards().is_empty());
    assert!(!app.is_synced());
    assert_eq!(app.sets().len(), 3);
    app.set_sets(Vec::new());
    assert_eq!(app.set_selection(), None);
}

#[test]
fn quit_and_ignored_keep_state() {
    let mut app = App::new(sets(&["A", "B"]));
    app.set_cards(three_cards("A"));
    app.next_card();
    assert_eq!(app.handle(Input::Quit), Step::Quit);
    assert_eq!(app.handle(Input::Ignored), Step::Redraw);
    assert_eq!(app.set_selection(), Some(0));
    assert_eq!(app.card_selection(), 1);
}

#[test]
fn key_bindings() {
    assert_eq!(input_for_key(Key::Char('q')), Input::Quit);
    assert_eq!(input_for_key(Key::Char('Q')), Input::Ignored);
    assert_eq!(input_for_key(Key::Char('x')), Input::Ignored);
    assert_eq!(input_for_key(Key::Up), Input::SetUp);
    assert_eq!(input_for_key(Key::Down), Input::SetDown);
    assert_eq!(input_for_key(Key::Left), Input::CardLeft);
    assert_eq!(input_for_key(Key::Right), Input::CardRight);
    assert_eq!(input_for_key(Key::Other), Input::Ignored);
}

fn line_text(l: &DetailLine) -> String {
    match l {
        DetailLine::Name(s) => format!("name:{}", s),
        DetailLine::SetCode(s) => format!("set:{}", s),
        DetailLine::CollectorNumber(s) => format!("number:{}", s),
        DetailLine::TypeLine(s) => format!("type:{}", s),
        DetailLine::ManaCost(s) => format!("mana:{}", s),
        DetailLine::Blank => "blank".to_string(),
        DetailLine::OracleHeading => "heading".to_string(),
        DetailLine::OracleText(s) => format!("oracle:{}", s),
        DetailLine::NoOracleText => "no oracle".to_string(),
    }
}

#[test]
fn detail_without_optional_fields() {
    let c = card("Bear", "M10", "12");
    let lines: Vec<String> = c.detail_lines().iter().map(line_text).collect();
    assert_eq!(
        lines,
        vec!["name:Bear", "set:M10", "number:12", "type:Creature", "blank", "heading", "no oracle"]
    );
}

#[test]
fn detail_with_mana_cost_and_oracle_text() {
    let mut c = card("Bolt", "M10", "146");
    c.mana_cost = Some("{R}".to_string());
    c.oracle_text = Some("Deal 3 damage.".to_string());
    let lines: Vec<String> = c.detail_lines().iter().map(line_text).collect();
    assert_eq!(
        lines,
        vec![
            "name:Bolt",
            "set:M10",
            "number:146",
            "type:Creature",
            "mana:{R}",
            "blank",
            "heading",
            "oracle:Deal 3 damage."
        ]
    );
}

#[test]
fn detail_distinguishes_empty_oracle_text_from_absent() {
    let mut c = card("Blank", "M10", "1");
    c.oracle_text = Some(String::new());
    let lines: Vec<String> = c.detail_lines().iter().map(line_text).collect();
    assert_eq!(lines.last().unwrap(), "oracle:");
}

#[test]
fn app_detail_follows_current_card() {
    let mut app = App::new(sets(&["SET1"]));
    assert!(app.detail().is_empty());
    app.set_cards(three_cards("SET1"));
    app.next_card();
    let lines: Vec<String> = app.detail().iter().map(line_text).collect();
    assert_eq!(lines[0], "name:CardB");
    assert_eq!(lines[2], "number:2");
}
