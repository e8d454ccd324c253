use keyboard_table::keys::Modifiers;
use keyboard_table::session::{Action, Flow, Ime, InputEvent, KeyboardInput, Session};

fn key(key_code: &str, pressed: bool, repeat: bool) -> InputEvent {
    InputEvent::Keyboard(KeyboardInput {
        key_code: key_code.to_string(),
        key: "Character(\"a\")".to_string(),
        location: "Standard".to_string(),
        text: Some("a".to_string()),
        key_without_modifiers: "Character(\"a\")".to_string(),
        text_with_all_modifiers: Some(" ".to_string()),
        pressed,
        repeat,
        synthetic: false,
    })
}

fn cells(action: &Action) -> Vec<(&str, &str)> {
    match action {
        Action::PrintRow(c) | Action::UpdateRow(c) => {
            c.iter().map(|(k, v)| (k.as_str(), v.as_str())).collect()
        }
        _ => panic!("not a row"),
    }
}

fn written(action: &Action) -> &str {
    match action {
        Action::Write(t) => t.as_str(),
        _ => panic!("not a write"),
    }
}

#[test]
fn key_press_prints_a_full_row() {
    let mut session = Session::new(0);
    let r = session.handle(key("KeyA", true, false), 100);
    assert_eq!(r.flow, Flow::Poll);
    assert_eq!(r.actions.len(), 1);
    assert!(matches!(r.actions[0], Action::PrintRow(_)));
    assert_eq!(
        cells(&r.actions[0]),
        vec![
            ("Number", "0"),
            ("Kind", "Window"),
            ("Synth", "false"),
            ("KeyCode", "KeyA"),
            ("Key", "Character(\"a\")"),
            ("Location", "Standard"),
            ("Text", "a"),
            ("Key (no modifiers)", "Character(\"a\")"),
            ("Text (all modifiers)", "\" \""),
            ("State", "Pressed"),
        ]
    );
    assert_eq!(session.event_number, 1);
    assert_eq!(session.pressed_count, 1);
}

#[test]
fn released_keys_close_the_table_after_the_timeout() {
    let mut session = Session::new(0);
    session.handle(key("KeyA", true, false), 100);
    let r = session.handle(key("KeyA", false, false), 100);
    assert_eq!(r.actions.len(), 2);
    assert_eq!(cells(&r.actions[0])[9], ("State", "Released"));
    assert_eq!(written(&r.actions[1]), "\rTable finishes in 5s");
    assert_eq!(session.pressed_count, 0);

    let r = session.handle(InputEvent::Other, 2600);
    assert_eq!(r.actions.len(), 1);
    assert_eq!(written(&r.actions[0]), "\rTable finishes in 2s");
    assert_eq!(r.flow, Flow::Poll);

    let r = session.handle(InputEvent::Other, 5100);
    assert_eq!(r.actions.len(), 2);
    assert_eq!(written(&r.actions[0]), format!("\r{:30}", ""));
    assert!(matches!(r.actions[1], Action::BeginNewTable));
    assert_eq!(r.flow, Flow::Wait);
    assert_eq!(session.event_number, 0);

    let r = session.handle(InputEvent::Other, 9000);
    assert!(r.actions.is_empty());
}

#[test]
fn repeats_rewrite_one_row_with_a_count() {
    let mut session = Session::new(0);
    session.handle(key("KeyA", true, false), 0);
    let r = session.handle(key("KeyA", true, true), 10);
    assert!(matches!(r.actions[0], Action::UpdateRow(_)));
    assert_eq!(cells(&r.actions[0])[0], ("Number", "1"));
    assert_eq!(cells(&r.actions[0])[9], ("State", "Rpt    1"));
    assert_eq!(session.event_number, 2);
    let r = session.handle(key("KeyA", true, true), 20);
    assert_eq!(cells(&r.actions[0])[0], ("Number", "2"));
    assert_eq!(cells(&r.actions[0])[9], ("State", "Rpt    2"));
    assert_eq!(session.event_number, 2);
    session.handle(key("KeyA", false, false), 30);
    session.handle(key("KeyA", true, false), 40);
    let r = session.handle(key("KeyA", true, true), 50);
    assert_eq!(cells(&r.actions[0])[9], ("State", "Rpt    1"));
}

#[test]
fn device_keys_count_once_while_held() {
    let mut session = Session::new(0);
    let device = |pressed| InputEvent::DeviceKey { key_code: "KeyB".to_string(), pressed };
    let r = session.handle(device(true), 0);
    assert_eq!(
        cells(&r.actions[0]),
        vec![("Number", "0"), ("Kind", "Device"), ("KeyCode", "KeyB"), ("State", "Pressed")]
    );
    session.handle(device(true), 0);
    assert_eq!(session.pressed_count, 1);
    assert_eq!(session.event_number, 2);
    session.handle(device(false), 0);
    assert_eq!(session.pressed_count, 0);
    session.handle(device(false), 0);
    assert_eq!(session.pressed_count, 0);
}

#[test]
fn device_keys_are_ignored_without_focus() {
    let mut session = Session::new(0);
    let r = session.handle(InputEvent::Focused(false), 0);
    assert!(r.actions.is_empty());
    let r = session.handle(InputEvent::DeviceKey { key_code: "KeyB".to_string(), pressed: true }, 0);
    assert!(r.actions.is_empty());
    assert_eq!(session.event_number, 0);
}

#[test]
fn focus_modifier_and_ime_rows() {
    let mut session = Session::new(0);
    let shift = Modifiers { alt: false, control: false, shift: true, logo: false };
    let r = session.handle(InputEvent::ModifiersChanged(shift), 0);
    assert_eq!(
        cells(&r.actions[0]),
        vec![("Number", "0"), ("Kind", "ModC"), ("Modifiers", "SH")]
    );
    let r = session.handle(InputEvent::Focused(true), 0);
    assert_eq!(
        cells(&r.actions[0]),
        vec![("Number", "1"), ("Kind", "Focus"), ("State", "Received")]
    );
    let r = session.handle(InputEvent::Ime(Ime::Commit("é".to_string())), 0);
    assert_eq!(
        cells(&r.actions[0]),
        vec![("Number", "2"), ("Kind", "IME"), ("State", "Commit"), ("Text", "\"é\"")]
    );
    let r = session.handle(InputEvent::Ime(Ime::Enabled), 0);
    assert_eq!(
        cells(&r.actions[0]),
        vec![("Number", "3"), ("Kind", "IME"), ("State", "Enabled")]
    );
    let r = session.handle(InputEvent::RightClick, 0);
    assert!(matches!(r.actions[0], Action::ResetDeadKeys));
    assert_eq!(cells(&r.actions[1]), vec![("Number", "4"), ("Kind", "DeadRST")]);
    // The held modifier keeps the table open.
    assert_eq!(r.actions.len(), 2);
}

#[test]
fn releasing_all_modifiers_at_start_prints_nothing() {
    let mut session = Session::new(0);
    let r = session.handle(InputEvent::ModifiersChanged(Modifiers::empty()), 0);
    assert!(r.actions.is_empty());
}

#[test]
fn middle_click_toggles_manual_mode_and_closes_tables() {
    let mut session = Session::new(0);
    let r = session.handle(InputEvent::MiddleClick, 0);
    assert!(matches!(r.actions[0], Action::SetManualTitle(true)));
    assert!(session.manual_mode);

    session.handle(key("KeyA", true, false), 0);
    let r = session.handle(key("KeyA", false, false), 0);
    assert_eq!(r.actions.len(), 1);
    let r = session.handle(InputEvent::Other, 60_000);
    assert!(r.actions.is_empty());
    let r = session.handle(InputEvent::CloseRequested, 60_000);
    assert_eq!(r.flow, Flow::Poll);

    let r = session.handle(InputEvent::MiddleClick, 60_000);
    assert_eq!(r.actions.len(), 1);
    assert!(matches!(r.actions[0], Action::BeginNewTable));
    assert_eq!(session.event_number, 0);
    let r = session.handle(InputEvent::MiddleClick, 60_000);
    assert!(matches!(r.actions[0], Action::SetManualTitle(false)));
    assert!(!session.manual_mode);
}

#[test]
fn middle_click_skips_the_timeout() {
    let mut session = Session::new(0);
    session.handle(key("KeyA", true, false), 0);
    let r = session.handle(InputEvent::MiddleClick, 10);
    assert_eq!(r.actions.len(), 2);
    assert!(matches!(r.actions[1], Action::BeginNewTable));
    assert_eq!(r.flow, Flow::Wait);
    assert!(!session.skip_timeout);
    assert_eq!(session.pressed_count, 0);
}

#[test]
fn close_request_exits_outside_manual_mode() {
    let mut session = Session::new(0);
    let r = session.handle(InputEvent::CloseRequested, 0);
    assert_eq!(r.flow, Flow::Exit);
}
