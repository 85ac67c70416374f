use chat_ui::config::Config;
use chat_ui::controller::{Action, PaneContent, ViewController};
use chat_ui::events::{Event, KeyCode, KeyEvent, MouseKind};
use chat_ui::messages::ScrollState;
use chat_ui::session::{TermCommand, TerminalSession, UiError};

fn press(code: KeyCode) -> Event {
    Event::Key(KeyEvent { code, ctrl: false })
}

fn ctrl(c: char) -> Event {
    Event::Key(KeyEvent { code: KeyCode::Char(c), ctrl: true })
}

fn sample_controller() -> ViewController {
    ViewController::new(
        "Hey, just wondering if you got your photos printed?".to_string(),
        vec![
            "Wha..?".to_string(),
            "Bogos binted.".to_string(),
            "This joke isn't funny".to_string(),
        ],
    )
}

#[test]
fn choice_commit_submits_and_hides() {
    let mut vc = sample_controller();
    assert!(matches!(vc.handle_event(press(KeyCode::Down)), Action::Idle));
    assert!(matches!(vc.handle_event(press(KeyCode::Down)), Action::Idle));
    assert!(matches!(vc.handle_event(press(KeyCode::Down)), Action::Idle));
    match vc.handle_event(press(KeyCode::Enter)) {
        Action::Submit(s) => assert_eq!(s, "This joke isn't funny"),
        _ => panic!("enter on the focused widget must submit"),
    }
    assert!(!vc.choice.focused);
    // subsequent frames render the message view
    let f = vc.draw(80, 24, &Vec::new(), ScrollState { offset: 0, follow_tail: true });
    assert!(matches!(f.main, PaneContent::Messages(_)));
}

#[test]
fn typing_and_enter_submits_input() {
    let mut vc = ViewController::new(String::new(), Vec::new());
    for ch in "hello".chars() {
        assert!(matches!(vc.handle_event(press(KeyCode::Char(ch))), Action::Idle));
    }
    match vc.handle_event(press(KeyCode::Enter)) {
        Action::Submit(s) => assert_eq!(s, "hello"),
        _ => panic!("enter must submit the typed line"),
    }
    assert_eq!(vc.input.contents(), "");
}

#[test]
fn focused_choice_captures_keys_from_input() {
    let mut vc = sample_controller();
    // while the widget is focused, typed characters never reach the input
    vc.handle_event(press(KeyCode::Char('x')));
    assert_eq!(vc.input.contents(), "");
    // once hidden, the same key edits the input and the widget stays put
    vc.handle_event(press(KeyCode::Escape));
    vc.handle_event(press(KeyCode::Char('x')));
    assert_eq!(vc.input.contents(), "x");
    assert!(!vc.choice.focused);
}

#[test]
fn mouse_resize_and_tick_change_nothing() {
    let mut vc = sample_controller();
    let before = vc.choice.selected;
    assert!(matches!(
        vc.handle_event(Event::Mouse { kind: MouseKind::Press, col: 3, row: 4 }),
        Action::Idle
    ));
    assert!(matches!(vc.handle_event(Event::Resize { cols: 40, rows: 10 }), Action::Idle));
    assert!(matches!(vc.handle_event(Event::Tick), Action::Idle));
    assert_eq!(vc.choice.selected, before);
    assert_eq!(vc.input.contents(), "");
}

#[test]
fn quit_fires_once_and_session_closes_once() {
    let mut vc = ViewController::new(String::new(), Vec::new());
    let (mut session, opening) = TerminalSession::open(true).unwrap();
    assert_eq!(
        opening,
        vec![
            TermCommand::EnterAltScreen,
            TermCommand::EnableMouseCapture,
            TermCommand::EnableRawMode,
            TermCommand::HideCursor,
        ]
    );
    match vc.handle_event(ctrl('c')) {
        Action::Quit => {
            let restore = session.close();
            assert_eq!(
                restore,
                vec![
                    TermCommand::DisableRawMode,
                    TermCommand::LeaveAltScreen,
                    TermCommand::DisableMouseCapture,
                    TermCommand::ShowCursor,
                ]
            );
        }
        _ => panic!("the first quit key must fire"),
    }
    // a second quit key is ignored and a second close is a no-op
    assert!(matches!(vc.handle_event(ctrl('c')), Action::Idle));
    assert!(session.close().is_empty());
    assert!(!session.active);
}

#[test]
fn open_fails_without_a_terminal() {
    match TerminalSession::open(false) {
        Err(UiError::TerminalUnavailable) => {}
        _ => panic!("open must fail when no terminal is available"),
    }
}

#[test]
fn crash_restores_an_active_session() {
    let (session, _) = TerminalSession::open(true).unwrap();
    let restore = TerminalSession::crash(Some(session));
    assert_eq!(restore.len(), 4);
    assert!(TerminalSession::crash(None).is_empty());
}

#[test]
fn config_carries_username() {
    let c = Config::new("alice".to_string());
    assert_eq!(c.username, "alice");
}
