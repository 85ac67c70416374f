use chat_ui::choice::{ChoiceResponse, ChoiceWidget};
use chat_ui::events::{KeyCode, KeyEvent};
use chat_ui::input::{InputResponse, TextInput};
use chat_ui::layout::Rect;
use chat_ui::messages::{draw_messages, Message, ScrollState};

fn key(code: KeyCode) -> KeyEvent {
    KeyEvent { code, ctrl: false }
}

fn sample_choice() -> ChoiceWidget {
    ChoiceWidget::new(
        "Hey, just wondering if you got your photos printed?".to_string(),
        vec![
            "Wha..?".to_string(),
            "Bogos binted.".to_string(),
            "This joke isn't funny".to_string(),
        ],
    )
}

#[test]
fn choice_down_saturates_at_last_option() {
    let mut c = sample_choice();
    assert!(c.focused);
    for _ in 0..10 {
        assert!(matches!(c.handle(key(KeyCode::Down)), ChoiceResponse::Consumed));
    }
    assert_eq!(c.selected, 2);
    // vi-style movement saturates the same way
    assert!(matches!(c.handle(key(KeyCode::Char('j'))), ChoiceResponse::Consumed));
    assert_eq!(c.selected, 2);
}

#[test]
fn choice_up_saturates_at_first_option() {
    let mut c = sample_choice();
    c.handle(key(KeyCode::Down));
    for _ in 0..10 {
        assert!(matches!(c.handle(key(KeyCode::Up)), ChoiceResponse::Consumed));
    }
    assert_eq!(c.selected, 0);
    c.handle(key(KeyCode::Char('k')));
    assert_eq!(c.selected, 0);
}

#[test]
fn choice_escape_cancels() {
    let mut c = sample_choice();
    assert!(matches!(c.handle(key(KeyCode::Escape)), ChoiceResponse::Cancelled));
    assert!(!c.focused);
    assert!(matches!(c.handle(key(KeyCode::Enter)), ChoiceResponse::Passthrough));
}

#[test]
fn choice_empty_options_starts_hidden() {
    let c = ChoiceWidget::new("prompt".to_string(), Vec::new());
    assert!(!c.focused);
    // the prompt still renders
    let lines = c.draw(20, 5);
    assert_eq!(lines[0].text, "prompt");
}

#[test]
fn choice_draw_layout_and_highlight() {
    let c = sample_choice();
    let lines = c.draw(30, 8);
    assert_eq!(lines.len(), 5);
    assert_eq!(lines[0].text, "Hey, just wondering if you go\u{2026}");
    assert_eq!(lines[1].text, "");
    assert_eq!(lines[2].text, "Wha..?");
    assert_eq!(lines[3].text, "Bogos binted.");
    assert_eq!(lines[4].text, "This joke isn't funny");
    assert!(lines[2].highlighted);
    assert!(!lines[3].highlighted);
    assert!(!lines[4].highlighted);
}

#[test]
fn choice_draw_scrolls_to_keep_selection_visible() {
    let mut c = ChoiceWidget::new(
        "p".to_string(),
        vec!["a".to_string(), "b".to_string(), "c".to_string(), "d".to_string()],
    );
    c.handle(key(KeyCode::Down));
    c.handle(key(KeyCode::Down));
    // four rows: prompt, blank, and two option rows; selection (index 2)
    // must stay visible, so options b and c are shown
    let lines = c.draw(10, 4);
    assert_eq!(lines.len(), 4);
    assert_eq!(lines[2].text, "b");
    assert_eq!(lines[3].text, "c");
    assert!(!lines[2].highlighted);
    assert!(lines[3].highlighted);
}

#[test]
fn choice_show_refocuses_at_top() {
    let mut c = sample_choice();
    c.handle(key(KeyCode::Down));
    c.handle(key(KeyCode::Enter));
    assert!(!c.focused);
    c.show("Again?".to_string(), vec!["yes".to_string(), "no".to_string()]);
    assert!(c.focused);
    assert_eq!(c.selected, 0);
    assert_eq!(c.prompt, "Again?");
    match c.handle(key(KeyCode::Enter)) {
        ChoiceResponse::Committed(s) => assert_eq!(s, "yes"),
        _ => panic!("enter must commit the selection"),
    }
}

#[test]
fn text_input_edits_and_takes() {
    let mut t = TextInput::new();
    for ch in "helo".chars() {
        assert!(matches!(t.handle(key(KeyCode::Char(ch))), InputResponse::Handled));
    }
    // caret movement and insertion in the middle
    t.handle(key(KeyCode::Left));
    t.handle(key(KeyCode::Left));
    t.handle(key(KeyCode::Char('l')));
    assert_eq!(t.contents(), "hello");
    // home/end and deletion to either side
    t.handle(key(KeyCode::Home));
    t.handle(key(KeyCode::Delete));
    assert_eq!(t.contents(), "ello");
    t.handle(key(KeyCode::End));
    t.handle(key(KeyCode::Backspace));
    assert_eq!(t.contents(), "ell");
    // submit keys pass through; take clears
    assert!(matches!(t.handle(key(KeyCode::Enter)), InputResponse::Passthrough));
    assert_eq!(t.take(), "ell");
    assert_eq!(t.contents(), "");
    assert_eq!(t.caret, 0);
}

#[test]
fn messages_follow_tail_shows_last_lines() {
    let msgs: Vec<Message> =
        (0..50).map(|i| Message { text: format!("m{}", i) }).collect();
    // 12 rows with a border leave 10 inner lines
    let rect = Rect { x: 0, y: 0, w: 20, h: 12 };
    let lines = draw_messages(&msgs, rect, ScrollState { offset: 0, follow_tail: true });
    assert_eq!(lines.len(), 10);
    assert_eq!(lines[0], "m40");
    assert_eq!(lines[9], "m49");
    // offset 10 with follow_tail off shifts the window up by 10 lines
    let lines = draw_messages(&msgs, rect, ScrollState { offset: 10, follow_tail: false });
    assert_eq!(lines[0], "m30");
    assert_eq!(lines[9], "m39");
    // follow_tail overrides the offset
    let lines = draw_messages(&msgs, rect, ScrollState { offset: 10, follow_tail: true });
    assert_eq!(lines[9], "m49");
}

#[test]
fn messages_wrap_and_bottom_align() {
    let msgs = vec![Message { text: "abcdefghij".to_string() }];
    // inner area 4 cells wide, 5 rows tall: three wrapped lines under two
    // blank padding lines
    let rect = Rect { x: 0, y: 0, w: 6, h: 7 };
    let lines = draw_messages(&msgs, rect, ScrollState { offset: 0, follow_tail: true });
    assert_eq!(lines, vec!["", "", "abcd", "efgh", "ij"]);
}

#[test]
fn messages_wrap_counts_characters_not_bytes() {
    let msgs = vec![Message { text: "héllo wörld".to_string() }];
    let rect = Rect { x: 0, y: 0, w: 8, h: 4 };
    let lines = draw_messages(&msgs, rect, ScrollState { offset: 0, follow_tail: true });
    assert_eq!(lines, vec!["héllo ", "wörld"]);
}

#[test]
fn messages_empty_renders_blank_frame() {
    let rect = Rect { x: 0, y: 0, w: 10, h: 5 };
    let lines = draw_messages(&Vec::new(), rect, ScrollState { offset: 0, follow_tail: true });
    assert_eq!(lines, vec!["", "", ""]);
    // a rectangle too small for a border renders nothing
    let tiny = Rect { x: 0, y: 0, w: 2, h: 2 };
    assert!(draw_messages(&Vec::new(), tiny, ScrollState { offset: 0, follow_tail: true })
        .is_empty());
}
