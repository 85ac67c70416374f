use chat_ui::controller::{PaneContent, ViewController};
use chat_ui::layout::compute_layout;
use chat_ui::messages::ScrollState;

#[test]
fn layout_80x24_pane_sizes() {
    let l = compute_layout(80, 24);
    // inner area 78x22; a fifth of 78 rounds to 16
    assert_eq!((l.channels.x, l.channels.y, l.channels.w, l.channels.h), (1, 1, 16, 22));
    assert_eq!(l.channels.w + l.main.w, 78);
    assert_eq!((l.main.x, l.main.y, l.main.w, l.main.h), (17, 1, 62, 20));
    assert_eq!((l.input.x, l.input.y, l.input.w, l.input.h), (17, 21, 62, 2));
}

#[test]
fn layout_resize_40x10_keeps_two_input_rows() {
    let l = compute_layout(40, 10);
    assert_eq!(l.input.h, 2);
    assert_eq!(l.main.h, 6);
    assert_eq!(l.channels.w, 8);
    assert_eq!(l.main.w, 30);
    assert_eq!(l.channels.w + l.main.w, 38);
}

#[test]
fn layout_short_frames_shrink_input() {
    // chat pane 6 rows: input shrinks to one row
    assert_eq!(compute_layout(40, 8).input.h, 1);
    assert_eq!(compute_layout(40, 8).main.h, 5);
    // chat pane 2 rows: one row each
    assert_eq!(compute_layout(40, 4).input.h, 1);
    assert_eq!(compute_layout(40, 4).main.h, 1);
    // chat pane 1 row: the main area keeps it
    assert_eq!(compute_layout(40, 3).input.h, 0);
    assert_eq!(compute_layout(40, 3).main.h, 1);
}

#[test]
fn empty_start_frame_80x24() {
    let vc = ViewController::new(String::new(), Vec::new());
    let f = vc.draw(80, 24, &Vec::new(), ScrollState { offset: 0, follow_tail: true });
    assert_eq!(f.channels_title, " Channels ");
    assert_eq!(f.layout.channels.w, 16);
    assert_eq!(f.layout.input.h, 2);
    assert_eq!(f.input_line, "");
    match f.main {
        PaneContent::Messages(lines) => {
            // the pane is bordered: 62x20 leaves 18 blank inner lines
            assert_eq!(lines.len(), 18);
            assert!(lines.iter().all(|l| l.is_empty()));
        }
        PaneContent::Choice(_) => panic!("choice widget should be hidden"),
    }
}
