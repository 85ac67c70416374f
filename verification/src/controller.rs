//! The top-level view controller.
//!
//! It owns the text input and the choice widget, routes every event to
//! exactly one of them, and composes one frame as plain data: the pane
//! rectangles, the channels title, the main pane (messages or the choice
//! prompt, picked by focus), and the input line.
//!
//! Routing order: the global quit key first, then the choice widget while
//! it is focused, then the text input. A key that neither widget consumes
//! is discarded.

use vstd::prelude::*;

use crate::choice::{
    cancels, choice_render, commits, moves_down, moves_up, option_views, sel_down, sel_up,
    styled_views, ChoiceResponse, ChoiceWidget, StyledLine,
};
use crate::events::{Event, KeyCode, KeyEvent};
use crate::input::{InputResponse, TextInput};
use crate::layout::{compute_layout, is_layout, LayoutRects};
use crate::messages::{
    all_lines, draw_messages, line_views, msgs_view, padded_window, Message, ScrollState,
};

verus! {

/// What the application should do after an event.
pub enum Action {
    /// Nothing to forward; redraw when convenient.
    Idle,
    /// A message was submitted, by the input line or the choice widget.
    Submit(String),
    /// The global quit key fired for the first time: close the session
    /// and stop.
    Quit,
}

/// One composed frame: where the panes sit and what each shows. The
/// shell draws it with whatever backend it has.
pub enum PaneContent {
    Messages(Vec<String>),
    Choice(Vec<StyledLine>),
}

pub struct FrameContent {
    pub layout: LayoutRects,
    pub channels_title: String,
    pub main: PaneContent,
    pub input_line: String,
}

/// The global quit key: Control-C.
pub open spec fn is_quit_key(k: KeyEvent) -> bool {
    k.ctrl && k.code == KeyCode::Char('c')
}

/// The submit key for the input line.
pub open spec fn is_submit_key(k: KeyEvent) -> bool {
    !k.ctrl && k.code == KeyCode::Enter
}

/// The quit latch as a transition: from the old latch to the new latch
/// and whether the quit fires.
pub open spec fn quit_step(fired: bool) -> (bool, bool) {
    (true, !fired)
}

/// The controller: both widgets and the quit latch.
pub struct ViewController {
    pub input: TextInput,
    pub choice: ChoiceWidget,
    pub quit_fired: bool,
}

impl ViewController {
    pub open spec fn wf(self) -> bool {
        self.input.wf() && self.choice.wf()
    }

    /// A controller whose choice widget shows `prompt` over `options`
    /// (focused while any option exists) and whose input line is empty.
    pub fn new(prompt: String, options: Vec<String>) -> (c: ViewController)
        ensures
            c.wf(),
            c.input.buffer@ == Seq::<char>::empty(),
            c.input.caret == 0,
            c.choice.prompt@ == prompt@,
            c.choice.options@ == options@,
            c.choice.selected == 0,
            c.choice.focused == (options@.len() > 0),
            !c.quit_fired,
    {
        ViewController {
            input: TextInput::new(),
            choice: ChoiceWidget::new(prompt, options),
            quit_fired: false,
        }
    }

    /// Route one event.
    ///
    /// Only a key event can change anything; mouse, resize and tick are
    /// consumed as redraw hints. The quit key fires `Quit` exactly once
    /// and touches neither widget. Every other key goes to exactly one
    /// widget: to the focused choice widget, else to the input line —
    /// so focus exclusivity holds by contract.
    pub fn handle_event(&mut self, e: Event) -> (r: Action)
        requires
            old(self).wf(),
            old(self).input.buffer@.len() < usize::MAX,
        ensures
            final(self).wf(),
            old(self).choice.focused ==> final(self).input == old(self).input,
            !old(self).choice.focused ==> final(self).choice == old(self).choice,
            !(e is Key) ==> *final(self) == *old(self) && r is Idle,
            e matches Event::Key(k) ==> {
                &&& is_quit_key(k) ==> {
                    &&& final(self).input == old(self).input
                    &&& final(self).choice == old(self).choice
                    &&& final(self).quit_fired == quit_step(old(self).quit_fired).0
                    &&& (r is Quit) == quit_step(old(self).quit_fired).1
                    &&& old(self).quit_fired ==> r is Idle
                }
                &&& !is_quit_key(k) ==> final(self).quit_fired == old(self).quit_fired
                &&& !is_quit_key(k) && old(self).choice.focused ==> {
                    &&& final(self).choice.prompt@ == old(self).choice.prompt@
                    &&& final(self).choice.options@ == old(self).choice.options@
                    &&& commits(k) ==> (r matches Action::Submit(s) && s@ == old(self).choice.options@[old(self).choice.selected as int]@) && !final(self).choice.focused
                    &&& cancels(k) ==> r is Idle && !final(self).choice.focused
                    &&& moves_down(k) ==> r is Idle && final(self).choice.focused && final(self).choice.selected == sel_down(
                        old(self).choice.selected as nat,
                        old(self).choice.options@.len(),
                    )
                    &&& moves_up(k) ==> r is Idle && final(self).choice.focused && final(self).choice.selected == sel_up(old(self).choice.selected as nat)
                    &&& !(commits(k) || cancels(k) || moves_down(k) || moves_up(k)) ==> r is Idle
                        && final(self).choice == old(self).choice
                }
                &&& !is_quit_key(k) && !old(self).choice.focused ==> {
                    &&& is_submit_key(k) ==> (r matches Action::Submit(s) && s@ == old(self).input.buffer@) && final(self).input.buffer@ == Seq::<char>::empty() && final(self).input.caret == 0
                    &&& !is_submit_key(k) && TextInput::consumes(k) ==> r is Idle && final(self).input.buffer@ == TextInput::text_after(
                        old(self).input.buffer@,
                        old(self).input.caret as int,
                        k.code,
                    ) && final(self).input.caret == TextInput::caret_after(
                        old(self).input.buffer@,
                        old(self).input.caret as int,
                        k.code,
                    )
                    &&& !is_submit_key(k) && !TextInput::consumes(k) ==> r is Idle && *final(self)
                        == *old(self)
                }
            },
    {
        let k = match e {
            Event::Key(k) => k,
            _ => {
                return Action::Idle;
            },
        };
        if k.ctrl && k.code == KeyCode::Char('c') {
            if self.quit_fired {
                return Action::Idle;
            }
            self.quit_fired = true;
            return Action::Quit;
        }
        if self.choice.focused() {
            match self.choice.handle(k) {
                ChoiceResponse::Committed(s) => Action::Submit(s),
                _ => Action::Idle,
            }
        } else if !k.ctrl && matches!(k.code, KeyCode::Enter) {
            let s = self.input.take();
            Action::Submit(s)
        } else {
            match self.input.handle(k) {
                InputResponse::Handled => Action::Idle,
                InputResponse::Passthrough => Action::Idle,
            }
        }
    }

    /// Compose one frame for a `cols` by `rows` terminal. The layout is
    /// recomputed from the current size, so a resize takes effect on the
    /// next frame. The main pane shows the choice widget exactly while it
    /// is focused, else the message window the caller's scroll state
    /// picks.
    pub fn draw(&self, cols: u16, rows: u16, messages: &Vec<Message>, scroll: ScrollState) -> (f:
        FrameContent)
        requires
            self.wf(),
        ensures
            is_layout(f.layout, cols as int, rows as int),
            f.channels_title@ == " Channels "@,
            (f.main is Choice) == self.choice.focused,
            f.main matches PaneContent::Choice(ls) ==> styled_views(ls@) == choice_render(
                self.choice.prompt@,
                option_views(self.choice.options@),
                self.choice.selected as nat,
                f.layout.main.w as nat,
                f.layout.main.h as nat,
            ),
            f.main matches PaneContent::Messages(ls) ==> {
                &&& f.layout.main.w >= 3 && f.layout.main.h >= 3 ==> line_views(ls@)
                    == padded_window(
                    all_lines(msgs_view(messages@), (f.layout.main.w - 2) as nat),
                    (f.layout.main.h - 2) as nat,
                    scroll.offset as nat,
                    scroll.follow_tail,
                )
                &&& f.layout.main.w < 3 || f.layout.main.h < 3 ==> ls@.len() == 0
            },
            f.input_line@ == self.input.buffer@,
    {
        let layout = compute_layout(cols, rows);
        let main = if self.choice.focused() {
            PaneContent::Choice(self.choice.draw(layout.main.w, layout.main.h))
        } else {
            PaneContent::Messages(draw_messages(messages, layout.main, scroll))
        };
        FrameContent {
            layout,
            channels_title: String::from_str(" Channels "),
            main,
            input_line: self.input.contents(),
        }
    }
}

/// Law: the quit latch fires exactly once. From a fresh latch the first
/// quit key fires; after any quit key the latch is set and every later
/// quit key is ignored.
pub proof fn lemma_quit_fires_once(fired: bool)
    ensures
        quit_step(false).1,
        !quit_step(quit_step(fired).0).1,
        quit_step(quit_step(fired).0).0 == quit_step(fired).0,
{
}

} // verus!
