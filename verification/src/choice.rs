//! The modal choice widget: a prompt with an ordered list of answers.
//!
//! The widget is either hidden or focused. While focused it owns every
//! non-global key: up/down (or `k`/`j`) move the selection with saturation
//! at both ends, enter commits the selected option, escape cancels, and
//! any other key is swallowed. While hidden every key passes through.

use vstd::prelude::*;

use crate::events::{KeyCode, KeyEvent};
use crate::text::{trunc_ellipsis, truncate_ellipsis};

verus! {

/// What the widget did with a key.
pub enum ChoiceResponse {
    /// The key was consumed without closing the widget.
    Consumed,
    /// Enter committed the carried option; the widget is now hidden.
    Committed(String),
    /// Escape dismissed the widget without an answer.
    Cancelled,
    /// The widget is hidden and did not look at the key.
    Passthrough,
}

/// One line of the rendered widget: its text and whether it is drawn
/// highlighted (the selected option).
pub struct StyledLine {
    pub text: String,
    pub highlighted: bool,
}

/// A modal prompt with an ordered option list and a selection.
pub struct ChoiceWidget {
    pub prompt: String,
    pub options: Vec<String>,
    pub selected: usize,
    pub focused: bool,
}

/// The selection after one step down: saturates at the last option.
pub open spec fn sel_down(sel: nat, n: nat) -> nat {
    if sel + 1 < n {
        sel + 1
    } else if n > 0 {
        (n - 1) as nat
    } else {
        0
    }
}

/// The selection after one step up: saturates at the first option.
pub open spec fn sel_up(sel: nat) -> nat {
    if sel > 0 {
        (sel - 1) as nat
    } else {
        0
    }
}

/// The selection after `k` steps down.
pub open spec fn sel_down_iter(sel: nat, n: nat, k: nat) -> nat
    decreases k,
{
    if k == 0 {
        sel
    } else {
        sel_down_iter(sel_down(sel, n), n, (k - 1) as nat)
    }
}

/// The selection after `k` steps up.
pub open spec fn sel_up_iter(sel: nat, k: nat) -> nat
    decreases k,
{
    if k == 0 {
        sel
    } else {
        sel_up_iter(sel_up(sel), (k - 1) as nat)
    }
}

/// Whether a key moves the selection down or up.
pub open spec fn moves_down(k: KeyEvent) -> bool {
    !k.ctrl && (k.code == KeyCode::Down || k.code == KeyCode::Char('j'))
}

pub open spec fn moves_up(k: KeyEvent) -> bool {
    !k.ctrl && (k.code == KeyCode::Up || k.code == KeyCode::Char('k'))
}

pub open spec fn commits(k: KeyEvent) -> bool {
    !k.ctrl && k.code == KeyCode::Enter
}

pub open spec fn cancels(k: KeyEvent) -> bool {
    !k.ctrl && k.code == KeyCode::Escape
}

/// Index of the first option shown when `avail` option rows are on screen:
/// scrolled just far enough that the selected option stays visible.
pub open spec fn first_shown(sel: nat, avail: nat) -> nat {
    if avail == 0 {
        0
    } else if sel >= avail {
        (sel + 1 - avail) as nat
    } else {
        0
    }
}

/// The rendered widget as plain data: prompt on the first line, a blank
/// line, then the visible options, each cut to the pane width; the
/// selected option is the one highlighted line. At most `h` lines.
pub open spec fn choice_render(
    prompt: Seq<char>,
    opts: Seq<Seq<char>>,
    sel: nat,
    w: nat,
    h: nat,
) -> Seq<(Seq<char>, bool)> {
    let avail: nat = if h >= 2 {
        (h - 2) as nat
    } else {
        0
    };
    let first = first_shown(sel, avail);
    let shown: nat = if opts.len() >= first {
        if opts.len() - first <= avail {
            (opts.len() - first) as nat
        } else {
            avail
        }
    } else {
        0
    };
    let header = seq![(trunc_ellipsis(prompt, w), false), (Seq::<char>::empty(), false)];
    let body = Seq::new(shown, |i: int| (trunc_ellipsis(opts[first + i], w), first + i == sel));
    (header + body).take(if h <= header.len() + body.len() {
        h as int
    } else {
        (header.len() + body.len()) as int
    })
}

/// The views of a rendered line list, for stating contracts.
pub open spec fn styled_views(ls: Seq<StyledLine>) -> Seq<(Seq<char>, bool)> {
    ls.map_values(|l: StyledLine| (l.text@, l.highlighted))
}

/// The views of an option list.
pub open spec fn option_views(opts: Seq<String>) -> Seq<Seq<char>> {
    opts.map_values(|o: String| o@)
}

impl ChoiceWidget {
    /// While any option exists the selection points at one; an empty list
    /// cannot be focused and pins the selection to zero.
    pub open spec fn wf(self) -> bool {
        &&& self.options@.len() > 0 ==> self.selected < self.options@.len()
        &&& self.options@.len() == 0 ==> self.selected == 0 && !self.focused
    }

    /// A widget showing `prompt` and `options`, focused on the first
    /// option. With no options it starts hidden and still renders the
    /// prompt.
    pub fn new(prompt: String, options: Vec<String>) -> (c: ChoiceWidget)
        ensures
            c.wf(),
            c.prompt@ == prompt@,
            c.options@ == options@,
            c.selected == 0,
            c.focused == (options@.len() > 0),
    {
        let focused = options.len() > 0;
        ChoiceWidget { prompt, options, selected: 0, focused }
    }

    pub fn focused(&self) -> (r: bool)
        ensures
            r == self.focused,
    {
        self.focused
    }

    /// Re-open the widget with a new prompt and a non-empty option list;
    /// the selection starts at the top.
    pub fn show(&mut self, prompt: String, options: Vec<String>)
        requires
            options@.len() > 0,
        ensures
            final(self).wf(),
            final(self).prompt@ == prompt@,
            final(self).options@ == options@,
            final(self).selected == 0,
            final(self).focused,
    {
        self.prompt = prompt;
        self.options = options;
        self.selected = 0;
        self.focused = true;
    }

    /// Apply one keystroke. Hidden: everything passes through. Focused:
    /// up/down saturate the selection, enter commits the selected option
    /// and hides the widget, escape hides it without an answer, and any
    /// other key is swallowed unchanged.
    pub fn handle(&mut self, k: KeyEvent) -> (r: ChoiceResponse)
        requires
            old(self).wf(),
        ensures
            final(self).wf(),
            final(self).prompt@ == old(self).prompt@,
            final(self).options@ == old(self).options@,
            !old(self).focused ==> r is Passthrough && *final(self) == *old(self),
            old(self).focused ==> {
                &&& commits(k) ==> (r matches ChoiceResponse::Committed(s)
                    && s@ == old(self).options@[old(self).selected as int]@)
                    && !final(self).focused && final(self).selected == old(self).selected
                &&& cancels(k) ==> r is Cancelled && !final(self).focused && final(self).selected
                    == old(self).selected
                &&& moves_down(k) ==> r is Consumed && final(self).focused && final(self).selected
                    == sel_down(old(self).selected as nat, old(self).options@.len())
                &&& moves_up(k) ==> r is Consumed && final(self).focused && final(self).selected
                    == sel_up(old(self).selected as nat)
                &&& !(commits(k) || cancels(k) || moves_down(k) || moves_up(k)) ==> r is Consumed
                    && *final(self) == *old(self)
            },
    {
        if !self.focused {
            return ChoiceResponse::Passthrough;
        }
        if k.ctrl {
            return ChoiceResponse::Consumed;
        }
        match k.code {
            KeyCode::Enter => {
                self.focused = false;
                ChoiceResponse::Committed(self.options[self.selected].clone())
            },
            KeyCode::Escape => {
                self.focused = false;
                ChoiceResponse::Cancelled
            },
            KeyCode::Down | KeyCode::Char('j') => {
                let n = self.options.len();
                if n > 0 && self.selected + 1 < n {
                    self.selected = self.selected + 1;
                }
                ChoiceResponse::Consumed
            },
            KeyCode::Up | KeyCode::Char('k') => {
                if self.selected > 0 {
                    self.selected = self.selected - 1;
                }
                ChoiceResponse::Consumed
            },
            _ => ChoiceResponse::Consumed,
        }
    }

    /// Render into a pane `w` cells wide and `h` rows tall, exactly as
    /// `choice_render` describes.
    pub fn draw(&self, w: u16, h: u16) -> (r: Vec<StyledLine>)
        requires
            self.wf(),
        ensures
            styled_views(r@) == choice_render(
                self.prompt@,
                option_views(self.options@),
                self.selected as nat,
                w as nat,
                h as nat,
            ),
    {
        let ghost goal = choice_render(
            self.prompt@,
            option_views(self.options@),
            self.selected as nat,
            w as nat,
            h as nat,
        );
        let mut out: Vec<StyledLine> = Vec::new();
        if h == 0 {
            proof {
                assert(styled_views(out@) =~= goal);
            }
            return out;
        }
        out.push(StyledLine { text: truncate_ellipsis(&self.prompt, w as usize), highlighted: false });
        if h == 1 {
            proof {
                assert(styled_views(out@) =~= goal);
            }
            return out;
        }
        out.push(StyledLine { text: String::new(), highlighted: false });
        let n = self.options.len();
        let avail: usize = (h - 2) as usize;
        let first: usize = if avail == 0 {
            0
        } else if self.selected >= avail {
            self.selected + 1 - avail
        } else {
            0
        };
        let shown: usize = if n >= first {
            if n - first <= avail {
                n - first
            } else {
                avail
            }
        } else {
            0
        };
        let mut i: usize = 0;
        while i < shown
            invariant
                i <= shown,
                n == self.options@.len(),
                first + shown <= n,
                self.wf(),
                out@.len() == 2 + i,
                out@[0].text@ == trunc_ellipsis(self.prompt@, w as nat),
                out@[0].highlighted == false,
                out@[1].text@ == Seq::<char>::empty(),
                out@[1].highlighted == false,
                forall|t: int|
                    2 <= t < 2 + i ==> #[trigger] out@[t].text@ == trunc_ellipsis(
                        self.options@[first + t - 2]@,
                        w as nat,
                    ) && out@[t].highlighted == (first + t - 2 == self.selected),
            decreases shown - i,
        {
            out.push(
                StyledLine {
                    text: truncate_ellipsis(&self.options[first + i], w as usize),
                    highlighted: first + i == self.selected,
                },
            );
            i = i + 1;
        }
        proof {
            let sv = styled_views(out@);
            assert forall|t: int| 0 <= t < sv.len() implies sv[t] == goal[t] by {
                assert(sv[t] == (out@[t].text@, out@[t].highlighted));
                if t >= 2 {
                    assert(out@[t].text@ == trunc_ellipsis(self.options@[first + t - 2]@, w as nat));
                }
            }
            assert(sv =~= goal);
        }
        out
    }
}

/// Law: whenever the pane has room for any option row, the selected
/// option is on screen — it is the one highlighted rendered line.
pub proof fn lemma_selected_visible(
    prompt: Seq<char>,
    opts: Seq<Seq<char>>,
    sel: nat,
    w: nat,
    h: nat,
)
    requires
        h >= 3,
        sel < opts.len(),
    ensures
        ({
            let avail = (h - 2) as nat;
            let p = 2 + sel - first_shown(sel, avail);
            let r = choice_render(prompt, opts, sel, w, h);
            0 <= p < r.len() && r[p as int].1
        }),
{
}

/// Law: from any valid selection in a non-empty option list, `k` steps
/// down land on the last option once `k` covers the distance to it, and
/// stay there ever after.
pub proof fn lemma_down_saturates(sel: nat, n: nat, k: nat)
    requires
        n > 0,
        sel < n,
        k >= n - 1 - sel,
    ensures
        sel_down_iter(sel, n, k) == n - 1,
    decreases k,
{
    if k > 0 {
        lemma_down_saturates(sel_down(sel, n), n, (k - 1) as nat);
    }
}

/// Law: from any selection, `k` steps up land on the first option once
/// `k` covers the distance to it, and stay there ever after.
pub proof fn lemma_up_saturates(sel: nat, k: nat)
    requires
        k >= sel,
    ensures
        sel_up_iter(sel, k) == 0,
    decreases k,
{
    if k > 0 {
        lemma_up_saturates(sel_up(sel), (k - 1) as nat);
    }
}

} // verus!
