//! The scrollable message view.
//!
//! Each message renders as one or more lines, wrapped at the pane's inner
//! width by character cells. The view shows a window of those lines: with
//! `follow_tail` set the window ends at the most recent line; otherwise it
//! ends `offset` lines above the tail. When fewer lines exist than fit,
//! they are bottom-aligned under blank padding. The shell draws the border
//! around the lines this module computes.

use vstd::prelude::*;

use crate::layout::Rect;
use crate::text::{chars_to_string, str_chars};

verus! {

/// One chat message; the view only needs its display text.
pub struct Message {
    pub text: String,
}

/// The caller-supplied scroll state: `offset` counts lines up from the
/// tail and is ignored while `follow_tail` is set.
#[derive(Clone, Copy, PartialEq, Eq, Structural, Debug)]
pub struct ScrollState {
    pub offset: u16,
    pub follow_tail: bool,
}

/// The texts of a message sequence.
pub open spec fn msgs_view(ms: Seq<Message>) -> Seq<Seq<char>> {
    ms.map_values(|m: Message| m.text@)
}

/// The views of a rendered line list.
pub open spec fn line_views(ls: Seq<String>) -> Seq<Seq<char>> {
    ls.map_values(|l: String| l@)
}

/// `s` cut into lines of at most `w` cells; a message that fits (or is
/// empty) is a single line.
pub open spec fn wrap_line(s: Seq<char>, w: nat) -> Seq<Seq<char>>
    decreases s.len(),
{
    if s.len() <= w || w == 0 {
        seq![s]
    } else {
        seq![s.take(w as int)] + wrap_line(s.skip(w as int), w)
    }
}

/// All messages wrapped at width `w`, in order.
pub open spec fn all_lines(msgs: Seq<Seq<char>>, w: nat) -> Seq<Seq<char>>
    decreases msgs.len(),
{
    if msgs.len() == 0 {
        Seq::empty()
    } else {
        all_lines(msgs.drop_last(), w) + wrap_line(msgs.last(), w)
    }
}

/// Index one past the last visible line: the tail itself, or `offset`
/// lines above it (saturating at the top).
pub open spec fn window_end(total: nat, offset: nat, follow_tail: bool) -> nat {
    if follow_tail {
        total
    } else if offset <= total {
        (total - offset) as nat
    } else {
        0
    }
}

/// The window of at most `h` lines ending at `window_end`.
pub open spec fn visible(lines: Seq<Seq<char>>, h: nat, offset: nat, follow_tail: bool) -> Seq<
    Seq<char>,
> {
    let end = window_end(lines.len(), offset, follow_tail);
    let start: nat = if end >= h {
        (end - h) as nat
    } else {
        0
    };
    lines.subrange(start as int, end as int)
}

/// The window padded with blank lines on top to exactly `h` lines, so the
/// newest visible line sits at the bottom of the pane.
pub open spec fn padded_window(lines: Seq<Seq<char>>, h: nat, offset: nat, follow_tail: bool) -> Seq<
    Seq<char>,
> {
    let vis = visible(lines, h, offset, follow_tail);
    Seq::new((h - vis.len()) as nat, |i: int| Seq::<char>::empty()) + vis
}

/// Wrap one message text at width `w`.
fn wrap_text(text: &String, w: usize) -> (r: Vec<String>)
    requires
        w >= 1,
    ensures
        line_views(r@) == wrap_line(text@, w as nat),
{
    let cs = str_chars(text.as_str());
    let n = cs.len();
    let mut out: Vec<String> = Vec::new();
    let mut start: usize = 0;
    proof {
        assert(cs@.skip(0) =~= text@);
        assert(line_views(out@) + wrap_line(cs@.skip(0), w as nat) =~= wrap_line(
            text@,
            w as nat,
        ));
    }
    while n - start > w
        invariant
            w >= 1,
            start <= n == cs@.len(),
            cs@ == text@,
            line_views(out@) + wrap_line(cs@.skip(start as int), w as nat) == wrap_line(
                text@,
                w as nat,
            ),
        decreases n - start,
    {
        let mut chunk: Vec<char> = Vec::new();
        let mut j: usize = start;
        while j < start + w
            invariant
                start <= j <= start + w,
                start + w < n == cs@.len(),
                chunk@ == cs@.subrange(start as int, j as int),
            decreases start + w - j,
        {
            chunk.push(cs[j]);
            proof {
                assert(cs@.subrange(start as int, j + 1) =~= cs@.subrange(
                    start as int,
                    j as int,
                ).push(cs@[j as int]));
            }
            j = j + 1;
        }
        out.push(chars_to_string(&chunk));
        proof {
            let rest = cs@.skip(start as int);
            assert(chunk@ =~= rest.take(w as int));
            assert(rest.skip(w as int) =~= cs@.skip(start + w));
            assert(line_views(out@) =~= line_views(out@.drop_last()).push(chunk@));
            assert(line_views(out@) + wrap_line(cs@.skip(start + w), w as nat) =~= wrap_line(
                text@,
                w as nat,
            ));
        }
        start = start + w;
    }
    let mut chunk: Vec<char> = Vec::new();
    let mut j: usize = start;
    while j < n
        invariant
            start <= j <= n,
            n == cs@.len(),
            chunk@ == cs@.subrange(start as int, j as int),
        decreases n - j,
    {
        chunk.push(cs[j]);
        proof {
            assert(cs@.subrange(start as int, j + 1) =~= cs@.subrange(start as int, j as int).push(
                cs@[j as int],
            ));
        }
        j = j + 1;
    }
    out.push(chars_to_string(&chunk));
    proof {
        assert(chunk@ =~= cs@.skip(start as int));
        assert(wrap_line(cs@.skip(start as int), w as nat) =~= seq![cs@.skip(start as int)]);
        assert(line_views(out@) =~= line_views(out@.drop_last()).push(chunk@));
        assert(line_views(out@) =~= wrap_line(text@, w as nat));
    }
    out
}

/// All messages wrapped at width `w`, in order.
fn collect_lines(messages: &Vec<Message>, w: usize) -> (r: Vec<String>)
    requires
        w >= 1,
    ensures
        line_views(r@) == all_lines(msgs_view(messages@), w as nat),
{
    let mut out: Vec<String> = Vec::new();
    let mut m: usize = 0;
    proof {
        assert(msgs_view(messages@.take(0)) =~= Seq::<Seq<char>>::empty());
        assert(line_views(out@) =~= all_lines(msgs_view(messages@.take(0)), w as nat));
    }
    while m < messages.len()
        invariant
            w >= 1,
            m <= messages@.len(),
            line_views(out@) == all_lines(msgs_view(messages@.take(m as int)), w as nat),
        decreases messages@.len() - m,
    {
        let mut wrapped = wrap_text(&messages[m].text, w);
        let ghost wrapped_views = line_views(wrapped@);
        let ghost out_before = out@;
        out.append(&mut wrapped);
        proof {
            let av1 = msgs_view(messages@.take(m + 1));
            assert(av1.drop_last() =~= msgs_view(messages@.take(m as int)));
            assert(av1.last() == messages@[m as int].text@);
            assert(line_views(out@) =~= line_views(out_before) + wrapped_views);
            assert(line_views(out@) =~= all_lines(av1, w as nat));
        }
        m = m + 1;
    }
    proof {
        assert(messages@.take(messages@.len() as int) =~= messages@);
    }
    out
}

/// Render the messages into `rect`: the lines inside the border, oldest
/// first, exactly the `padded_window` of the wrapped lines. A rectangle
/// too small to hold anything inside its border renders no lines.
pub fn draw_messages(messages: &Vec<Message>, rect: Rect, scroll: ScrollState) -> (r: Vec<String>)
    ensures
        rect.w >= 3 && rect.h >= 3 ==> line_views(r@) == padded_window(
            all_lines(msgs_view(messages@), (rect.w - 2) as nat),
            (rect.h - 2) as nat,
            scroll.offset as nat,
            scroll.follow_tail,
        ),
        rect.w < 3 || rect.h < 3 ==> r@.len() == 0,
{
    if rect.w < 3 || rect.h < 3 {
        return Vec::new();
    }
    let w: usize = (rect.w - 2) as usize;
    let h: usize = (rect.h - 2) as usize;
    let lines = collect_lines(messages, w);
    let total = lines.len();
    let end: usize = if scroll.follow_tail {
        total
    } else if (scroll.offset as usize) <= total {
        total - (scroll.offset as usize)
    } else {
        0
    };
    let start: usize = if end >= h {
        end - h
    } else {
        0
    };
    let ghost all = all_lines(msgs_view(messages@), w as nat);
    let ghost goal = padded_window(all, h as nat, scroll.offset as nat, scroll.follow_tail);
    let mut out: Vec<String> = Vec::new();
    let pad: usize = h - (end - start);
    let mut p: usize = 0;
    while p < pad
        invariant
            p <= pad,
            out@.len() == p,
            forall|t: int| 0 <= t < p ==> #[trigger] out@[t]@ == Seq::<char>::empty(),
        decreases pad - p,
    {
        out.push(String::new());
        p = p + 1;
    }
    let mut i: usize = start;
    while i < end
        invariant
            start <= i <= end <= lines@.len(),
            out@.len() == pad + i - start,
            forall|t: int| 0 <= t < pad ==> #[trigger] out@[t]@ == Seq::<char>::empty(),
            forall|t: int|
                pad <= t < out@.len() ==> #[trigger] out@[t]@ == lines@[start + t - pad]@,
        decreases end - i,
    {
        out.push(lines[i].clone());
        i = i + 1;
    }
    proof {
        let lv = line_views(out@);
        assert forall|t: int| 0 <= t < lv.len() implies lv[t] == goal[t] by {
            assert(lv[t] == out@[t]@);
            if t >= pad {
                assert(out@[t]@ == lines@[start + t - pad]@);
                assert(line_views(lines@)[start + t - pad] == lines@[start + t - pad]@);
            }
        }
        assert(lv =~= goal);
    }
    out
}

/// Law: wrapping at a positive width produces no line wider than the
/// pane.
pub proof fn lemma_wrap_lines_fit(s: Seq<char>, w: nat, i: int)
    requires
        w >= 1,
        0 <= i < wrap_line(s, w).len(),
    ensures
        wrap_line(s, w)[i].len() <= w,
    decreases s.len(),
{
    if s.len() > w && i > 0 {
        lemma_wrap_lines_fit(s.skip(w as int), w, i - 1);
    }
}

/// Law: while `follow_tail` is set the newest line is the last visible
/// line, whatever the offset says; with it clear and an in-range offset,
/// the last visible line sits exactly `offset` lines above the tail.
pub proof fn lemma_window_tail(lines: Seq<Seq<char>>, h: nat, offset: nat, follow_tail: bool)
    requires
        h >= 1,
        window_end(lines.len(), offset, follow_tail) >= 1,
    ensures
        visible(lines, h, offset, follow_tail).len() >= 1,
        follow_tail ==> visible(lines, h, offset, follow_tail).last() == lines.last(),
        !follow_tail && offset <= lines.len() ==> visible(lines, h, offset, follow_tail).last()
            == lines[lines.len() - offset - 1],
{
}

} // verus!
