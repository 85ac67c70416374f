//! The terminal session lifecycle.
//!
//! The terminal is a process-wide resource whose mode the session alone
//! may change. The core decides *which* mode changes happen and in what
//! order, as plain `TermCommand` values; the unverified shell performs
//! them against the real terminal. `ModeBits` models the four mode bits
//! the commands touch, so that opening and closing a session is a proved
//! round trip on that model.

use vstd::prelude::*;

verus! {

/// The errors the view layer can surface.
#[derive(Clone, Copy, PartialEq, Eq, Structural, Debug)]
pub enum UiError {
    /// Standard output is not a terminal, or raw mode cannot be entered.
    TerminalUnavailable,
}

/// One mode change for the shell to perform on the real terminal.
#[derive(Clone, Copy, PartialEq, Eq, Structural, Debug)]
pub enum TermCommand {
    EnterAltScreen,
    LeaveAltScreen,
    EnableRawMode,
    DisableRawMode,
    EnableMouseCapture,
    DisableMouseCapture,
    HideCursor,
    ShowCursor,
}

/// The terminal mode bits the session touches.
#[derive(Clone, Copy, PartialEq, Eq, Structural, Debug)]
pub struct ModeBits {
    pub raw: bool,
    pub alt_screen: bool,
    pub mouse_capture: bool,
    pub cursor_visible: bool,
}

/// The ordinary cooked terminal: no raw mode, primary screen, no mouse
/// capture, cursor shown.
pub open spec fn cooked_mode() -> ModeBits {
    ModeBits { raw: false, alt_screen: false, mouse_capture: false, cursor_visible: true }
}

/// The mode an open session runs in: raw, alternate screen, mouse
/// capture, cursor hidden.
pub open spec fn session_mode() -> ModeBits {
    ModeBits { raw: true, alt_screen: true, mouse_capture: true, cursor_visible: false }
}

/// What one command does to the mode bits.
pub open spec fn apply_command(m: ModeBits, c: TermCommand) -> ModeBits {
    match c {
        TermCommand::EnterAltScreen => ModeBits { alt_screen: true, ..m },
        TermCommand::LeaveAltScreen => ModeBits { alt_screen: false, ..m },
        TermCommand::EnableRawMode => ModeBits { raw: true, ..m },
        TermCommand::DisableRawMode => ModeBits { raw: false, ..m },
        TermCommand::EnableMouseCapture => ModeBits { mouse_capture: true, ..m },
        TermCommand::DisableMouseCapture => ModeBits { mouse_capture: false, ..m },
        TermCommand::HideCursor => ModeBits { cursor_visible: false, ..m },
        TermCommand::ShowCursor => ModeBits { cursor_visible: true, ..m },
    }
}

/// What a command sequence does to the mode bits, first command first.
pub open spec fn apply_commands(m: ModeBits, cs: Seq<TermCommand>) -> ModeBits
    decreases cs.len(),
{
    if cs.len() == 0 {
        m
    } else {
        apply_commands(apply_command(m, cs.first()), cs.drop_first())
    }
}

/// The commands `open` hands the shell, in order.
pub open spec fn open_commands() -> Seq<TermCommand> {
    seq![
        TermCommand::EnterAltScreen,
        TermCommand::EnableMouseCapture,
        TermCommand::EnableRawMode,
        TermCommand::HideCursor,
    ]
}

/// The commands `close` hands the shell, in order.
pub open spec fn close_commands() -> Seq<TermCommand> {
    seq![
        TermCommand::DisableRawMode,
        TermCommand::LeaveAltScreen,
        TermCommand::DisableMouseCapture,
        TermCommand::ShowCursor,
    ]
}

/// A scoped claim on the terminal. While `active`, the caller owes the
/// terminal exactly one `close` (or `crash`) on every exit path.
pub struct TerminalSession {
    pub active: bool,
}

impl TerminalSession {
    /// Acquire the terminal. `available` says whether standard output is
    /// a terminal that can enter raw mode; the shell determines it. On
    /// success the returned commands put the terminal into session mode.
    pub fn open(available: bool) -> (r: Result<(TerminalSession, Vec<TermCommand>), UiError>)
        ensures
            available ==> (r matches Ok((s, cmds)) && s.active && cmds@ == open_commands()),
            !available ==> (r matches Err(e) && e == UiError::TerminalUnavailable),
    {
        if available {
            let mut cmds: Vec<TermCommand> = Vec::new();
            cmds.push(TermCommand::EnterAltScreen);
            cmds.push(TermCommand::EnableMouseCapture);
            cmds.push(TermCommand::EnableRawMode);
            cmds.push(TermCommand::HideCursor);
            proof {
                assert(cmds@ =~= open_commands());
            }
            Ok((TerminalSession { active: true }, cmds))
        } else {
            Err(UiError::TerminalUnavailable)
        }
    }

    /// Release the terminal. The first call on an active session yields
    /// the restoring commands; any later call is a safe no-op that yields
    /// none, so a double close never disturbs the terminal.
    pub fn close(&mut self) -> (cmds: Vec<TermCommand>)
        ensures
            !final(self).active,
            old(self).active ==> cmds@ == close_commands(),
            !old(self).active ==> cmds@ == Seq::<TermCommand>::empty() && *final(self) == *old(
                self,
            ),
    {
        if !self.active {
            return Vec::new();
        }
        self.active = false;
        let mut cmds: Vec<TermCommand> = Vec::new();
        cmds.push(TermCommand::DisableRawMode);
        cmds.push(TermCommand::LeaveAltScreen);
        cmds.push(TermCommand::DisableMouseCapture);
        cmds.push(TermCommand::ShowCursor);
        proof {
            assert(cmds@ =~= close_commands());
        }
        cmds
    }

    /// The restoration half of the crash path: close the session if one
    /// exists, so the shell can print the error on a restored screen. The
    /// shell never re-enters the alternate screen afterwards.
    pub fn crash(session: Option<TerminalSession>) -> (cmds: Vec<TermCommand>)
        ensures
            (session matches Some(s) && s.active) ==> cmds@ == close_commands(),
            (session matches Some(s) && !s.active) || session is None ==> cmds@
                == Seq::<TermCommand>::empty(),
    {
        match session {
            Some(mut s) => s.close(),
            _ => Vec::new(),
        }
    }
}

/// Law: whatever state the terminal is in — even a partially corrupted
/// one — the closing commands leave it cooked: raw off, primary screen,
/// mouse capture off, cursor visible.
pub proof fn lemma_close_restores(m: ModeBits)
    ensures
        apply_commands(m, close_commands()) == cooked_mode(),
{
    reveal_with_fuel(apply_commands, 5);
}

/// Law: the opening commands put any terminal into session mode.
pub proof fn lemma_open_enters_session_mode(m: ModeBits)
    ensures
        apply_commands(m, open_commands()) == session_mode(),
{
    reveal_with_fuel(apply_commands, 5);
}

/// Law: a session opened on a cooked terminal and then closed leaves the
/// mode bits exactly as they were before the open.
pub proof fn lemma_open_close_round_trip(m: ModeBits)
    requires
        m == cooked_mode(),
    ensures
        apply_commands(apply_commands(m, open_commands()), close_commands()) == m,
{
    lemma_open_enters_session_mode(m);
    lemma_close_restores(apply_commands(m, open_commands()));
}

} // verus!
