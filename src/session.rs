use vstd::prelude::*;
use crate::line::{LineKind, LineClass, classify, classify_line};
use crate::render::ViewportSize;
use crate::scale::{Unit, scale, tier_of, scaled_value};
use crate::text::{trim, trimmed};
use crate::window::{SampleWindow, pushed, capacity_for};

verus! {

/// The flag that the interface and the measurement worker share to agree on
/// restarts and shutdown.
#[derive(PartialEq, Eq, Structural, Clone, Copy, Debug)]
pub enum ControlState {
    /// Running steadily.
    Normal,
    /// A new configuration is in place; the running session is to stop.
    ReloadRequested,
    /// Shutting down; no session starts again.
    Quit,
}

impl ControlState {
    /// The state once a session begins: back to `Normal`, unless shutting down.
    pub fn begin_session(self) -> (r: ControlState)
        ensures
            r == (if self == ControlState::Quit { ControlState::Quit } else { ControlState::Normal }),
    {
        match self {
            ControlState::Quit => ControlState::Quit,
            _ => ControlState::Normal,
        }
    }

    /// The state once a new configuration has been stored: a restart is asked
    /// for, unless shutting down.
    pub fn request_reload(self) -> (r: ControlState)
        ensures
            r == (if self == ControlState::Quit {
                ControlState::Quit
            } else {
                ControlState::ReloadRequested
            }),
    {
        match self {
            ControlState::Quit => ControlState::Quit,
            _ => ControlState::ReloadRequested,
        }
    }

    /// What the worker does between sessions.
    pub fn between_sessions(self) -> (r: Between)
        ensures
            r == (match self {
                ControlState::Normal => Between::Wait,
                ControlState::ReloadRequested => Between::Start,
                ControlState::Quit => Between::Exit,
            }),
    {
        match self {
            ControlState::Normal => Between::Wait,
            ControlState::ReloadRequested => Between::Start,
            ControlState::Quit => Between::Exit,
        }
    }
}

/// The worker's choice between two sessions.
#[derive(PartialEq, Eq, Structural, Clone, Copy, Debug)]
pub enum Between {
    /// Check the control state again later.
    Wait,
    /// Start a session with the configuration now stored.
    Start,
    /// Leave the worker.
    Exit,
}

/// What the data phase does next.
#[derive(PartialEq, Eq, Structural, Clone, Copy, Debug)]
pub enum Poll {
    /// Read the next byte of the tool's output.
    Read,
    /// Stop reading; the process with this identifier, if any, is to be killed.
    Stop(Option<i32>),
}

/// The name of the text that `String::from_utf8_lossy` makes of some bytes.
pub uninterp spec fn lossy_text(b: Seq<u8>) -> Seq<char>;

/// Relies on `String::from_utf8_lossy`: decodes UTF-8, putting U+FFFD in place
/// of each invalid sequence; the result depends on the bytes alone.
#[verifier::external_body]
fn decode_lossy(b: &Vec<u8>) -> (r: String)
    ensures
        r@ == lossy_text(b@),
{
    String::from_utf8_lossy(b.as_slice()).into_owned()
}

/// One measurement session: the process it started, the part of the current
/// output line read so far, and the samples taken.
pub struct Session {
    pid: Option<i32>,
    pending: Vec<u8>,
    window: SampleWindow,
    stopped: bool,
}

/// A session as its contracts see it.
pub ghost struct SessionState {
    pub pid: Option<i32>,
    pub pending: Seq<u8>,
    pub window: Seq<u64>,
    pub stopped: bool,
}

/// The session that `poll` leaves under control state `c`.
pub open spec fn poll_next(s: SessionState, c: ControlState) -> SessionState {
    if c == ControlState::Normal && !s.stopped {
        s
    } else {
        SessionState { pid: None, stopped: true, ..s }
    }
}

/// What `poll` answers under control state `c`.
pub open spec fn poll_result(s: SessionState, c: ControlState) -> Poll {
    if c == ControlState::Normal && !s.stopped {
        Poll::Read
    } else {
        Poll::Stop(s.pid)
    }
}

/// The reading that a line gives, if it is a sample line.
pub open spec fn reading_of(line: Seq<char>) -> Option<nat> {
    match classify(line) {
        LineClass::Sample(v, _) => Some(v),
        _ => None,
    }
}

/// A rendering job: the unit picked for the window, and each sample in
/// millionths of that unit, oldest first.
pub struct Frame {
    pub unit: Unit,
    pub values: Vec<u128>,
}

impl Frame {
    /// The frame shows window `w` as `scale` does.
    pub open spec fn shows(&self, w: Seq<u64>) -> bool {
        &&& self.unit == tier_of(w)
        &&& self.values@.len() == w.len()
        &&& forall|i: int| 0 <= i < w.len() ==> self.values@[i] == scaled_value(#[trigger] w[i] as nat, self.unit)
    }
}

impl Session {
    pub closed spec fn state(&self) -> SessionState {
        SessionState {
            pid: self.pid,
            pending: self.pending@,
            window: self.window@,
            stopped: self.stopped,
        }
    }

    /// A session for the process `pid`, with nothing read yet. An identifier
    /// beyond `i32` is not kept.
    pub fn start(pid: u32) -> (r: Session)
        ensures
            r.state().pid == (if pid <= i32::MAX as u32 { Some(pid as i32) } else { None }),
            r.state().pending.len() == 0,
            r.state().window.len() == 0,
            !r.state().stopped,
    {
        let kept = if pid <= i32::MAX as u32 {
            Some(pid as i32)
        } else {
            None
        };
        Session { pid: kept, pending: Vec::new(), window: SampleWindow::new(), stopped: false }
    }

    /// The process identifier held, if any.
    pub fn pid(&self) -> (r: Option<i32>)
        ensures
            r == self.state().pid,
    {
        self.pid
    }

    /// The samples taken so far, oldest first.
    pub fn samples(&self) -> (r: &Vec<u64>)
        ensures
            r@ == self.state().window,
    {
        self.window.samples()
    }

    /// Checked before every read: in `Normal` state the session reads on; in
    /// any other state, or once stopped, it stops without touching the stream,
    /// and hands over the process identifier to kill, which it no longer holds.
    pub fn poll(&mut self, control: ControlState) -> (r: Poll)
        ensures
            r == poll_result(old(self).state(), control),
            final(self).state() == poll_next(old(self).state(), control),
    {
        if control == ControlState::Normal && !self.stopped {
            Poll::Read
        } else {
            self.finish()
        }
    }

    /// The output stream has ended: the session stops and hands over the
    /// process identifier to kill, which it no longer holds.
    pub fn finish(&mut self) -> (r: Poll)
        ensures
            r == Poll::Stop(old(self).state().pid),
            final(self).state() == (SessionState { pid: None, stopped: true, ..old(self).state() }),
    {
        let pid = self.pid;
        self.pid = None;
        self.stopped = true;
        Poll::Stop(pid)
    }

    /// Takes one complete line: a sample line adds its reading to the window,
    /// trimmed to what the viewport's width allows, and yields the window
    /// scaled for display; any other line changes nothing.
    pub fn on_line(&mut self, line: &str, viewport: ViewportSize) -> (r: Option<Frame>)
        ensures
            final(self).state().pid == old(self).state().pid,
            final(self).state().pending == old(self).state().pending,
            final(self).state().stopped == old(self).state().stopped,
            match reading_of(line@) {
                Some(v) => {
                    &&& final(self).state().window == pushed(
                        old(self).state().window,
                        v as u64,
                        capacity_for(viewport.width),
                    )
                    &&& r matches Some(f) && f.shows(final(self).state().window)
                },
                None => final(self).state().window == old(self).state().window && r is None,
            },
    {
        match classify_line(line) {
            LineKind::Sample { rate, unit: _ } => {
                self.window.push_for_width(rate, viewport.width);
                let (unit, values) = scale(self.window.samples());
                Some(Frame { unit, values })
            },
            _ => None,
        }
    }

    /// Takes one byte of the tool's output. A newline completes the pending
    /// line, which is decoded (invalid UTF-8 replaced, never refused) and taken
    /// as `on_line` does; any other byte is added to the pending line.
    pub fn on_byte(&mut self, byte: u8, viewport: ViewportSize) -> (r: Option<Frame>)
        ensures
            final(self).state().pid == old(self).state().pid,
            final(self).state().stopped == old(self).state().stopped,
            byte != 10 ==> final(self).state().pending == old(self).state().pending.push(byte)
                && final(self).state().window == old(self).state().window && r is None,
            byte == 10 ==> final(self).state().pending.len() == 0 && match reading_of(
                lossy_text(old(self).state().pending),
            ) {
                Some(v) => {
                    &&& final(self).state().window == pushed(
                        old(self).state().window,
                        v as u64,
                        capacity_for(viewport.width),
                    )
                    &&& r matches Some(f) && f.shows(final(self).state().window)
                },
                None => final(self).state().window == old(self).state().window && r is None,
            },
    {
        if byte == 10 {
            let text = decode_lossy(&self.pending);
            self.pending = Vec::new();
            self.on_line(text.as_str(), viewport)
        } else {
            self.pending.push(byte);
            None
        }
    }
}

/// Shown, in place of a graph, while no target is configured.
pub fn no_server_message() -> (r: String)
    ensures
        r@ == "Server is not selected.\nYou can quit, specify a server on the command line\nor select a server from the menu"@,
{
    String::from_str(
        "Server is not selected.\nYou can quit, specify a server on the command line\nor select a server from the menu",
    )
}

/// Shown while the error stream of a new session is watched.
pub fn checking_message(server: &str) -> (r: String)
    ensures
        r@ == "Checking connection to "@ + server@ + " ..."@,
{
    let mut out = String::from_str("Checking connection to ");
    out.append(server);
    out.append(" ...");
    out
}

/// The verdict on what the tool wrote to its error stream in the first
/// seconds of a session: nothing lets the session go on to read its output,
/// with a note to show; anything is a failure to connect, shown trimmed with a
/// hint, and ends the session.
pub fn validation_outcome(stderr_text: &str, server: &str) -> (r: Result<String, String>)
    ensures
        stderr_text@.len() == 0 ==> (r matches Ok(m) && m@ == "No immediate error from "@ + server@
            + " ..."@),
        stderr_text@.len() != 0 ==> (r matches Err(m) && m@ == trimmed(stderr_text@)
            + "\nYou can quit or select another server"@),
{
    if stderr_text.unicode_len() == 0 {
        let mut out = String::from_str("No immediate error from ");
        out.append(server);
        out.append(" ...");
        Ok(out)
    } else {
        let mut out = trim(stderr_text);
        out.append("\nYou can quit or select another server");
        Err(out)
    }
}

/// Once a restart is asked for while a session is reading, the next check
/// stops it: no further byte is taken, the line read so far and the samples
/// stay as they were, the process is handed over to be killed, and the session
/// holds no process identifier after.
pub proof fn lemma_reload_stops_reading(s: SessionState)
    requires
        !s.stopped,
    ensures
        poll_result(s, ControlState::ReloadRequested) == Poll::Stop(s.pid),
        poll_next(s, ControlState::ReloadRequested).pid is None,
        poll_next(s, ControlState::ReloadRequested).stopped,
        poll_next(s, ControlState::ReloadRequested).pending == s.pending,
        poll_next(s, ControlState::ReloadRequested).window == s.window,
        poll_result(poll_next(s, ControlState::ReloadRequested), ControlState::Normal) == Poll::Stop(None),
{
}

} // verus!
