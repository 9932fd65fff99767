//! The supervisor's own decisions: its configuration, its setup errors, the
//! window size it starts with, what each trapped signal turns into, and the
//! exit code it finally returns.
use vstd::prelude::*;
use vstd::string::StringExecFns;

use crate::prompt::{termination_code, Termination};

verus! {

/// What one run of the supervisor is given.
pub struct RunConfig {
    /// The program to launch and its arguments; never empty.
    pub command: Vec<String>,
    /// The credential to type in at the prompt.
    pub password: String,
    /// The text whose appearance in the child's output means a prompt.
    pub prompt: String,
    /// Whether to report progress on standard error.
    pub verbose: bool,
}

/// A failure while setting up the pty and the child; the text is the
/// underlying error's.
#[derive(Debug)]
pub enum PtyError {
    Open(String),
    Spawn(String),
    Reader(String),
    Writer(String),
}

/// The one-line description of a setup failure.
pub open spec fn pty_error_message(e: PtyError) -> Seq<char> {
    match e {
        PtyError::Open(d) => "failed to open pseudo terminal: "@ + d@,
        PtyError::Spawn(d) => "failed to spawn command: "@ + d@,
        PtyError::Reader(d) => "failed to get pty reader: "@ + d@,
        PtyError::Writer(d) => "failed to get pty writer: "@ + d@,
    }
}

impl PtyError {
    pub fn message(&self) -> (r: String)
        ensures
            r@ == pty_error_message(*self),
    {
        let (head, detail) = match self {
            PtyError::Open(d) => ("failed to open pseudo terminal: ", d),
            PtyError::Spawn(d) => ("failed to spawn command: ", d),
            PtyError::Reader(d) => ("failed to get pty reader: ", d),
            PtyError::Writer(d) => ("failed to get pty writer: ", d),
        };
        let mut r = String::from_str(head);
        r.append(detail.as_str());
        r
    }
}

/// Exit code for a failure of setup or of reading the password.
pub const EXIT_RUNTIME_ERROR: i32 = 3;

/// Exit code when the child's own status could not be had or does not fit.
pub const EXIT_STATUS_UNAVAILABLE: i32 = 255;

/// The exit code of a run: a code the state machine recorded (any value but
/// zero) wins; otherwise the child's status when it is at most 255, and 255
/// when it is larger or unknown.
pub open spec fn final_code(recorded: i32, child: Option<u32>) -> i32 {
    if recorded != 0 {
        recorded
    } else {
        match child {
            Some(c) => if c <= 255 { c as i32 } else { EXIT_STATUS_UNAVAILABLE },
            None => EXIT_STATUS_UNAVAILABLE,
        }
    }
}

/// Combines the code recorded by the state machine (zero for none) with the
/// child's exit status, if the wait for it succeeded.
pub fn final_exit_code(recorded: i32, child: Option<u32>) -> (r: i32)
    ensures
        r == final_code(recorded, child),
{
    if recorded != 0 {
        return recorded;
    }
    match child {
        Some(c) => if c <= 255 {
            c as i32
        } else {
            EXIT_STATUS_UNAVAILABLE
        },
        None => EXIT_STATUS_UNAVAILABLE,
    }
}

/// Whenever the state machine ended the session, the run exits with the code
/// of that ending, whatever the child returned.
pub proof fn lemma_termination_dominates(t: Termination, child: Option<u32>)
    ensures
        final_code(termination_code(t), child) == termination_code(t),
        termination_code(t) == 5 || termination_code(t) == 6 || termination_code(t) == 7,
{
}

/// The size of a terminal window.
#[derive(Clone, Copy, Debug, PartialEq, Eq, Structural)]
pub struct WindowSize {
    pub rows: u16,
    pub cols: u16,
    pub pixel_width: u16,
    pub pixel_height: u16,
}

/// The size used when the user's terminal cannot be asked: 24 rows of 80 columns.
pub open spec fn default_window_size() -> WindowSize {
    WindowSize { rows: 24, cols: 80, pixel_width: 0, pixel_height: 0 }
}

/// The size the pty is opened with: the user's terminal's, if it could be
/// queried, else the default.
pub fn initial_window_size(queried: Option<WindowSize>) -> (r: WindowSize)
    ensures
        r == match queried {
            Some(w) => w,
            None => default_window_size(),
        },
{
    match queried {
        Some(w) => w,
        None => WindowSize { rows: 24, cols: 80, pixel_width: 0, pixel_height: 0 },
    }
}

/// The signals that the supervisor traps.
#[derive(Clone, Copy, Debug, PartialEq, Eq, Structural)]
pub enum Signal {
    WindowChange,
    Interrupt,
    Suspend,
    Terminate,
    Hangup,
}

/// What the signal bridge does with a trapped signal.
#[derive(Clone, Copy, Debug, PartialEq, Eq, Structural)]
pub enum SignalAction {
    /// Query the user's terminal size again and resize the pty to it.
    Resize,
    /// Write this byte to the child's pty.
    Forward(u8),
    /// Stop listening for signals.
    Stop,
}

/// The byte a terminal sends for an interrupt (Ctrl+C).
pub const INTERRUPT_BYTE: u8 = 0x03;

/// The byte a terminal sends for a suspend (Ctrl+Z).
pub const SUSPEND_BYTE: u8 = 0x1a;

pub open spec fn signal_reaction(sig: Signal) -> SignalAction {
    match sig {
        Signal::WindowChange => SignalAction::Resize,
        Signal::Interrupt => SignalAction::Forward(INTERRUPT_BYTE),
        Signal::Suspend => SignalAction::Forward(SUSPEND_BYTE),
        Signal::Terminate => SignalAction::Stop,
        Signal::Hangup => SignalAction::Stop,
    }
}

pub fn signal_action(sig: Signal) -> (r: SignalAction)
    ensures
        r == signal_reaction(sig),
{
    match sig {
        Signal::WindowChange => SignalAction::Resize,
        Signal::Interrupt => SignalAction::Forward(INTERRUPT_BYTE),
        Signal::Suspend => SignalAction::Forward(SUSPEND_BYTE),
        Signal::Terminate => SignalAction::Stop,
        Signal::Hangup => SignalAction::Stop,
    }
}

} // verus!
