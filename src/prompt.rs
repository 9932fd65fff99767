//! The prompt state machine: it watches the child's output chunk by chunk,
//! decides when to type the password, hides the echo that follows, and stops
//! the session on a repeated prompt or a host-key warning.
use vstd::prelude::*;
use vstd::string::StringSliceAdditionalSpecFns;
use vstd::string::StrSliceExecFns;
use vstd::utf8::encode_utf8;

use crate::line::{find_line_end, line_end, NEWLINE};
use crate::matcher::{feed_model, fresh, reset_model, Matcher, MatcherModel};
use crate::pty::RunConfig;

verus! {

/// Output that means the server's host key is not known yet.
pub const HOST_KEY_UNKNOWN: &'static str = "The authenticity of host ";

/// Output that means the server's host key has changed.
pub const HOST_KEY_CHANGED: &'static str = "differs from the key for the IP address";

/// Why the state machine ended the session.
#[derive(Clone, Copy, Debug, PartialEq, Eq, Structural)]
pub enum Termination {
    /// The prompt came back after the password was sent.
    WrongPassword,
    /// The child asks to confirm an unknown host key.
    HostKeyUnknown,
    /// The child reports a changed host key.
    HostKeyChanged,
}

/// The process exit code that stands for each termination.
pub open spec fn termination_code(t: Termination) -> i32 {
    match t {
        Termination::WrongPassword => 5,
        Termination::HostKeyUnknown => 6,
        Termination::HostKeyChanged => 7,
    }
}

impl Termination {
    pub fn exit_code(&self) -> (r: i32)
        ensures
            r == termination_code(*self),
    {
        match self {
            Termination::WrongPassword => 5,
            Termination::HostKeyUnknown => 6,
            Termination::HostKeyChanged => 7,
        }
    }
}

/// What the output pump does with one chunk read from the child.
pub struct ChunkAction {
    /// Write the password line to the child before anything else.
    pub send_password: bool,
    /// Close the pty and stop pumping, recording this reason.
    pub terminate: Option<Termination>,
    /// Pass the chunk on to the user from this index; the chunk's length
    /// means that nothing of it is shown.
    pub emit_from: usize,
}

/// The abstract state of a [`PromptState`].
pub struct PromptModel {
    /// The bytes written to the child at the prompt: password and newline.
    pub reply: Seq<u8>,
    pub password_sent: bool,
    pub suppress_until_newline: bool,
    pub prompt: MatcherModel,
    pub host_key_unknown: MatcherModel,
    pub host_key_changed: MatcherModel,
    /// Set once the session has been ended; nothing happens after that.
    pub finished: Option<Termination>,
}

/// The state before any output: password unsent, nothing suppressed, all
/// three matchers fresh.
pub open spec fn initial_model(password: Seq<u8>, prompt: Seq<u8>) -> PromptModel {
    PromptModel {
        reply: password.push(NEWLINE),
        password_sent: false,
        suppress_until_newline: false,
        prompt: fresh(prompt),
        host_key_unknown: fresh(HOST_KEY_UNKNOWN.spec_bytes()),
        host_key_changed: fresh(HOST_KEY_CHANGED.spec_bytes()),
        finished: None,
    }
}

/// The state and action after ending the session for reason `t` on chunk `d`.
pub open spec fn end_session(st: PromptModel, d: Seq<u8>, send: bool, t: Termination) -> (
    PromptModel,
    ChunkAction,
) {
    (
        PromptModel { finished: Some(t), ..st },
        ChunkAction { send_password: send, terminate: Some(t), emit_from: d.len() as usize },
    )
}

/// One chunk `d` of child output handled in state `st`: the prompt matcher
/// first (send the password once, end the session on a second prompt), then
/// the unknown-host-key matcher, then the changed-host-key matcher, and last
/// the echo suppression that hides everything up to and including the first
/// newline after the password was sent.
pub open spec fn on_chunk_model(st: PromptModel, d: Seq<u8>) -> (PromptModel, ChunkAction) {
    if st.finished is Some {
        (st, ChunkAction { send_password: false, terminate: None, emit_from: d.len() as usize })
    } else {
        let (pw_hit, pw1) = feed_model(st.prompt, d);
        if pw_hit && st.password_sent {
            end_session(PromptModel { prompt: pw1, ..st }, d, false, Termination::WrongPassword)
        } else {
            let st1 = PromptModel {
                prompt: if pw_hit { reset_model(pw1) } else { pw1 },
                password_sent: st.password_sent || pw_hit,
                suppress_until_newline: st.suppress_until_newline || pw_hit,
                ..st
            };
            let (hk_hit, hk1) = feed_model(st.host_key_unknown, d);
            let st2 = PromptModel { host_key_unknown: hk1, ..st1 };
            if hk_hit {
                end_session(st2, d, pw_hit, Termination::HostKeyUnknown)
            } else {
                let (hkc_hit, hkc1) = feed_model(st.host_key_changed, d);
                let st3 = PromptModel { host_key_changed: hkc1, ..st2 };
                if hkc_hit {
                    end_session(st3, d, pw_hit, Termination::HostKeyChanged)
                } else if !st3.suppress_until_newline {
                    (st3, ChunkAction { send_password: pw_hit, terminate: None, emit_from: 0 })
                } else if line_end(d) < d.len() {
                    (
                        PromptModel { suppress_until_newline: false, ..st3 },
                        ChunkAction {
                            send_password: pw_hit,
                            terminate: None,
                            emit_from: (line_end(d) + 1) as usize,
                        },
                    )
                } else {
                    (
                        st3,
                        ChunkAction {
                            send_password: pw_hit,
                            terminate: None,
                            emit_from: d.len() as usize,
                        },
                    )
                }
            }
        }
    }
}

/// What the pump passes on to the user is always a tail of the chunk the
/// child wrote: the state machine adds no bytes of its own, the reply
/// included, to the user's output.
pub proof fn lemma_output_is_child_output(st: PromptModel, d: Seq<u8>)
    ensures
        on_chunk_model(st, d).1.emit_from <= d.len(),
{
    crate::line::lemma_line_end(d);
}

/// Once the session has been ended, every further chunk leaves the state as
/// it is, sends nothing, shows nothing and ends nothing again.
pub proof fn lemma_finished_is_final(st: PromptModel, d: Seq<u8>)
    requires
        st.finished is Some,
    ensures
        on_chunk_model(st, d).0 == st,
        !on_chunk_model(st, d).1.send_password,
        on_chunk_model(st, d).1.terminate is None,
        on_chunk_model(st, d).1.emit_from == d.len() as usize,
{
}

/// The state the output pump keeps between chunks.
pub struct PromptState {
    reply: Vec<u8>,
    password_sent: bool,
    suppress_until_newline: bool,
    prompt: Matcher,
    host_key_unknown: Matcher,
    host_key_changed: Matcher,
    finished: Option<Termination>,
}

impl View for PromptState {
    type V = PromptModel;

    closed spec fn view(&self) -> PromptModel {
        PromptModel {
            reply: self.reply@,
            password_sent: self.password_sent,
            suppress_until_newline: self.suppress_until_newline,
            prompt: self.prompt@,
            host_key_unknown: self.host_key_unknown@,
            host_key_changed: self.host_key_changed@,
            finished: self.finished,
        }
    }
}

impl PromptState {
    /// The state before the child has written anything, watching for the
    /// configured prompt and ready to answer it with the configured password.
    pub fn new(config: &RunConfig) -> (r: Self)
        ensures
            r@ == initial_model(encode_utf8(config.password@), encode_utf8(config.prompt@)),
    {
        let mut reply = config.password.as_str().as_bytes_vec();
        reply.push(NEWLINE);
        PromptState {
            reply,
            password_sent: false,
            suppress_until_newline: false,
            prompt: Matcher::new(config.prompt.as_str()),
            host_key_unknown: Matcher::new(HOST_KEY_UNKNOWN),
            host_key_changed: Matcher::new(HOST_KEY_CHANGED),
            finished: None,
        }
    }

    /// The bytes to write to the child when an action says to send the password.
    pub fn reply(&self) -> (r: &[u8])
        ensures
            r@ == self@.reply,
    {
        self.reply.as_slice()
    }

    /// Why the session was ended, if it was.
    pub fn finished(&self) -> (r: Option<Termination>)
        ensures
            r == self@.finished,
    {
        self.finished
    }

    /// Handles one chunk read from the child.
    pub fn on_chunk(&mut self, data: &[u8]) -> (r: ChunkAction)
        ensures
            (final(self)@, r) == on_chunk_model(old(self)@, data@),
    {
        if self.finished.is_some() {
            return ChunkAction { send_password: false, terminate: None, emit_from: data.len() };
        }
        let mut send_password = false;
        if self.prompt.feed(data) {
            if self.password_sent {
                self.finished = Some(Termination::WrongPassword);
                return ChunkAction {
                    send_password: false,
                    terminate: Some(Termination::WrongPassword),
                    emit_from: data.len(),
                };
            }
            send_password = true;
            self.password_sent = true;
            self.suppress_until_newline = true;
            self.prompt.reset();
        }
        if self.host_key_unknown.feed(data) {
            self.finished = Some(Termination::HostKeyUnknown);
            return ChunkAction {
                send_password,
                terminate: Some(Termination::HostKeyUnknown),
                emit_from: data.len(),
            };
        }
        if self.host_key_changed.feed(data) {
            self.finished = Some(Termination::HostKeyChanged);
            return ChunkAction {
                send_password,
                terminate: Some(Termination::HostKeyChanged),
                emit_from: data.len(),
            };
        }
        let mut emit_from: usize = 0;
        if self.suppress_until_newline {
            let end = find_line_end(data);
            if end < data.len() {
                self.suppress_until_newline = false;
                emit_from = end + 1;
            } else {
                emit_from = data.len();
            }
        }
        ChunkAction { send_password, terminate: None, emit_from }
    }
}

} // verus!
