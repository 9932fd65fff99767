//! Password injection for programs that read a credential from their
//! controlling terminal: the byte-stream matcher, the prompt state machine
//! that watches the child's output, and the small decision tables of the
//! pty supervisor.
pub mod line;
pub mod matcher;
pub mod password;
pub mod prompt;
pub mod pty;
