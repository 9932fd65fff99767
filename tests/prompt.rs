use sshpass::prompt::{PromptState, Termination};
use sshpass::pty::RunConfig;

fn state(password: &str, prompt: &str) -> PromptState {
    let config = RunConfig {
        command: vec!["ssh".to_string(), "host".to_string()],
        password: password.to_string(),
        prompt: prompt.to_string(),
        verbose: false,
    };
    PromptState::new(&config)
}

fn shown<'a>(data: &'a [u8], from: usize) -> &'a [u8] {
    &data[from..]
}

#[test]
fn reply_is_password_and_newline() {
    let st = state("testpass123", "assword:");
    assert_eq!(st.reply(), b"testpass123\n");
    assert_eq!(st.finished(), None);
}

#[test]
fn correct_password_session() {
    let mut st = state("testpass123", "assword:");
    let banner: &[u8] = b"Welcome\r\n";
    let a = st.on_chunk(banner);
    assert!(!a.send_password);
    assert_eq!(a.terminate, None);
    assert_eq!(shown(banner, a.emit_from), banner);

    let prompt: &[u8] = b"user@host's password: ";
    let a = st.on_chunk(prompt);
    assert!(a.send_password);
    assert_eq!(a.terminate, None);
    assert_eq!(shown(prompt, a.emit_from), b"");

    let echo: &[u8] = b"\r\nhello\r\n";
    let a = st.on_chunk(echo);
    assert!(!a.send_password);
    assert_eq!(shown(echo, a.emit_from), b"hello\r\n");

    let more: &[u8] = b"bye\n";
    let a = st.on_chunk(more);
    assert_eq!(shown(more, a.emit_from), b"bye\n");
    assert_eq!(st.finished(), None);
}

#[test]
fn password_never_shown_in_output() {
    let mut st = state("testpass123", "assword:");
    let chunks: [&[u8]; 3] = [b"password: ", b"\r\n", b"hello\r\n"];
    let mut out: Vec<u8> = Vec::new();
    for c in chunks {
        let a = st.on_chunk(c);
        out.extend_from_slice(&c[a.emit_from..]);
    }
    assert_eq!(out, b"hello\r\n");
    assert!(!out.windows(11).any(|w| w == b"testpass123"));
}

#[test]
fn echo_suppressed_until_newline_across_chunks() {
    let mut st = state("pw", "assword:");
    assert!(st.on_chunk(b"Password:").send_password);
    let a = st.on_chunk(b"no newline yet");
    assert_eq!(a.emit_from, 14);
    let tail: &[u8] = b"x\nrest";
    let a = st.on_chunk(tail);
    assert_eq!(shown(tail, a.emit_from), b"rest");
}

#[test]
fn prompt_and_echo_in_one_chunk() {
    let mut st = state("pw", "assword:");
    let data: &[u8] = b"Password: \r\nlast login";
    let a = st.on_chunk(data);
    assert!(a.send_password);
    assert_eq!(shown(data, a.emit_from), b"last login");
}

#[test]
fn second_prompt_means_wrong_password() {
    let mut st = state("wrongpassword", "assword:");
    assert!(st.on_chunk(b"Password: ").send_password);
    st.on_chunk(b"\r\n");
    let data: &[u8] = b"Permission denied, please try again.\r\nPassword: ";
    let a = st.on_chunk(data);
    assert!(!a.send_password);
    assert_eq!(a.terminate, Some(Termination::WrongPassword));
    assert_eq!(a.emit_from, data.len());
    assert_eq!(st.finished(), Some(Termination::WrongPassword));
    assert_eq!(Termination::WrongPassword.exit_code(), 5);
}

#[test]
fn unknown_host_key_ends_session() {
    let mut st = state("pw", "assword:");
    let data: &[u8] = b"The authenticity of host '127.0.0.1' can't be established.\r\n";
    let a = st.on_chunk(data);
    assert_eq!(a.terminate, Some(Termination::HostKeyUnknown));
    assert_eq!(a.emit_from, data.len());
    assert_eq!(Termination::HostKeyUnknown.exit_code(), 6);
}

#[test]
fn changed_host_key_ends_session() {
    let mut st = state("pw", "assword:");
    let a = st.on_chunk(b"WARNING: the ECDSA host key for 'h' differs from the key for the IP address");
    assert_eq!(a.terminate, Some(Termination::HostKeyChanged));
    assert_eq!(Termination::HostKeyChanged.exit_code(), 7);
}

#[test]
fn password_sent_before_host_key_ending_in_same_chunk() {
    let mut st = state("pw", "assword:");
    let a = st.on_chunk(b"password: The authenticity of host x");
    assert!(a.send_password);
    assert_eq!(a.terminate, Some(Termination::HostKeyUnknown));
}

#[test]
fn nothing_happens_after_session_ended() {
    let mut st = state("pw", "assword:");
    st.on_chunk(b"The authenticity of host ");
    let data: &[u8] = b"Password: ";
    let a = st.on_chunk(data);
    assert!(!a.send_password);
    assert_eq!(a.terminate, None);
    assert_eq!(a.emit_from, data.len());
    assert_eq!(st.finished(), Some(Termination::HostKeyUnknown));
}

#[test]
fn custom_prompt_is_used() {
    let mut st = state("secret", "Passphrase for key");
    assert!(!st.on_chunk(b"Password: ").send_password);
    assert!(st.on_chunk(b"Enter Passphrase for key '/k': ").send_password);
}

#[test]
fn empty_prompt_never_sends() {
    let mut st = state("secret", "");
    let data: &[u8] = b"Password: ";
    let a = st.on_chunk(data);
    assert!(!a.send_password);
    assert_eq!(a.emit_from, 0);
}
