use sshpass::matcher::Matcher;

#[test]
fn simple_match() {
    let mut m = Matcher::new("assword:");
    assert!(m.feed(b"Password:"));
}

#[test]
fn match_across_buffers() {
    let mut m = Matcher::new("assword:");
    assert!(!m.feed(b"Pass"));
    assert!(m.feed(b"word:"));
}

#[test]
fn no_match() {
    let mut m = Matcher::new("assword:");
    assert!(!m.feed(b"something else entirely"));
}

#[test]
fn match_after_partial_mismatch() {
    let mut m = Matcher::new("abc");
    assert!(m.feed(b"ababc"));
}

#[test]
fn no_match_partial_only() {
    let mut m = Matcher::new("abcd");
    assert!(!m.feed(b"abcx"));
}

#[test]
fn match_at_start() {
    let mut m = Matcher::new("hello");
    assert!(m.feed(b"hello world"));
}

#[test]
fn match_at_end() {
    let mut m = Matcher::new("world");
    assert!(m.feed(b"hello world"));
}

#[test]
fn match_in_middle() {
    let mut m = Matcher::new("assword:");
    assert!(m.feed(b"user@host's password: "));
}

#[test]
fn reset_clears_state() {
    let mut m = Matcher::new("assword:");
    m.feed(b"asswo");
    m.reset();
    assert!(!m.feed(b"rd:"));
}

#[test]
fn split_single_char_boundary() {
    let mut m = Matcher::new("assword:");
    assert!(!m.feed(b"assword"));
    assert!(m.feed(b":"));
}

#[test]
fn host_key_match() {
    let mut m = Matcher::new("The authenticity of host ");
    assert!(m.feed(b"The authenticity of host 'example.com' can't be established."));
}

#[test]
fn host_key_changed_match() {
    let mut m = Matcher::new("differs from the key for the IP address");
    assert!(m.feed(b"WARNING: the RSA host key differs from the key for the IP address"));
}

#[test]
fn empty_pattern_never_matches() {
    let mut m = Matcher::new("");
    assert!(!m.feed(b"anything"));
}

fn feed_chunks(pattern: &str, chunks: &[&[u8]]) -> bool {
    let mut m = Matcher::new(pattern);
    let mut hit = false;
    for c in chunks {
        if m.feed(c) {
            hit = true;
            break;
        }
    }
    hit
}

#[test]
fn every_split_agrees_with_substring_search() {
    let input: &[u8] = b"user@host's password: ";
    for pattern in ["assword:", "host", "user", ": ", "xyz", "passwords"] {
        let expected = input
            .windows(pattern.len())
            .any(|w| w == pattern.as_bytes());
        for a in 0..=input.len() {
            for b in a..=input.len() {
                let chunks: [&[u8]; 3] = [&input[..a], &input[a..b], &input[b..]];
                assert_eq!(feed_chunks(pattern, &chunks), expected, "{pattern} at {a},{b}");
            }
        }
    }
}

#[test]
fn empty_pattern_never_matches_any_input() {
    let mut m = Matcher::new("");
    assert!(!m.feed(b""));
    assert!(!m.feed(b"\n"));
    assert!(!m.feed(b"assword:"));
}

#[test]
fn feed_of_empty_buffer_reports_nothing() {
    let mut m = Matcher::new("abc");
    assert!(!m.feed(b"ab"));
    assert!(!m.feed(b""));
    assert!(m.feed(b"c"));
}

#[test]
fn reset_behaves_as_fresh_matcher() {
    let chunks: [&[u8]; 4] = [b"ass", b"word", b":", b"password:"];
    let mut used = Matcher::new("assword:");
    used.feed(b"xx asswor");
    used.reset();
    used.reset();
    let mut fresh = Matcher::new("assword:");
    for c in chunks {
        assert_eq!(used.feed(c), fresh.feed(c));
    }
}

#[test]
fn bytes_after_a_match_are_not_scanned() {
    let mut m = Matcher::new("ab");
    assert!(m.feed(b"abab"));
    assert!(m.feed(b"ab"));
}

#[test]
fn self_overlapping_pattern_can_be_missed() {
    let mut m = Matcher::new("aab");
    assert!(!m.feed(b"aaab"));
}
