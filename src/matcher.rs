//! A single-pattern substring detector fed incrementally with byte chunks.
use vstd::prelude::*;
use vstd::string::{StrSliceExecFns, StringSliceAdditionalSpecFns};

verus! {

/// The abstract state of a [`Matcher`]: the pattern and the length of the
/// partial match carried over from the bytes fed so far.
pub struct MatcherModel {
    pub pattern: Seq<u8>,
    pub state: nat,
}

/// A matcher that has seen no bytes yet.
pub open spec fn fresh(pattern: Seq<u8>) -> MatcherModel {
    MatcherModel { pattern, state: 0 }
}

/// One step of the linear scanner on byte `b`: extend the partial match if
/// the next pattern byte agrees, otherwise restart from `b` alone.
pub open spec fn next_state(p: Seq<u8>, s: nat, b: u8) -> nat {
    if s < p.len() && p[s as int] == b {
        s + 1
    } else if p[0] == b {
        1
    } else {
        0
    }
}

/// Runs the scanner over `d` from state `s`, stopping at the first byte that
/// completes the pattern. Returns whether that happened and the state reached.
pub open spec fn scan(p: Seq<u8>, s: nat, d: Seq<u8>) -> (bool, nat)
    decreases d.len(),
{
    if d.len() == 0 {
        (false, s)
    } else {
        let s1 = next_state(p, s, d[0]);
        if s1 == p.len() {
            (true, s1)
        } else {
            scan(p, s1, d.drop_first())
        }
    }
}

/// What feeding `d` to a matcher in state `m` reports, and the state after.
/// An empty pattern reports nothing and leaves the state alone.
pub open spec fn feed_model(m: MatcherModel, d: Seq<u8>) -> (bool, MatcherModel) {
    if m.pattern.len() == 0 {
        (false, m)
    } else {
        let (hit, s) = scan(m.pattern, m.state, d);
        (hit, MatcherModel { pattern: m.pattern, state: s })
    }
}

/// The state after a reset: same pattern, no partial match.
pub open spec fn reset_model(m: MatcherModel) -> MatcherModel {
    MatcherModel { pattern: m.pattern, state: 0 }
}

/// `p` occurs in `t` as a contiguous run starting at index `i`.
pub open spec fn occurs_at(t: Seq<u8>, p: Seq<u8>, i: int) -> bool {
    0 <= i && i + p.len() <= t.len() && t.subrange(i, i + p.len()) == p
}

/// `p` occurs somewhere in `t` as a contiguous run.
pub open spec fn contains(t: Seq<u8>, p: Seq<u8>) -> bool {
    exists|i: int| occurs_at(t, p, i)
}

/// The pattern is non-empty and its first byte does not come back later in
/// it. For such patterns the linear scanner never misses an occurrence.
pub open spec fn first_byte_unique(p: Seq<u8>) -> bool {
    p.len() > 0 && forall|i: int| 0 < i < p.len() ==> #[trigger] p[i] != p[0]
}

/// Whether any of the feeds of `chunks`, made in order starting from `m`,
/// reports a match.
pub open spec fn feed_all(m: MatcherModel, chunks: Seq<Seq<u8>>) -> bool
    decreases chunks.len(),
{
    if chunks.len() == 0 {
        false
    } else {
        let (hit, m1) = feed_model(m, chunks[0]);
        hit || feed_all(m1, chunks.drop_first())
    }
}

/// The result of each feed of `chunks`, made in order starting from `m`.
pub open spec fn feed_trace(m: MatcherModel, chunks: Seq<Seq<u8>>) -> Seq<bool>
    decreases chunks.len(),
{
    if chunks.len() == 0 {
        Seq::empty()
    } else {
        let (hit, m1) = feed_model(m, chunks[0]);
        seq![hit] + feed_trace(m1, chunks.drop_first())
    }
}

/// The last `k` bytes of `h` are the first `k` bytes of `p`.
spec fn ends_with_prefix(h: Seq<u8>, p: Seq<u8>, k: int) -> bool {
    &&& 0 <= k <= h.len()
    &&& k <= p.len()
    &&& forall|j: int| 0 <= j < k ==> #[trigger] h[h.len() - k + j] == p[j]
}

/// `s` is the longest partial match of `p` at the end of `h`, and `p` does not
/// occur in `h`.
spec fn tracks(p: Seq<u8>, h: Seq<u8>, s: nat) -> bool {
    &&& s < p.len()
    &&& ends_with_prefix(h, p, s as int)
    &&& forall|k: int| s < k < p.len() ==> !#[trigger] ends_with_prefix(h, p, k)
    &&& !contains(h, p)
}

proof fn lemma_contains_extend(t: Seq<u8>, u: Seq<u8>, p: Seq<u8>)
    requires
        contains(t, p),
    ensures
        contains(t + u, p),
{
    let i = choose|i: int| occurs_at(t, p, i);
    assert((t + u).subrange(i, i + p.len()) =~= t.subrange(i, i + p.len()));
    assert(occurs_at(t + u, p, i));
}

proof fn lemma_step(p: Seq<u8>, h: Seq<u8>, s: nat, b: u8)
    requires
        first_byte_unique(p),
        tracks(p, h, s),
    ensures
        next_state(p, s, b) <= p.len(),
        next_state(p, s, b) == p.len() ==> contains(h.push(b), p),
        next_state(p, s, b) < p.len() ==> tracks(p, h.push(b), next_state(p, s, b)),
{
    let n = h.len() as int;
    let h1 = h.push(b);
    let s1 = next_state(p, s, b);
    assert(ends_with_prefix(h1, p, s1 as int)) by {
        assert forall|j: int| 0 <= j < s1 implies #[trigger] h1[h1.len() - s1 + j] == p[j] by {
            if s < p.len() && p[s as int] == b {
                if j < s {
                    assert(h[n - s + j] == p[j]);
                }
            }
        }
    }
    // Every partial match at the end of `h1` is at most `s1` long.
    assert forall|k: int| 1 <= k <= p.len() && ends_with_prefix(h1, p, k) implies k <= s1 by {
        assert(h1[h1.len() - k + (k - 1)] == p[k - 1]);
        if k >= 2 {
            assert(ends_with_prefix(h, p, k - 1)) by {
                assert forall|j: int| 0 <= j < k - 1 implies #[trigger] h[h.len() - (k - 1) + j]
                    == p[j] by {
                    assert(h1[h1.len() - k + j] == p[j]);
                }
            }
            if k - 1 < s {
                assert(h[n - (k - 1) + 0] == p[0]);
                assert(h[n - s + (s - (k - 1))] == p[s - (k - 1)]);
            }
        }
    }
    if s1 == p.len() {
        assert(h1.subrange(h1.len() - p.len(), h1.len() as int) =~= p) by {
            assert forall|j: int| 0 <= j < p.len() implies h1.subrange(
                h1.len() - p.len(),
                h1.len() as int,
            )[j] == p[j] by {
                assert(h1[h1.len() - s1 + j] == p[j]);
            }
        }
        assert(occurs_at(h1, p, h1.len() - p.len()));
    } else {
        assert forall|i: int| !occurs_at(h1, p, i) by {
            if occurs_at(h1, p, i) {
                if i + p.len() <= n {
                    assert(h.subrange(i, i + p.len()) =~= h1.subrange(i, i + p.len()));
                    assert(occurs_at(h, p, i));
                } else {
                    assert(ends_with_prefix(h1, p, p.len() as int)) by {
                        assert forall|j: int| 0 <= j < p.len() implies #[trigger] h1[h1.len()
                            - p.len() + j] == p[j] by {
                            assert(h1.subrange(i, i + p.len())[j] == p[j]);
                        }
                    }
                }
            }
        }
    }
}

proof fn lemma_scan(p: Seq<u8>, h: Seq<u8>, s: nat, d: Seq<u8>)
    requires
        first_byte_unique(p),
        tracks(p, h, s),
    ensures
        scan(p, s, d).0 == contains(h + d, p),
        !scan(p, s, d).0 ==> tracks(p, h + d, scan(p, s, d).1),
    decreases d.len(),
{
    if d.len() == 0 {
        assert(h + d =~= h);
    } else {
        let h1 = h.push(d[0]);
        let s1 = next_state(p, s, d[0]);
        lemma_step(p, h, s, d[0]);
        assert(h1 + d.drop_first() =~= h + d);
        if s1 == p.len() {
            lemma_contains_extend(h1, d.drop_first(), p);
        } else {
            lemma_scan(p, h1, s1, d.drop_first());
        }
    }
}

proof fn lemma_feed_all(p: Seq<u8>, h: Seq<u8>, s: nat, chunks: Seq<Seq<u8>>)
    requires
        first_byte_unique(p),
        tracks(p, h, s),
    ensures
        feed_all(MatcherModel { pattern: p, state: s }, chunks) == contains(h + chunks.flatten(), p),
    decreases chunks.len(),
{
    if chunks.len() == 0 {
        assert(h + chunks.flatten() =~= h);
    } else {
        let c = chunks[0];
        let rest = chunks.drop_first();
        lemma_scan(p, h, s, c);
        assert((h + c) + rest.flatten() =~= h + chunks.flatten());
        if scan(p, s, c).0 {
            lemma_contains_extend(h + c, rest.flatten(), p);
        } else {
            lemma_feed_all(p, h + c, scan(p, s, c).1, rest);
        }
    }
}

/// Feeding a fresh matcher any split of an input into chunks reports a match
/// at some feed exactly when the pattern occurs in the whole input, provided
/// the pattern's first byte does not recur in it.
pub proof fn lemma_chunked_feed_finds_occurrence(p: Seq<u8>, chunks: Seq<Seq<u8>>)
    requires
        first_byte_unique(p),
    ensures
        feed_all(fresh(p), chunks) == contains(chunks.flatten(), p),
{
    let h = Seq::<u8>::empty();
    assert(!contains(h, p));
    lemma_feed_all(p, h, 0, chunks);
    assert(h + chunks.flatten() =~= chunks.flatten());
}

/// A matcher built from the empty pattern never reports a match, whatever it
/// is fed and in whatever state it is.
pub proof fn lemma_empty_pattern_never_matches(m: MatcherModel, d: Seq<u8>)
    requires
        m.pattern.len() == 0,
    ensures
        !feed_model(m, d).0,
        feed_model(m, d).1 == m,
{
}

/// A reset matcher reports, for every sequence of chunks, exactly what a
/// freshly built matcher with the same pattern reports; resetting twice is
/// the same as resetting once.
pub proof fn lemma_reset_is_fresh(m: MatcherModel, chunks: Seq<Seq<u8>>)
    ensures
        reset_model(m) == fresh(m.pattern),
        reset_model(reset_model(m)) == reset_model(m),
        feed_trace(reset_model(m), chunks) == feed_trace(fresh(m.pattern), chunks),
{
}

/// Detects a fixed byte pattern in a stream that arrives in chunks of any
/// size, remembering a partial match across chunk boundaries.
pub struct Matcher {
    pattern: Vec<u8>,
    state: usize,
}

impl View for Matcher {
    type V = MatcherModel;

    closed spec fn view(&self) -> MatcherModel {
        MatcherModel { pattern: self.pattern@, state: self.state as nat }
    }
}

impl Matcher {
    #[verifier::type_invariant]
    closed spec fn inv(&self) -> bool {
        self.state <= self.pattern.len()
    }

    /// A matcher for the bytes of `pattern` that has seen nothing yet. With an
    /// empty pattern it never reports a match.
    pub fn new(pattern: &str) -> (r: Self)
        ensures
            r@ == fresh(pattern.spec_bytes()),
    {
        Matcher { pattern: pattern.as_bytes_vec(), state: 0 }
    }

    /// Appends `data` to the stream seen so far; true when the pattern has just
    /// been completed. Bytes after the completing one are not looked at.
    pub fn feed(&mut self, data: &[u8]) -> (r: bool)
        ensures
            (r, final(self)@) == feed_model(old(self)@, data@),
    {
        proof {
            use_type_invariant(&*self);
        }
        if self.pattern.len() == 0 {
            return false;
        }
        let ghost p = self.pattern@;
        let ghost s0 = self.state as nat;
        let mut i: usize = 0;
        proof {
            assert(data@.subrange(0, data@.len() as int) =~= data@);
        }
        while i < data.len()
            invariant
                self.pattern@ == p,
                old(self)@ == (MatcherModel { pattern: p, state: s0 }),
                p.len() > 0,
                self.state <= p.len(),
                self.state < p.len() || i == 0,
                0 <= i <= data.len(),
                scan(p, s0, data@) == scan(
                    p,
                    self.state as nat,
                    data@.subrange(i as int, data@.len() as int),
                ),
            decreases data.len() - i,
        {
            let b = data[i];
            let ghost prev = self.state as nat;
            let ghost rest = data@.subrange(i as int, data@.len() as int);
            proof {
                assert(rest.drop_first() =~= data@.subrange(i + 1, data@.len() as int));
                assert(rest[0] == b);
            }
            if self.state < self.pattern.len() && self.pattern[self.state] == b {
                self.state = self.state + 1;
            } else if self.pattern[0] == b {
                self.state = 1;
            } else {
                self.state = 0;
            }
            assert(self.state == next_state(p, prev, b));
            if self.state == self.pattern.len() {
                return true;
            }
            i = i + 1;
        }
        proof {
            assert(data@.subrange(i as int, data@.len() as int).len() == 0);
        }
        false
    }

    /// Forgets any partial match, as if no bytes had been fed.
    pub fn reset(&mut self)
        ensures
            final(self)@ == reset_model(old(self)@),
    {
        self.state = 0;
    }
}

} // verus!
