//! Finding where the first line of a byte buffer ends.
use vstd::prelude::*;

verus! {

/// The byte that ends a line.
pub const NEWLINE: u8 = 10;

/// The index of the first newline byte in `d`, or `d.len()` when there is none.
pub open spec fn line_end(d: Seq<u8>) -> nat
    decreases d.len(),
{
    if d.len() == 0 {
        0
    } else if d[0] == NEWLINE {
        0
    } else {
        1 + line_end(d.drop_first())
    }
}

/// `line_end` is the first newline: none before it, one at it unless it is
/// the end of `d`.
pub proof fn lemma_line_end(d: Seq<u8>)
    ensures
        line_end(d) <= d.len(),
        forall|j: int| 0 <= j < line_end(d) ==> d[j] != NEWLINE,
        line_end(d) < d.len() ==> d[line_end(d) as int] == NEWLINE,
    decreases d.len(),
{
    if d.len() > 0 && d[0] != NEWLINE {
        lemma_line_end(d.drop_first());
        assert forall|j: int| 0 <= j < line_end(d) implies d[j] != NEWLINE by {
            if j > 0 {
                assert(d[j] == d.drop_first()[j - 1]);
            }
        }
    }
}

/// Returns the index of the first newline byte in `data`, or its length.
pub fn find_line_end(data: &[u8]) -> (r: usize)
    ensures
        r == line_end(data@),
{
    let mut i: usize = 0;
    assert(data@.subrange(0, data@.len() as int) =~= data@);
    while i < data.len()
        invariant
            0 <= i <= data.len(),
            line_end(data@) == i + line_end(data@.subrange(i as int, data@.len() as int)),
        decreases data.len() - i,
    {
        if data[i] == NEWLINE {
            return i;
        }
        assert(data@.subrange(i as int, data@.len() as int).drop_first() =~= data@.subrange(
            i + 1,
            data@.len() as int,
        ));
        i = i + 1;
    }
    i
}

} // verus!
