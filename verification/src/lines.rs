//! Splitting byte sequences on a separator. The split of a sequence always
//! ends with the (possibly empty) piece after the last separator; for a
//! stream that piece is the incomplete tail still waiting for its line
//! ending.

use vstd::prelude::*;

verus! {

/// The models of a vector of byte lines.
pub open spec fn lines_model(v: Vec<Vec<u8>>) -> Seq<Seq<u8>> {
    Seq::new(v@.len(), |i: int| v@[i]@)
}

/// The position of the first `sep` in `b`, or the length of `b` when none
/// occurs.
pub open spec fn first_sep(b: Seq<u8>, sep: u8) -> nat
    decreases b.len(),
{
    if b.len() == 0 {
        0
    } else if b[0] == sep {
        0
    } else {
        1 + first_sep(b.drop_first(), sep)
    }
}

/// What `first_sep` finds: a position within bounds, a separator there if
/// within the sequence, and none before it.
pub proof fn lemma_first_sep(b: Seq<u8>, sep: u8)
    ensures
        first_sep(b, sep) <= b.len(),
        first_sep(b, sep) < b.len() ==> b[first_sep(b, sep) as int] == sep,
        forall|j: int| 0 <= j < first_sep(b, sep) ==> b[j] != sep,
    decreases b.len(),
{
    if b.len() > 0 && b[0] != sep {
        lemma_first_sep(b.drop_first(), sep);
        assert(forall|j: int| 0 <= j < first_sep(b.drop_first(), sep) ==> b.drop_first()[j]
            != sep);
        assert forall|j: int| 0 <= j < first_sep(b, sep) implies b[j] != sep by {
            if j > 0 {
                assert(b.drop_first()[j - 1] != sep);
            }
        }
    }
}

/// `first_sep` is the position proved to be first.
pub proof fn lemma_first_sep_is(b: Seq<u8>, sep: u8, j: int)
    requires
        0 <= j <= b.len(),
        forall|k: int| 0 <= k < j ==> b[k] != sep,
        j < b.len() ==> b[j] == sep,
    ensures
        first_sep(b, sep) == j,
    decreases b.len(),
{
    if b.len() > 0 && b[0] != sep {
        assert(j >= 1);
        assert(forall|k: int| 0 <= k < j - 1 ==> b.drop_first()[k] != sep);
        lemma_first_sep_is(b.drop_first(), sep, j - 1);
    }
}

/// Split `b` on `sep`: the pieces between separators, in order, ending
/// with the piece after the last separator. The result is never empty,
/// and splitting the empty sequence gives one empty piece.
pub open spec fn split_sep(b: Seq<u8>, sep: u8) -> Seq<Seq<u8>>
    decreases b.len(),
{
    let i = first_sep(b, sep);
    if i >= b.len() {
        seq![b]
    } else {
        seq![b.subrange(0, i as int)] + split_sep(b.subrange(i as int + 1, b.len() as int), sep)
    }
}

/// A split has at least its tail piece.
pub proof fn lemma_split_sep_len(b: Seq<u8>, sep: u8)
    ensures
        split_sep(b, sep).len() >= 1,
    decreases b.len(),
{
}

/// How a split starts when the first `j` bytes hold no separator and a
/// separator stands at `j`: the first piece is those bytes, and the rest
/// is the split of what follows the separator.
pub proof fn lemma_split_sep_step(b: Seq<u8>, sep: u8, j: int)
    requires
        0 <= j < b.len(),
        forall|k: int| 0 <= k < j ==> b[k] != sep,
        b[j] == sep,
    ensures
        split_sep(b, sep) == seq![b.subrange(0, j)] + split_sep(
            b.subrange(j + 1, b.len() as int),
            sep,
        ),
{
    lemma_first_sep_is(b, sep, j);
}

/// A sequence without the separator splits into itself alone.
pub proof fn lemma_split_sep_whole(b: Seq<u8>, sep: u8)
    requires
        forall|k: int| 0 <= k < b.len() ==> b[k] != sep,
    ensures
        split_sep(b, sep) == seq![b],
{
    lemma_first_sep_is(b, sep, b.len() as int);
}

/// Find the first occurrence of a byte, or the length when none occurs.
pub fn find_byte(b: &[u8], sep: u8) -> (r: usize)
    ensures
        r == first_sep(b@, sep),
        r <= b@.len(),
        r < b@.len() ==> b@[r as int] == sep,
        forall|j: int| 0 <= j < r ==> b@[j] != sep,
{
    let n = b.len();
    let mut i: usize = 0;
    while i < n
        invariant
            n == b@.len(),
            0 <= i <= n,
            forall|j: int| 0 <= j < i ==> b@[j] != sep,
        decreases n - i,
    {
        if b[i] == sep {
            proof {
                lemma_first_sep_is(b@, sep, i as int);
            }
            return i;
        }
        i += 1;
    }
    proof {
        lemma_first_sep_is(b@, sep, n as int);
    }
    n
}

/// Split a byte slice on a separator.
pub fn split_sep_bytes(b: &[u8], sep: u8) -> (r: Vec<Vec<u8>>)
    ensures
        lines_model(r) == split_sep(b@, sep),
        r@.len() >= 1,
{
    let n = b.len();
    let mut out: Vec<Vec<u8>> = Vec::new();
    let mut cur: Vec<u8> = Vec::new();
    let ghost mut pos: int = 0;
    let mut i: usize = 0;
    proof {
        assert(b@.subrange(0, n as int) =~= b@);
        assert(lines_model(out) + split_sep(b@, sep) =~= split_sep(b@, sep));
    }
    while i < n
        invariant
            n == b@.len(),
            0 <= pos <= i <= n,
            cur@ == b@.subrange(pos, i as int),
            forall|k: int| 0 <= k < cur@.len() ==> cur@[k] != sep,
            split_sep(b@, sep) == lines_model(out) + split_sep(b@.subrange(pos, n as int), sep),
        decreases n - i,
    {
        let ghost out_before = lines_model(out);
        let ghost cur_before = cur@;
        let byte = b[i];
        if byte == sep {
            proof {
                let rest = b@.subrange(pos, n as int);
                assert(rest.subrange(0, cur_before.len() as int) =~= cur_before);
                assert(rest[(i - pos) as int] == sep);
                lemma_split_sep_step(rest, sep, i - pos);
                assert(rest.subrange((i - pos) + 1, rest.len() as int) =~= b@.subrange(
                    i + 1,
                    n as int,
                ));
            }
            out.push(cur);
            cur = Vec::new();
            proof {
                assert(lines_model(out) =~= out_before.push(cur_before));
                assert(out_before.push(cur_before) =~= out_before + seq![cur_before]);
                pos = i + 1;
                assert(cur@ =~= b@.subrange(pos, i as int + 1));
            }
        } else {
            cur.push(byte);
            proof {
                assert(cur@ =~= b@.subrange(pos, i as int + 1));
            }
        }
        i += 1;
    }
    proof {
        let rest = b@.subrange(pos, n as int);
        assert(rest =~= cur@);
        lemma_split_sep_whole(rest, sep);
    }
    let ghost cur_final = cur@;
    let ghost out_final = lines_model(out);
    out.push(cur);
    proof {
        assert(lines_model(out) =~= out_final.push(cur_final));
        assert(out_final.push(cur_final) =~= out_final + seq![cur_final]);
        assert(lines_model(out) =~= split_sep(b@, sep));
    }
    out
}

/// No piece of a split holds the separator.
pub proof fn lemma_split_sep_pieces_no_sep(b: Seq<u8>, sep: u8)
    ensures
        forall|i: int, k: int|
            0 <= i < split_sep(b, sep).len() && 0 <= k < split_sep(b, sep)[i].len()
                ==> #[trigger] split_sep(b, sep)[i][k] != sep,
    decreases b.len(),
{
    lemma_first_sep(b, sep);
    let fs = first_sep(b, sep);
    if fs < b.len() {
        let rest = b.subrange(fs as int + 1, b.len() as int);
        lemma_split_sep_pieces_no_sep(rest, sep);
        assert forall|i: int, k: int|
            0 <= i < split_sep(b, sep).len() && 0 <= k < split_sep(b, sep)[i].len() implies #[trigger] split_sep(
            b,
            sep,
        )[i][k] != sep by {
            if i == 0 {
                assert(split_sep(b, sep)[0] == b.subrange(0, fs as int));
                assert(b.subrange(0, fs as int)[k] == b[k]);
            } else {
                assert(split_sep(b, sep)[i] == split_sep(rest, sep)[i - 1]);
            }
        }
    }
}

/// Splitting a grown sequence continues from the unfinished tail piece:
/// the finished pieces stay, and the tail is resplit together with the
/// new bytes.
pub proof fn lemma_split_sep_append(b: Seq<u8>, c: Seq<u8>, sep: u8)
    ensures
        split_sep(b + c, sep) == split_sep(b, sep).drop_last() + split_sep(
            split_sep(b, sep).last() + c,
            sep,
        ),
    decreases b.len(),
{
    lemma_first_sep(b, sep);
    let fs = first_sep(b, sep);
    if fs >= b.len() {
        assert(split_sep(b, sep) =~= seq![b]);
        assert(split_sep(b, sep).drop_last() =~= Seq::<Seq<u8>>::empty());
        assert(split_sep(b, sep).last() + c =~= b + c);
        assert(split_sep(b + c, sep) =~= split_sep(b, sep).drop_last() + split_sep(
            split_sep(b, sep).last() + c,
            sep,
        ));
    } else {
        let piece = b.subrange(0, fs as int);
        let rest = b.subrange(fs as int + 1, b.len() as int);
        assert forall|k: int| 0 <= k < fs implies (b + c)[k] != sep by {
            assert(b[k] != sep);
        }
        assert((b + c)[fs as int] == sep);
        lemma_split_sep_step(b + c, sep, fs as int);
        assert((b + c).subrange(0, fs as int) =~= piece);
        assert((b + c).subrange(fs as int + 1, (b + c).len() as int) =~= rest + c);
        lemma_split_sep_append(rest, c, sep);
        lemma_split_sep_len(rest, sep);
        assert(split_sep(b, sep) == seq![piece] + split_sep(rest, sep));
        assert(split_sep(b, sep).drop_last() =~= seq![piece] + split_sep(rest, sep).drop_last());
        assert(split_sep(b, sep).last() == split_sep(rest, sep).last());
        assert(split_sep(b + c, sep) == seq![piece] + split_sep(rest + c, sep));
        assert(split_sep(b + c, sep) =~= split_sep(b, sep).drop_last() + split_sep(
            split_sep(b, sep).last() + c,
            sep,
        ));
    }
}

} // verus!
