use vstd::prelude::*;

verus! {

/// The delimiter byte that ends every message on the wire: `'\n'` (0x0A).
pub const DELIM: u8 = 10;

/// A message is a sequence of bytes that contains no delimiter byte, so
/// that delimiter framing can recover its boundaries exactly.
pub open spec fn is_message(m: Seq<u8>) -> bool {
    forall|i: int| 0 <= i < m.len() ==> m[i] != DELIM
}

/// The wire form of a message: its bytes followed by one delimiter.
pub open spec fn framed(m: Seq<u8>) -> Seq<u8> {
    m.push(DELIM)
}

/// Whether the byte sequence holds at least one delimiter, i.e. at least
/// one complete line.
pub open spec fn has_delim(s: Seq<u8>) -> bool {
    exists|i: int| 0 <= i < s.len() && s[i] == DELIM
}

/// The index of the first delimiter in `s` (equal to `s.len()` when there
/// is none).
pub open spec fn first_delim(s: Seq<u8>) -> int
    decreases s.len(),
{
    if s.len() == 0 {
        0
    } else if s[0] == DELIM {
        0
    } else {
        1 + first_delim(s.subrange(1, s.len() as int))
    }
}

/// The first complete line of `s`: the bytes before the first delimiter.
pub open spec fn line_of(s: Seq<u8>) -> Seq<u8> {
    s.subrange(0, first_delim(s))
}

/// What remains of `s` after its first line and that line's delimiter are
/// taken away.
pub open spec fn rest_of(s: Seq<u8>) -> Seq<u8> {
    s.subrange(first_delim(s) + 1, s.len() as int)
}

/// When `s` holds a delimiter, `first_delim` points at the first one:
/// it is in range, it is a delimiter, and nothing before it is.
pub proof fn lemma_first_delim(s: Seq<u8>)
    requires
        has_delim(s),
    ensures
        0 <= first_delim(s) < s.len(),
        s[first_delim(s)] == DELIM,
        forall|j: int| 0 <= j < first_delim(s) ==> s[j] != DELIM,
    decreases s.len(),
{
    if s.len() == 0 {
    } else if s[0] == DELIM {
    } else {
        let tail = s.subrange(1, s.len() as int);
        let i = choose|i: int| 0 <= i < s.len() && s[i] == DELIM;
        assert(tail[i - 1] == DELIM);
        lemma_first_delim(tail);
        assert forall|j: int| 0 <= j < first_delim(s) implies s[j] != DELIM by {
            if j > 0 {
                assert(tail[j - 1] != DELIM);
            }
        }
    }
}

/// `first_delim` is the only index that is a delimiter with none before it.
pub proof fn lemma_first_delim_unique(s: Seq<u8>, i: int)
    requires
        0 <= i < s.len(),
        s[i] == DELIM,
        forall|j: int| 0 <= j < i ==> s[j] != DELIM,
    ensures
        first_delim(s) == i,
{
    assert(has_delim(s));
    lemma_first_delim(s);
}

/// Round trip of the framing: framing a message and then taking the first
/// line of the wire bytes — whatever follows them — yields exactly that
/// message, byte for byte, and leaves exactly what followed.
pub proof fn lemma_round_trip(m: Seq<u8>, rest: Seq<u8>)
    requires
        is_message(m),
    ensures
        has_delim(framed(m) + rest),
        line_of(framed(m) + rest) == m,
        rest_of(framed(m) + rest) == rest,
{
    let s = framed(m) + rest;
    assert(s[m.len() as int] == DELIM);
    assert forall|j: int| 0 <= j < m.len() implies s[j] != DELIM by {
        assert(s[j] == m[j]);
    }
    lemma_first_delim_unique(s, m.len() as int);
    assert(line_of(s) =~= m);
    assert(rest_of(s) =~= rest);
}

/// Appends every byte of `src` to `dst`, in order.
pub fn append_bytes(dst: &mut Vec<u8>, src: &Vec<u8>)
    ensures
        final(dst)@ == old(dst)@ + src@,
{
    let n = src.len();
    let mut i: usize = 0;
    while i < n
        invariant
            n == src@.len(),
            i <= n,
            dst@ == old(dst)@ + src@.subrange(0, i as int),
        decreases n - i,
    {
        dst.push(src[i]);
        proof {
            assert(old(dst)@ + src@.subrange(0, i as int + 1) =~= (old(dst)@ + src@.subrange(
                0,
                i as int,
            )).push(src@[i as int]));
        }
        i = i + 1;
    }
    proof {
        assert(src@.subrange(0, n as int) =~= src@);
    }
}

/// Copies the bytes of `v` from index `from` (inclusive) to `to`
/// (exclusive) into a fresh vector.
pub(crate) fn copy_range(v: &Vec<u8>, from: usize, to: usize) -> (r: Vec<u8>)
    requires
        from <= to <= v@.len(),
    ensures
        r@ == v@.subrange(from as int, to as int),
{
    let mut r: Vec<u8> = Vec::new();
    let mut i: usize = from;
    while i < to
        invariant
            from <= i <= to <= v@.len(),
            r@ == v@.subrange(from as int, i as int),
        decreases to - i,
    {
        r.push(v[i]);
        proof {
            assert(v@.subrange(from as int, i as int + 1) =~= v@.subrange(
                from as int,
                i as int,
            ).push(v@[i as int]));
        }
        i = i + 1;
    }
    r
}

/// Frames a message for the wire: the message's bytes followed by one
/// delimiter, ready to be written out in a single flush.
pub fn frame_message(message: &Vec<u8>) -> (wire: Vec<u8>)
    ensures
        wire@ == framed(message@),
{
    let mut wire: Vec<u8> = Vec::new();
    append_bytes(&mut wire, message);
    wire.push(DELIM);
    proof {
        assert(Seq::<u8>::empty() + message@ =~= message@);
    }
    wire
}

/// Decides in executable code whether `m` is a well-formed message, i.e.
/// holds no delimiter byte.
pub fn check_message(m: &Vec<u8>) -> (ok: bool)
    ensures
        ok == is_message(m@),
{
    let n = m.len();
    let mut i: usize = 0;
    while i < n
        invariant
            n == m@.len(),
            i <= n,
            forall|j: int| 0 <= j < i ==> m@[j] != DELIM,
        decreases n - i,
    {
        if m[i] == DELIM {
            return false;
        }
        i = i + 1;
    }
    true
}

} // verus!
