//! Length-framed transcripts.
//!
//! A transcript is the concatenation of its segments, each preceded by its
//! length as eight little-endian bytes. The framing is injective: two lists
//! of segments with the same transcript are the same list, so a challenge
//! derived from a transcript is bound to every segment of it.

use vstd::bytes::*;
use vstd::prelude::*;

verus! {

/// One segment on the wire: its length as eight little-endian bytes, then
/// its bytes.
pub open spec fn spec_segment(part: Seq<u8>) -> Seq<u8> {
    spec_u64_to_le_bytes(part.len() as u64) + part
}

/// The transcript of `parts`: the framed segments, in order.
pub open spec fn spec_frame(parts: Seq<Seq<u8>>) -> Seq<u8>
    decreases parts.len(),
{
    if parts.len() == 0 {
        Seq::empty()
    } else {
        spec_segment(parts[0]) + spec_frame(parts.skip(1))
    }
}

/// Every segment is short enough for its length to fit the prefix.
pub open spec fn framable(parts: Seq<Seq<u8>>) -> bool {
    forall|i: int| 0 <= i < parts.len() ==> (#[trigger] parts[i]).len() <= u64::MAX
}

/// The byte strings held by `parts`.
pub open spec fn segments(parts: Seq<Vec<u8>>) -> Seq<Seq<u8>> {
    Seq::new(parts.len(), |i: int| parts[i]@)
}

/// Framing one more segment appends that segment's frame.
pub proof fn lemma_frame_push(parts: Seq<Seq<u8>>, part: Seq<u8>)
    ensures
        spec_frame(parts.push(part)) == spec_frame(parts) + spec_segment(part),
    decreases parts.len(),
{
    let extended = parts.push(part);
    if parts.len() == 0 {
        assert(extended.skip(1) =~= Seq::<Seq<u8>>::empty());
        assert(spec_frame(extended.skip(1)) =~= Seq::<u8>::empty());
        assert(spec_frame(extended) =~= spec_frame(parts) + spec_segment(part));
    } else {
        lemma_frame_push(parts.skip(1), part);
        assert(extended.skip(1) =~= parts.skip(1).push(part));
        assert(spec_frame(extended) =~= spec_frame(parts) + spec_segment(part));
    }
}

/// A transcript is at least as long as the prefixes of its segments.
pub proof fn lemma_frame_len(parts: Seq<Seq<u8>>)
    ensures
        spec_frame(parts).len() >= 8 * parts.len(),
    decreases parts.len(),
{
    if parts.len() > 0 {
        lemma_auto_spec_u64_to_from_le_bytes();
        lemma_frame_len(parts.skip(1));
    }
}

/// Two segments whose frames open two equal byte strings are equal, and so
/// is what follows them.
proof fn lemma_segment_split(a: Seq<u8>, rest_a: Seq<u8>, b: Seq<u8>, rest_b: Seq<u8>)
    requires
        a.len() <= u64::MAX,
        b.len() <= u64::MAX,
        spec_segment(a) + rest_a == spec_segment(b) + rest_b,
    ensures
        a == b,
        rest_a == rest_b,
{
    lemma_auto_spec_u64_to_from_le_bytes();
    let left = spec_segment(a) + rest_a;
    let right = spec_segment(b) + rest_b;
    let prefix_a = spec_u64_to_le_bytes(a.len() as u64);
    let prefix_b = spec_u64_to_le_bytes(b.len() as u64);
    assert(left.subrange(0, 8) =~= prefix_a);
    assert(right.subrange(0, 8) =~= prefix_b);
    assert(spec_u64_from_le_bytes(prefix_a) == spec_u64_from_le_bytes(prefix_b));
    assert(a.len() == b.len());
    let end = 8 + a.len();
    assert(left.subrange(8, end as int) =~= a);
    assert(right.subrange(8, end as int) =~= b);
    assert(left.subrange(end as int, left.len() as int) =~= rest_a);
    assert(right.subrange(end as int, right.len() as int) =~= rest_b);
}

/// Framing is injective: lists of segments with one transcript are one list.
pub proof fn lemma_frame_injective(a: Seq<Seq<u8>>, b: Seq<Seq<u8>>)
    requires
        framable(a),
        framable(b),
        spec_frame(a) == spec_frame(b),
    ensures
        a == b,
    decreases a.len(),
{
    lemma_frame_len(a);
    lemma_frame_len(b);
    if a.len() == 0 || b.len() == 0 {
        assert(a =~= b);
    } else {
        let rest_a = a.skip(1);
        let rest_b = b.skip(1);
        lemma_segment_split(a[0], spec_frame(rest_a), b[0], spec_frame(rest_b));
        assert(framable(rest_a)) by {
            assert forall|i: int| 0 <= i < rest_a.len() implies (#[trigger] rest_a[i]).len()
                <= u64::MAX by {
                assert(rest_a[i] == a[i + 1]);
            }
        }
        assert(framable(rest_b)) by {
            assert forall|i: int| 0 <= i < rest_b.len() implies (#[trigger] rest_b[i]).len()
                <= u64::MAX by {
                assert(rest_b[i] == b[i + 1]);
            }
        }
        lemma_frame_injective(rest_a, rest_b);
        assert(a =~= b) by {
            assert(a.len() == b.len());
            assert forall|i: int| 0 <= i < a.len() implies a[i] == b[i] by {
                if i > 0 {
                    assert(a[i] == rest_a[i - 1]);
                    assert(b[i] == rest_b[i - 1]);
                }
            }
        }
    }
}

/// Appends the bytes of `part` to `out`.
pub fn append_bytes(out: &mut Vec<u8>, part: &[u8])
    ensures
        final(out)@ == old(out)@ + part@,
{
    let ghost before = out@;
    let mut i: usize = 0;
    while i < part.len()
        invariant
            i <= part.len(),
            out@ == before + part@.subrange(0, i as int),
        decreases part.len() - i,
    {
        out.push(part[i]);
        i += 1;
        proof {
            assert(part@.subrange(0, i as int) =~= part@.subrange(0, i - 1).push(part@[i - 1]));
            assert(out@ =~= before + part@.subrange(0, i as int));
        }
    }
    proof {
        assert(part@.subrange(0, part@.len() as int) =~= part@);
    }
}

/// Appends the frame of `part` to `out`.
pub fn append_segment(out: &mut Vec<u8>, part: &[u8])
    ensures
        final(out)@ == old(out)@ + spec_segment(part@),
{
    let ghost before = out@;
    let prefix = u64_to_le_bytes(part.len() as u64);
    append_bytes(out, prefix.as_slice());
    append_bytes(out, part);
    proof {
        assert(out@ =~= before + spec_segment(part@));
    }
}

/// Builds the transcript of `parts`.
pub fn frame(parts: &Vec<Vec<u8>>) -> (out: Vec<u8>)
    ensures
        out@ == spec_frame(segments(parts@)),
{
    let mut out: Vec<u8> = Vec::new();
    let mut i: usize = 0;
    proof {
        assert(segments(parts@).take(0) =~= Seq::<Seq<u8>>::empty());
    }
    while i < parts.len()
        invariant
            i <= parts.len(),
            out@ == spec_frame(segments(parts@).take(i as int)),
        decreases parts.len() - i,
    {
        append_segment(&mut out, parts[i].as_slice());
        proof {
            let all = segments(parts@);
            lemma_frame_push(all.take(i as int), all[i as int]);
            assert(all.take(i + 1) =~= all.take(i as int).push(all[i as int]));
        }
        i += 1;
    }
    proof {
        assert(segments(parts@).take(parts@.len() as int) =~= segments(parts@));
    }
    out
}

} // verus!
