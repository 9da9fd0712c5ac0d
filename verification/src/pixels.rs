use vstd::prelude::*;

verus! {

/// Number of bytes occupied by a `width` x `height` grid of RGBA pixels,
/// four bytes per pixel.
pub open spec fn pixel_len(width: nat, height: nat) -> nat {
    width * height * 4
}

/// The longest prefix of `s` made of complete 4-byte RGBA groups: a trailing
/// partial group is cut off.
pub open spec fn rgba_prefix(s: Seq<u8>) -> Seq<u8> {
    s.take((s.len() / 4 * 4) as int)
}

/// The RGBA prefix never grows the sequence and always consists of whole
/// 4-byte groups.
pub proof fn lemma_rgba_prefix_complete_groups(s: Seq<u8>)
    ensures
        rgba_prefix(s).len() == s.len() / 4 * 4,
        rgba_prefix(s).len() <= s.len(),
        rgba_prefix(s).len() % 4 == 0,
{
    assert(s.len() / 4 * 4 <= s.len() && (s.len() / 4 * 4) % 4 == 0) by (nonlinear_arith);
}

/// Copies a byte slice into a freshly allocated vector; the result aliases
/// nothing the caller holds.
pub(crate) fn copy_slice(src: &[u8]) -> (out: Vec<u8>)
    ensures
        out@ == src@,
{
    let mut out: Vec<u8> = Vec::new();
    let mut i: usize = 0;
    proof {
        assert(out@ =~= src@.take(0));
    }
    while i < src.len()
        invariant
            i <= src@.len(),
            out@ == src@.take(i as int),
        decreases src@.len() - i,
    {
        out.push(src[i]);
        i = i + 1;
        proof {
            assert(out@ =~= src@.take(i as int));
        }
    }
    proof {
        assert(out@ =~= src@);
    }
    out
}

} // verus!
