//! File names of chunks: the chunk's index in decimal stands in place of
//! each `{}` of a pattern.
use vstd::prelude::*;

verus! {

/// The byte `{`.
pub const OPEN_BRACE: u8 = 123;

/// The byte `}`.
pub const CLOSE_BRACE: u8 = 125;

/// The ASCII decimal digits of `n`, most significant first, without leading zeros.
pub open spec fn decimal(n: nat) -> Seq<u8>
    decreases n,
{
    if n < 10 {
        seq![(48 + n) as u8]
    } else {
        decimal(n / 10).push((48 + n % 10) as u8)
    }
}

/// `p` with every `{}` replaced by `rep`, the occurrences taken from left to
/// right without overlap.
pub open spec fn substituted(p: Seq<u8>, rep: Seq<u8>) -> Seq<u8>
    decreases p.len(),
{
    if p.len() < 2 {
        p
    } else if p[0] == OPEN_BRACE && p[1] == CLOSE_BRACE {
        rep + substituted(p.skip(2), rep)
    } else {
        seq![p[0]] + substituted(p.skip(1), rep)
    }
}

/// Appends the decimal digits of `n` to `out`.
pub fn push_decimal(n: u64, out: &mut Vec<u8>)
    ensures
        final(out)@ == old(out)@ + decimal(n as nat),
    decreases n,
{
    if n < 10 {
        out.push((48 + n) as u8);
        assert(final(out)@ =~= old(out)@ + decimal(n as nat));
    } else {
        push_decimal(n / 10, out);
        out.push((48 + n % 10) as u8);
        assert(final(out)@ =~= old(out)@ + decimal(n as nat));
    }
}

/// The file name of chunk `index`: `pattern` with the index in decimal in
/// place of each `{}`.
pub fn chunk_file_name(pattern: &Vec<u8>, index: u64) -> (r: Vec<u8>)
    ensures
        r@ == substituted(pattern@, decimal(index as nat)),
{
    let ghost p = pattern@;
    let ghost rep = decimal(index as nat);
    let mut out: Vec<u8> = Vec::new();
    let mut i: usize = 0;
    assert(p.skip(0) =~= p);
    while i < pattern.len()
        invariant
            i <= p.len(),
            p == pattern@,
            rep == decimal(index as nat),
            out@ + substituted(p.skip(i as int), rep) == substituted(p, rep),
        decreases p.len() - i,
    {
        let ghost before = out@;
        let ghost rest = p.skip(i as int);
        if i + 1 < pattern.len() && pattern[i] == OPEN_BRACE && pattern[i + 1] == CLOSE_BRACE {
            assert(rest.skip(2) =~= p.skip(i + 2));
            assert(rest[0] == p[i as int] && rest[1] == p[i + 1]);
            assert(substituted(rest, rep) == rep + substituted(p.skip(i + 2), rep));
            push_decimal(index, &mut out);
            assert(out@ == before + rep);
            assert(before + (rep + substituted(p.skip(i + 2), rep)) =~= out@ + substituted(
                p.skip(i + 2),
                rep,
            ));
            i = i + 2;
        } else {
            assert(rest.skip(1) =~= p.skip(i + 1));
            proof {
                if rest.len() < 2 {
                    assert(substituted(p.skip(i + 1), rep) =~= Seq::<u8>::empty());
                    assert(rest =~= seq![p[i as int]]);
                }
            }
            out.push(pattern[i]);
            assert(before + (seq![p[i as int]] + substituted(p.skip(i + 1), rep)) =~= out@
                + substituted(p.skip(i + 1), rep));
            i = i + 1;
        }
    }
    assert(p.skip(i as int) =~= Seq::<u8>::empty());
    assert(out@ + Seq::<u8>::empty() =~= out@);
    out
}

} // verus!
