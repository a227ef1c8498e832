//! Building blocks of the emitted text: indentation and joining.
use vstd::prelude::*;
use vstd::string::StringExecFns;

verus! {

/// The indentation of `levels` levels: four spaces for each.
pub open spec fn pad(levels: nat) -> Seq<char> {
    Seq::new(4 * levels, |i: int| ' ')
}

/// `parts` in order, with `sep` between each two neighbours.
pub open spec fn join(parts: Seq<Seq<char>>, sep: Seq<char>) -> Seq<char>
    decreases parts.len(),
{
    if parts.len() == 0 {
        Seq::empty()
    } else if parts.len() == 1 {
        parts[0]
    } else {
        join(parts.drop_last(), sep) + sep + parts.last()
    }
}

/// Joining one more part: the separator comes before it unless it is the first.
pub proof fn lemma_join_push(parts: Seq<Seq<char>>, sep: Seq<char>, part: Seq<char>)
    ensures
        join(parts.push(part), sep) == if parts.len() == 0 {
            part
        } else {
            join(parts, sep) + sep + part
        },
{
    assert(parts.push(part).drop_last() =~= parts);
}

/// Appends the indentation of `levels` levels to `out`.
pub fn push_pad(out: &mut String, levels: usize)
    ensures
        final(out)@ == old(out)@ + pad(levels as nat),
{
    let mut done: usize = 0;
    proof {
        assert(out@ =~= old(out)@ + pad(0));
    }
    while done < levels
        invariant
            done <= levels,
            out@ == old(out)@ + pad(done as nat),
        decreases levels - done,
    {
        out.append("    ");
        proof {
            reveal_strlit("    ");
            assert(out@ =~= old(out)@ + pad((done + 1) as nat));
        }
        done += 1;
    }
}

} // verus!
