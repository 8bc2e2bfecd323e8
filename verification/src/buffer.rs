//! The byte buffer of a run.

use vstd::prelude::*;

verus! {

/// Writes all of `contents` to the sink `f`, behind what it holds.
pub fn write_contents(f: &mut Vec<u8>, contents: &[u8])
    ensures
        final(f)@ == old(f)@ + contents@,
{
    f.extend_from_slice(contents);
    assert(f@ =~= old(f)@ + contents@);
}

} // verus!
