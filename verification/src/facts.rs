//! Facts that a decision is made from: what came of a step, if it was taken.

use vstd::prelude::*;

verus! {

/// A fact is not known, or known to be true or false.
pub proof fn lemma_known(fact: Option<bool>)
    ensures
        fact is None || fact == Some(true) || fact == Some(false),
{
    if let Some(value) = fact {
        assert(value == true || value == false);
    }
}

} // verus!
