//! Literals: nonzero signed integers naming a Boolean variable and its polarity.
//!
//! A positive literal asserts its variable, a negative one denies it. Zero is
//! kept for the engine, which reads it as the end of a clause, and `i32::MIN`
//! is excluded because it has no negation.

use vstd::prelude::*;

verus! {

/// A value that may be handed to the engine as a literal.
pub open spec fn valid_literal(lit: int) -> bool {
    lit != 0 && i32::MIN < lit <= i32::MAX
}

/// Every member of `lits` is a literal.
pub open spec fn valid_literals(lits: Seq<i32>) -> bool {
    forall|i: int| 0 <= i < lits.len() ==> valid_literal(#[trigger] lits[i] as int)
}

/// Tells whether `lit` may be handed to the engine as a literal.
pub fn is_literal(lit: i32) -> (ok: bool)
    ensures
        ok == valid_literal(lit as int),
{
    lit != 0 && lit != i32::MIN
}

/// Tells whether every member of `lits` may be handed to the engine as a literal.
pub fn are_literals(lits: &[i32]) -> (ok: bool)
    ensures
        ok == valid_literals(lits@),
{
    let mut i: usize = 0;
    while i < lits.len()
        invariant
            i <= lits.len(),
            valid_literals(lits@.take(i as int)),
        decreases lits.len() - i,
    {
        if !is_literal(lits[i]) {
            return false;
        }
        proof {
            let grown = lits@.take(i as int + 1);
            assert forall|k: int| 0 <= k < grown.len() implies valid_literal(
                #[trigger] grown[k] as int,
            ) by {
                if k < i {
                    assert(grown[k] == lits@.take(i as int)[k]);
                }
            }
        }
        i += 1;
    }
    assert(lits@.take(i as int) =~= lits@);
    true
}

} // verus!
