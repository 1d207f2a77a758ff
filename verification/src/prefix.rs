//! Prefix test on query strings.

use vstd::prelude::*;
use vstd::std_specs::iter::IteratorSpec;
use vstd::string::*;

verus! {

/// Whether `text` begins with `prefix`, character by character.
pub fn starts_with(text: &str, prefix: &str) -> (res: bool)
    ensures
        res == prefix@.is_prefix_of(text@),
{
    broadcast use next_postcondition, axiom_spec_iter;

    let mut rest_text = text.chars();
    let mut rest_prefix = prefix.chars();
    let ghost mut seen: int = 0;
    loop
        invariant
            0 <= seen <= prefix@.len(),
            seen <= text@.len(),
            rest_prefix.remaining() == prefix@.subrange(seen, prefix@.len() as int),
            rest_text.remaining() == text@.subrange(seen, text@.len() as int),
            prefix@.subrange(0, seen) == text@.subrange(0, seen),
            rest_prefix.decrease() is Some,
            rest_prefix.obeys_prophetic_iter_laws(),
            rest_text.obeys_prophetic_iter_laws(),
        decreases prefix@.len() - seen,
    {
        let want = rest_prefix.next();
        match want {
            None => {
                assert(prefix@.subrange(0, seen) == prefix@);
                return true;
            },
            Some(p) => {
                let have = rest_text.next();
                match have {
                    None => {
                        return false;
                    },
                    Some(t) => {
                        if p != t {
                            assert(prefix@[seen] != text@[seen]);
                            return false;
                        }
                        proof {
                            assert(prefix@.subrange(0, seen + 1) =~= text@.subrange(0, seen + 1)) by {
                                assert(prefix@.subrange(0, seen + 1) =~= prefix@.subrange(0, seen).push(p));
                                assert(text@.subrange(0, seen + 1) =~= text@.subrange(0, seen).push(t));
                            }
                            seen = seen + 1;
                        }
                    },
                }
            },
        }
    }
}

} // verus!
