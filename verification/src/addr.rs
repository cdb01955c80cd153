//! Deciding whether a network interface has an address assigned.
//!
//! The caller asks the host's tooling to describe the interface and
//! hands the raw output here; the interface is considered ready once
//! that output mentions an assigned address — that is, once it contains
//! the marker `inet ` somewhere.  Retrying and sleeping stay with the
//! caller; the decision is here.

use vstd::prelude::*;

verus! {

/// The marker that an address listing carries for an assigned address:
/// the bytes of `inet `, including the trailing space.
pub open spec fn inet_marker() -> Seq<u8> {
    seq![105u8, 110u8, 101u8, 116u8, 32u8]
}

/// Whether the marker starts at position `i` of the output.
pub open spec fn marker_at(s: Seq<u8>, i: int) -> bool {
    &&& 0 <= i
    &&& i + 5 <= s.len()
    &&& s.subrange(i, i + 5) == inet_marker()
}

/// Whether the marker occurs anywhere in the output.
pub open spec fn contains_inet(s: Seq<u8>) -> bool {
    exists|i: int| marker_at(s, i)
}

/// Decides address readiness: true exactly when the tool output
/// contains the `inet ` marker of an assigned address.
pub fn addr_ready(output: &[u8]) -> (r: bool)
    ensures
        r == contains_inet(output@),
{
    if output.len() < 5 {
        proof {
            assert forall|j: int| !marker_at(output@, j) by {}
        }
        return false;
    }
    let mut i: usize = 0;
    let last: usize = output.len() - 5;
    while i <= last
        invariant
            output@.len() >= 5,
            output@.len() <= usize::MAX,
            last == output@.len() - 5,
            i <= last + 1,
            forall|j: int| 0 <= j < i ==> !marker_at(output@, j),
        decreases last + 1 - i,
    {
        let hit = *vstd::slice::slice_index_get(output, i) == 105 && *vstd::slice::slice_index_get(
            output,
            i + 1,
        ) == 110 && *vstd::slice::slice_index_get(output, i + 2) == 101
            && *vstd::slice::slice_index_get(output, i + 3) == 116
            && *vstd::slice::slice_index_get(output, i + 4) == 32;
        if hit {
            proof {
                assert(output@.subrange(i as int, i as int + 5) =~= inet_marker());
                assert(marker_at(output@, i as int));
            }
            return true;
        }
        proof {
            assert(!marker_at(output@, i as int)) by {
                if output@.subrange(i as int, i as int + 5) == inet_marker() {
                    assert(output@.subrange(i as int, i as int + 5)[0] == output@[i as int]);
                    assert(output@.subrange(i as int, i as int + 5)[1] == output@[i as int + 1]);
                    assert(output@.subrange(i as int, i as int + 5)[2] == output@[i as int + 2]);
                    assert(output@.subrange(i as int, i as int + 5)[3] == output@[i as int + 3]);
                    assert(output@.subrange(i as int, i as int + 5)[4] == output@[i as int + 4]);
                }
            }
        }
        i = i + 1;
    }
    proof {
        assert forall|j: int| !marker_at(output@, j) by {
            if marker_at(output@, j) {
                assert(0 <= j && j + 5 <= output@.len());
                assert(j < i);
            }
        }
    }
    false
}

} // verus!
