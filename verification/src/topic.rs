//! The output topic convention.
//!
//! Each published event goes out on a topic derived deterministically
//! from the item's object identifier: a fixed raw-state prefix followed
//! by the identifier's path form, in which the colon separators become
//! slashes.  Identifiers are carried as bytes; the surrounding process
//! turns the result into its transport's string type.

use vstd::prelude::*;

verus! {

/// One byte of an identifier, mapped to its path form: a colon becomes
/// a slash, everything else is unchanged.
pub open spec fn path_byte_spec(c: u8) -> u8 {
    if c == 58 {
        47
    } else {
        c
    }
}

/// The topic for an identifier: the raw-state prefix `RAW/` followed by
/// the identifier with colons turned into slashes.
pub open spec fn topic_spec(oid: Seq<u8>) -> Seq<u8> {
    seq![82u8, 65u8, 87u8, 47u8] + oid.map_values(|c: u8| path_byte_spec(c))
}

/// Builds the output topic for an item's object identifier.
#[verifier::loop_isolation(false)]
pub fn topic_for_oid(oid: &Vec<u8>) -> (r: Vec<u8>)
    ensures
        r@ == topic_spec(oid@),
{
    let mut out: Vec<u8> = Vec::new();
    out.push(82);
    out.push(65);
    out.push(87);
    out.push(47);
    let mut i: usize = 0;
    while i < oid.len()
        invariant
            0 <= i <= oid@.len(),
            out@.len() == i + 4,
            out@[0] == 82u8 && out@[1] == 65u8 && out@[2] == 87u8 && out@[3] == 47u8,
            forall|j: int| 0 <= j < i ==> out@[j + 4] == path_byte_spec(oid@[j]),
        decreases oid@.len() - i,
    {
        let c = oid[i];
        if c == 58 {
            out.push(47);
        } else {
            out.push(c);
        }
        i += 1;
    }
    proof {
        assert forall|j: int| 0 <= j < topic_spec(oid@).len() implies out@[j] == topic_spec(oid@)[j]
        by {
            if j >= 4 {
                assert(topic_spec(oid@)[j] == oid@.map_values(|c: u8| path_byte_spec(c))[j - 4]);
                assert(oid@.map_values(|c: u8| path_byte_spec(c))[j - 4] == path_byte_spec(
                    oid@[j - 4],
                ));
            }
        }
        assert(out@ =~= topic_spec(oid@));
    }
    out
}

} // verus!
