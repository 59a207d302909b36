use vstd::prelude::*;

verus! {

/// The pair that the guest commits to its journal once the substrings proof
/// has been verified: whether any request bytes and whether any response
/// bytes were recovered.
pub fn disclosure_flags(sent_data: &[u8], recv_data: &[u8]) -> (flags: (bool, bool))
    ensures
        flags.0 == (sent_data@.len() > 0),
        flags.1 == (recv_data@.len() > 0),
{
    (sent_data.len() > 0, recv_data.len() > 0)
}

} // verus!
