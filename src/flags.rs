use vstd::prelude::*;

verus! {

/// The context flags with `flag` switched on and every other bit kept.
pub fn set_flag(flags: u64, flag: u64) -> (r: u64)
    ensures
        r == flags | flag,
{
    flags | flag
}

/// Switching a flag on twice leaves the flags as switching it on once does.
pub proof fn lemma_set_flag_idempotent(flags: u64, flag: u64)
    ensures
        (flags | flag) | flag == flags | flag,
{
    assert((flags | flag) | flag == flags | flag) by (bit_vector);
}

} // verus!
