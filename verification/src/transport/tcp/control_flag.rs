//! The control bits of a TCP segment.

use vstd::prelude::*;

verus! {

/// Urgent pointer field significant.
pub const URG: u8 = 0x20;

/// Acknowledgment field significant.
pub const ACK: u8 = 0x10;

/// Push function.
pub const PSH: u8 = 0x08;

/// Reset the connection.
pub const RST: u8 = 0x04;

/// Synchronize sequence numbers.
pub const SYN: u8 = 0x02;

/// No more data from sender.
pub const FIN: u8 = 0x01;

/// SYN together with ACK: the answer to a SYN.
pub const SYN_ACK: u8 = 0x12;

/// RST together with ACK: the reset that answers a segment without ACK.
pub const RST_ACK: u8 = 0x14;

/// Whether `v` has a bit of `flg` set.
pub open spec fn spec_is_up(v: u8, flg: u8) -> bool {
    (v & flg) != 0
}

/// Whether `v` has a bit of `flg` set.
#[verifier::when_used_as_spec(spec_is_up)]
pub fn is_up(v: u8, flg: u8) -> (b: bool)
    ensures
        b == spec_is_up(v, flg),
{
    (v & flg) != 0
}

/// The combined control bits are the bits they are named after, and carry
/// no others.
pub proof fn lemma_combined_flags()
    ensures
        SYN_ACK == SYN | ACK,
        RST_ACK == RST | ACK,
        spec_is_up(SYN_ACK, SYN),
        spec_is_up(SYN_ACK, ACK),
        !spec_is_up(SYN_ACK, RST),
        !spec_is_up(SYN_ACK, FIN),
        spec_is_up(RST_ACK, RST),
        spec_is_up(RST_ACK, ACK),
        !spec_is_up(RST_ACK, SYN),
        spec_is_up(RST, RST),
        !spec_is_up(RST, ACK),
        !spec_is_up(RST, SYN),
{
    assert(0x12u8 == 0x02u8 | 0x10u8) by (bit_vector);
    assert(0x14u8 == 0x04u8 | 0x10u8) by (bit_vector);
    assert(0x12u8 & 0x02u8 != 0) by (bit_vector);
    assert(0x12u8 & 0x10u8 != 0) by (bit_vector);
    assert(0x12u8 & 0x04u8 == 0) by (bit_vector);
    assert(0x12u8 & 0x01u8 == 0) by (bit_vector);
    assert(0x14u8 & 0x04u8 != 0) by (bit_vector);
    assert(0x14u8 & 0x10u8 != 0) by (bit_vector);
    assert(0x14u8 & 0x02u8 == 0) by (bit_vector);
    assert(0x04u8 & 0x04u8 != 0) by (bit_vector);
    assert(0x04u8 & 0x10u8 == 0) by (bit_vector);
    assert(0x04u8 & 0x02u8 == 0) by (bit_vector);
}

} // verus!
