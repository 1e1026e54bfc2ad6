//! Flag bits of the link header and of the netlink header, and the two ways
//! a builder changes a link flag.

use vstd::prelude::*;

verus! {

/// The link is administratively up.
pub const IFF_UP: u32 = 0x1;

/// The link does not use ARP.
pub const IFF_NOARP: u32 = 0x80;

/// The link receives every packet on the wire.
pub const IFF_PROMISC: u32 = 0x100;

/// The message is a request.
pub const NLM_F_REQUEST: u16 = 0x1;

/// The sender asks for an acknowledgment.
pub const NLM_F_ACK: u16 = 0x4;

/// Replace the object if it exists.
pub const NLM_F_REPLACE: u16 = 0x100;

/// Do not touch the object if it exists.
pub const NLM_F_EXCL: u16 = 0x200;

/// Create the object if it does not exist.
pub const NLM_F_CREATE: u16 = 0x400;

/// The flag word `flags` with the bits of `bit` set.
pub open spec fn raised(flags: u32, bit: u32) -> u32 {
    flags | bit
}

/// The flag word `flags` with the bits of `bit` cleared.
pub open spec fn lowered(flags: u32, bit: u32) -> u32 {
    flags & !bit
}

/// Whether every bit of `bit` is set in `flags`.
pub open spec fn has_bits(flags: u32, bit: u32) -> bool {
    flags & bit == bit
}

/// Whether no bit of `bit` is set in `flags`.
pub open spec fn lacks_bits(flags: u32, bit: u32) -> bool {
    flags & bit == 0
}

/// The netlink header flags of a link-set request: request and acknowledge,
/// create, and either replace an existing link or refuse to touch one.
pub open spec fn request_flags(replace: bool) -> u16 {
    if replace {
        NLM_F_REQUEST | NLM_F_ACK | NLM_F_REPLACE | NLM_F_CREATE
    } else {
        NLM_F_REQUEST | NLM_F_ACK | NLM_F_EXCL | NLM_F_CREATE
    }
}

/// Sets the bits of `bit` in `flags`.
pub fn raise(flags: u32, bit: u32) -> (r: u32)
    ensures
        r == raised(flags, bit),
{
    flags | bit
}

/// Clears the bits of `bit` in `flags`.
pub fn lower(flags: u32, bit: u32) -> (r: u32)
    ensures
        r == lowered(flags, bit),
{
    flags & !bit
}

/// Computes the netlink header flags of a link-set request.
pub fn compute_request_flags(replace: bool) -> (r: u16)
    ensures
        r == request_flags(replace),
{
    if replace {
        NLM_F_REQUEST | NLM_F_ACK | NLM_F_REPLACE | NLM_F_CREATE
    } else {
        NLM_F_REQUEST | NLM_F_ACK | NLM_F_EXCL | NLM_F_CREATE
    }
}

/// Raising a bit sets it and leaves every other bit as it was; raising it a
/// second time changes nothing.
pub proof fn lemma_raise(flags: u32, bit: u32)
    ensures
        has_bits(raised(flags, bit), bit),
        raised(raised(flags, bit), bit) == raised(flags, bit),
        forall|other: u32| lacks_bits(other, bit) ==> #[trigger] (raised(flags, bit) & other) == flags & other,
{
    assert((flags | bit) & bit == bit) by (bit_vector);
    assert((flags | bit) | bit == flags | bit) by (bit_vector);
    assert forall|other: u32| lacks_bits(other, bit) implies #[trigger] (raised(flags, bit) & other)
        == flags & other by {
        assert(other & bit == 0 ==> (flags | bit) & other == flags & other) by (bit_vector);
    }
}

/// Lowering a bit clears it and leaves every other bit as it was; lowering
/// it a second time changes nothing.
pub proof fn lemma_lower(flags: u32, bit: u32)
    ensures
        lacks_bits(lowered(flags, bit), bit),
        lowered(lowered(flags, bit), bit) == lowered(flags, bit),
        forall|other: u32| lacks_bits(other, bit) ==> #[trigger] (lowered(flags, bit) & other) == flags & other,
{
    assert((flags & !bit) & bit == 0) by (bit_vector);
    assert((flags & !bit) & !bit == flags & !bit) by (bit_vector);
    assert forall|other: u32| lacks_bits(other, bit) implies #[trigger] (lowered(flags, bit) & other)
        == flags & other by {
        assert(other & bit == 0 ==> (flags & !bit) & other == flags & other) by (bit_vector);
    }
}

/// Lowering after raising, or raising after lowering, gives what the last
/// of the two gives alone.
pub proof fn lemma_last_change_wins(flags: u32, bit: u32)
    ensures
        lowered(raised(flags, bit), bit) == lowered(flags, bit),
        raised(lowered(flags, bit), bit) == raised(flags, bit),
{
    assert((flags | bit) & !bit == flags & !bit) by (bit_vector);
    assert((flags & !bit) | bit == flags | bit) by (bit_vector);
}

/// Without `replace` a request carries `EXCL | CREATE` and not `REPLACE`;
/// with it, `REPLACE | CREATE` and not `EXCL`. `REQUEST | ACK` is always
/// there.
pub proof fn lemma_request_flags()
    ensures
        request_flags(false) == 0x605,
        request_flags(true) == 0x505,
        request_flags(false) & NLM_F_REPLACE == 0,
        request_flags(true) & NLM_F_EXCL == 0,
        forall|replace: bool| #[trigger]
            request_flags(replace) & (NLM_F_REQUEST | NLM_F_ACK | NLM_F_CREATE) == NLM_F_REQUEST
                | NLM_F_ACK | NLM_F_CREATE,
{
    assert(0x1u16 | 0x4 | 0x200 | 0x400 == 0x605) by (bit_vector);
    assert(0x1u16 | 0x4 | 0x100 | 0x400 == 0x505) by (bit_vector);
    assert(0x605u16 & 0x100 == 0) by (bit_vector);
    assert(0x505u16 & 0x200 == 0) by (bit_vector);
    assert(0x1u16 | 0x4 | 0x400 == 0x405) by (bit_vector);
    assert(0x605u16 & 0x405 == 0x405) by (bit_vector);
    assert(0x505u16 & 0x405 == 0x405) by (bit_vector);
}

} // verus!
