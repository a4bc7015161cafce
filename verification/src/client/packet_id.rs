//! Packet identifiers.

use vstd::prelude::*;

verus! {

/// The packet identifier handed out when the counter stands at `next`: the
/// counter's value, or 1 where that is the reserved 0.
pub open spec fn allocated_id(next: u16) -> u16 {
    if next == 0 {
        1
    } else {
        next
    }
}

/// Where the counter stands after it handed out an identifier at `next`.
pub open spec fn next_after(next: u16) -> u16 {
    if allocated_id(next) == u16::MAX {
        0
    } else {
        (allocated_id(next) + 1) as u16
    }
}

/// Where the counter stands after `count` identifiers were handed out from
/// `next` on.
pub open spec fn next_after_many(next: u16, count: nat) -> u16
    decreases count,
{
    if count == 0 {
        next
    } else {
        next_after(next_after_many(next, (count - 1) as nat))
    }
}

/// Hands out packet identifiers: a 16-bit counter that goes round and leaves
/// out 0, which the protocol reserves.
#[derive(Debug, Clone, Copy, PartialEq, Eq, Structural)]
pub struct PacketIdAllocator {
    pub next: u16,
}

impl PacketIdAllocator {
    /// An allocator whose first identifier is 1.
    pub fn new() -> (a: PacketIdAllocator)
        ensures
            a.next == 1,
    {
        PacketIdAllocator { next: 1 }
    }

    /// The next packet identifier. It is never 0.
    pub fn allocate(&mut self) -> (id: u16)
        ensures
            id == allocated_id(old(self).next),
            id != 0,
            final(self).next == next_after(old(self).next),
    {
        let id: u16 = if self.next == 0 {
            1
        } else {
            self.next
        };
        self.next = if id == u16::MAX {
            0
        } else {
            id + 1
        };
        id
    }
}

/// No identifier is 0; after 65535 comes 1; after any other comes its
/// successor.
pub proof fn lemma_packet_ids_skip_zero(next: u16)
    ensures
        allocated_id(next) != 0,
        allocated_id(next) == 65535 ==> allocated_id(next_after(next)) == 1,
        allocated_id(next) != 65535 ==> allocated_id(next_after(next)) == allocated_id(next) + 1,
{
}

/// From a fresh counter on, the identifiers are 1, 2, .. 65535, 1, 2, ..:
/// the one handed out after `count` others is `count mod 65535 + 1`.
pub proof fn lemma_packet_ids_cycle(count: nat)
    ensures
        allocated_id(next_after_many(1, count)) == count % 65535 + 1,
    decreases count,
{
    if count > 0 {
        lemma_packet_ids_cycle((count - 1) as nat);
        let before = next_after_many(1, (count - 1) as nat);
        assert(allocated_id(before) == (count - 1) % 65535 + 1);
        if allocated_id(before) == 65535 {
            assert((count - 1) % 65535 == 65534);
            assert(count % 65535 == 0);
        } else {
            assert(count % 65535 == (count - 1) % 65535 + 1);
        }
    }
}

} // verus!
