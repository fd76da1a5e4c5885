//! A minimal network function: it swaps the destination and source MAC
//! addresses of each packet and counts the packets it handled.
use std::collections::HashMap;
use vstd::prelude::*;

verus! {

broadcast use vstd::std_specs::hash::group_hash_axioms;

/// The maps a network function keeps between packets: the packet counter is
/// held under key 0 of `count`.
pub struct Maps {
    pub count: HashMap<u32, u64>,
}

/// What becomes of a packet.
#[derive(Debug, PartialEq, Eq, Structural)]
pub enum Action {
    /// Pass the packet on.
    Continue,
}

/// The packet with its first six bytes and the next six swapped.
pub open spec fn swapped(p: Seq<u8>) -> Seq<u8> {
    p.subrange(6, 12) + p.subrange(0, 6) + p.subrange(12, p.len() as int)
}

/// Handles one packet: a packet of at least 12 bytes gets its two MAC
/// addresses swapped and, where the counter exists, is counted; a shorter
/// packet is left alone. Every packet is passed on.
pub fn packet(pkt: &mut Vec<u8>, maps: &mut Maps) -> (a: Action)
    requires
        old(pkt)@.len() >= 12 && old(maps).count@.contains_key(0) ==> old(maps).count@[0] < u64::MAX,
    ensures
        a == Action::Continue,
        old(pkt)@.len() >= 12 ==> final(pkt)@ == swapped(old(pkt)@),
        old(pkt)@.len() < 12 ==> final(pkt)@ == old(pkt)@,
        final(maps).count@ == if old(pkt)@.len() >= 12 && old(maps).count@.contains_key(0) {
            old(maps).count@.insert(0, (old(maps).count@[0] + 1) as u64)
        } else {
            old(maps).count@
        },
{
    if pkt.len() >= 12 {
        let mut k: usize = 0;
        while k < 6
            invariant
                k <= 6,
                pkt@.len() == old(pkt)@.len(),
                old(pkt)@.len() >= 12,
                forall|j: int|
                    0 <= j < pkt@.len() ==> #[trigger] pkt@[j] == if 0 <= j < k {
                        old(pkt)@[j + 6]
                    } else if 6 <= j < 6 + k {
                        old(pkt)@[j - 6]
                    } else {
                        old(pkt)@[j]
                    },
            decreases 6 - k,
        {
            let a = pkt[k];
            let b = pkt[k + 6];
            pkt.set(k, b);
            pkt.set(k + 6, a);
            k = k + 1;
        }
        assert(pkt@ =~= swapped(old(pkt)@));
        let current = maps.count.get(&0);
        match current {
            Some(n) => {
                let next = *n + 1;
                maps.count.insert(0, next);
            },
            None => {},
        }
    }
    Action::Continue
}

/// Swapping the addresses twice gives the packet back.
pub proof fn law_swap_twice_restores(p: Seq<u8>)
    requires
        p.len() >= 12,
    ensures
        swapped(swapped(p)) == p,
{
    assert(swapped(swapped(p)) =~= p);
}

} // verus!
