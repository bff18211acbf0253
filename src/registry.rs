//! The device registry: which display sits at which USB address, and the
//! observers told of arrivals and departures.
use std::collections::BTreeMap;
use vstd::prelude::*;
use vstd::std_specs::btree::spec_btree_map_iter;
use vstd::std_specs::iter::IteratorSpec;

verus! {

broadcast use vstd::laws_cmp::group_laws_cmp, vstd::std_specs::btree::group_btree_axioms;

/// A device's place on the USB: bus number and device number.
pub type UsbDeviceAddress = (u8, u8);

/// Told of displays that arrive and leave, in the order of registration.
/// Called while the registry is held for writing: an implementation must not
/// block.
pub trait Hotplug: Send + Sync {
    fn display_arrived(&mut self, device_addr: UsbDeviceAddress);

    fn display_left(&mut self, device_addr: UsbDeviceAddress);
}

/// Maps each address to a shared handle of the display found there.
pub struct Registry<H> {
    displays: BTreeMap<UsbDeviceAddress, H>,
}

impl<H> Registry<H> {
    pub closed spec fn view(&self) -> Map<UsbDeviceAddress, H> {
        self.displays@
    }

    pub fn new() -> (r: Registry<H>)
        ensures
            r@ == Map::<UsbDeviceAddress, H>::empty(),
    {
        Registry { displays: BTreeMap::new() }
    }

    /// Records the display at `addr`, in place of any display recorded there
    /// before.
    pub fn insert(&mut self, addr: UsbDeviceAddress, display: H)
        ensures
            final(self)@ == old(self)@.insert(addr, display),
    {
        let _ = self.displays.insert(addr, display);
    }

    /// Forgets the display at `addr` and hands it back; `None`, with nothing
    /// changed, when no display is recorded there.
    pub fn remove(&mut self, addr: UsbDeviceAddress) -> (r: Option<H>)
        ensures
            final(self)@ == old(self)@.remove(addr),
            !final(self)@.contains_key(addr),
            r == (if old(self)@.contains_key(addr) {
                Some(old(self)@[addr])
            } else {
                None::<H>
            }),
    {
        self.displays.remove(&addr)
    }

    /// The display recorded at `addr`, if any.
    pub fn display_by_addr(&self, addr: &UsbDeviceAddress) -> (r: Option<&H>)
        ensures
            r == (if self@.contains_key(*addr) {
                Some(&self@[*addr])
            } else {
                None::<&H>
            }),
    {
        self.displays.get(addr)
    }

    /// The addresses whose display `is_ready` reports ready, each once. An
    /// address is listed only on a `true` answer for its own display, and
    /// left out only on a `false` one.
    pub fn display_addrs<F: Fn(&H) -> bool>(&self, is_ready: F) -> (r: Vec<UsbDeviceAddress>)
        requires
            forall|h: &H| is_ready.requires((h,)),
        ensures
            r@.no_duplicates(),
            forall|k: int|
                0 <= k < r@.len() ==> self@.contains_key(#[trigger] r@[k]) && is_ready.ensures(
                    (&self@[r@[k]],),
                    true,
                ),
            forall|a: UsbDeviceAddress|
                #[trigger] self@.contains_key(a) ==> r@.contains(a) || is_ready.ensures(
                    (&self@[a],),
                    false,
                ),
    {
        let mut out: Vec<UsbDeviceAddress> = Vec::new();
        let iter = self.displays.iter();
        let ghost entries = iter.remaining();
        // Where in `entries` each listed address was found.
        let ghost mut pos: Seq<int> = Seq::empty();
        proof {
            assert(entries == spec_btree_map_iter(&self.displays).remaining());
            assert forall|i: int, j: int|
                0 <= i < entries.len() && 0 <= j < entries.len() && i != j implies *entries[i].0
                != *entries[j].0 by {
                if *entries[i].0 == *entries[j].0 {
                    assert(self.displays@[*entries[i].0] == *entries[i].1);
                    assert(self.displays@[*entries[j].0] == *entries[j].1);
                    assert(entries[i] == entries[j]);
                }
            }
        }
        for kv in it: iter
            invariant
                forall|h: &H| is_ready.requires((h,)),
                it.seq() == entries,
                forall|i: int|
                    0 <= i < entries.len() ==> self.displays@.contains_key(*entries[i].0)
                        && self.displays@[*entries[i].0] == *entries[i].1,
                forall|i: int, j: int|
                    0 <= i < entries.len() && 0 <= j < entries.len() && i != j ==> *entries[i].0
                        != *entries[j].0,
                pos.len() == out@.len(),
                forall|k: int|
                    0 <= k < pos.len() ==> 0 <= #[trigger] pos[k] < it.index() && *entries[pos[k]].0
                        == out@[k] && is_ready.ensures((entries[pos[k]].1,), true),
                forall|k1: int, k2: int| 0 <= k1 < k2 < pos.len() ==> pos[k1] < pos[k2],
                forall|j: int|
                    0 <= j < it.index() ==> out@.contains(*#[trigger] entries[j].0)
                        || is_ready.ensures((entries[j].1,), false),
        {
            let ghost idx = it.index();
            let ready = is_ready(kv.1);
            if ready {
                let ghost before = out@;
                out.push(*kv.0);
                proof {
                    pos = pos.push(idx);
                    assert(out@[before.len() as int] == *entries[idx].0);
                    assert forall|j: int| 0 <= j < idx + 1 implies out@.contains(
                        *#[trigger] entries[j].0,
                    ) || is_ready.ensures((entries[j].1,), false) by {
                        if j < idx && before.contains(*entries[j].0) {
                            let k = choose|k: int| 0 <= k < before.len() && before[k] == *entries[j].0;
                            assert(out@[k] == before[k]);
                        }
                    }
                }
            }
        }
        proof {
            assert forall|k1: int, k2: int| 0 <= k1 < out@.len() && 0 <= k2 < out@.len() && k1 != k2
                implies out@[k1] != out@[k2] by {
                if k1 < k2 {
                    assert(pos[k1] < pos[k2]);
                } else {
                    assert(pos[k2] < pos[k1]);
                }
            }
            assert forall|k: int| 0 <= k < out@.len() implies self@.contains_key(#[trigger] out@[k])
                && is_ready.ensures((&self@[out@[k]],), true) by {
                assert(0 <= pos[k]);
            }
            assert forall|a: UsbDeviceAddress| #[trigger] self@.contains_key(a) implies out@.contains(a)
                || is_ready.ensures((&self@[a],), false) by {
                assert(entries.contains((&a, &self.displays@[a])));
                let j = choose|j: int| 0 <= j < entries.len() && entries[j] == (&a, &self.displays@[a]);
                assert(*entries[j].0 == a);
            }
        }
        out
    }
}

/// Once a display's address has been removed, looking the address up finds
/// nothing, whatever the registry held before.
pub proof fn lemma_lookup_after_remove<H>(before: Registry<H>, after: Registry<H>, addr: UsbDeviceAddress)
    requires
        after@ == before@.remove(addr),
    ensures
        !after@.contains_key(addr),
{
}

} // verus!
