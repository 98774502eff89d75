use vstd::prelude::*;
use crate::machine::Machine;
use slotmap::{DefaultKey, KeyData, SlotMap};

verus! {

/// A stable handle of a machine in the registry: the slot map key in its 64-bit form.
#[derive(Debug, Clone, Copy, PartialEq, Eq, Structural)]
pub struct MachineKey {
    pub bits: u64,
}

/// Stable-identity storage of machines, backed by a slot map. Verus cannot take the slot
/// map type itself (its key parameter is bound by a trait of the slot map crate), so it is
/// held here, out of Verus's sight, and described by `slots_of` and `slot_count_of`.
#[verifier::external_body]
pub struct MachineArena {
    slots: SlotMap<DefaultKey, Machine>,
}

/// The machines the registry holds, by key.
pub uninterp spec fn slots_of(m: MachineArena) -> Map<u64, Machine>;

/// How many slots the registry's slot map has handed out, live or freed.
pub uninterp spec fn slot_count_of(m: MachineArena) -> nat;

/// Relies on slotmap::SlotMap::new: an empty map with no slots.
#[verifier::external_body]
pub fn arena_new() -> (r: MachineArena)
    ensures
        slots_of(r).dom() == Set::<u64>::empty(),
        slot_count_of(r) == 0,
{
    MachineArena { slots: SlotMap::new() }
}

/// Relies on slotmap::SlotMap::insert: the value is stored under a key that no live value
/// holds, and at most one slot is added. It panics only when the map holds `u32::MAX` slots,
/// counting the sentinel slot that `SlotMap::new` makes.
#[verifier::external_body]
pub fn arena_insert(m: &mut MachineArena, v: Machine) -> (r: MachineKey)
    requires
        slot_count_of(*old(m)) < 0xffff_fffe,
    ensures
        !slots_of(*old(m)).contains_key(r.bits),
        slots_of(*final(m)) == slots_of(*old(m)).insert(r.bits, v),
        slot_count_of(*final(m)) <= slot_count_of(*old(m)) + 1,
{
    MachineKey { bits: slotmap::Key::data(&m.slots.insert(v)).as_ffi() }
}

/// Relies on slotmap's `Index`: the value stored under a live key.
#[verifier::external_body]
pub fn arena_get(m: &MachineArena, k: MachineKey) -> (r: &Machine)
    requires
        slots_of(*m).contains_key(k.bits),
    ensures
        *r == slots_of(*m)[k.bits],
{
    &m.slots[DefaultKey::from(KeyData::from_ffi(k.bits))]
}

/// Relies on slotmap's `IndexMut`: the value stored under a live key, to change in place.
#[verifier::external_body]
pub fn arena_get_mut(m: &mut MachineArena, k: MachineKey) -> (r: &mut Machine)
    requires
        slots_of(*old(m)).contains_key(k.bits),
    ensures
        *r == slots_of(*old(m))[k.bits],
        slots_of(*final(m)) == slots_of(*old(m)).insert(k.bits, *final(r)),
        slot_count_of(*final(m)) == slot_count_of(*old(m)),
{
    &mut m.slots[DefaultKey::from(KeyData::from_ffi(k.bits))]
}

} // verus!
