//! The table of open controllers, keyed by instance id.
use vstd::prelude::*;
use std::collections::HashMap;

verus! {

broadcast use vstd::std_specs::hash::group_hash_axioms;

/// The open controllers, each owned by the table under the instance id that
/// opening it produced. Dropping an entry releases its handle.
pub struct DeviceRegistry<H> {
    gamepads: HashMap<u32, H>,
}

impl<H> View for DeviceRegistry<H> {
    type V = Map<u32, H>;

    closed spec fn view(&self) -> Map<u32, H> {
        self.gamepads@
    }
}

impl<H> DeviceRegistry<H> {
    /// A table with no devices.
    pub fn new() -> (r: Self)
        ensures
            r@ == Map::<u32, H>::empty(),
    {
        DeviceRegistry { gamepads: HashMap::new() }
    }

    /// Stores `handle` under `id`, replacing any handle held there before.
    pub fn insert(&mut self, id: u32, handle: H)
        ensures
            final(self)@ == old(self)@.insert(id, handle),
    {
        self.gamepads.insert(id, handle);
    }

    /// Takes the handle stored under `id` out of the table, if there is one.
    pub fn remove(&mut self, id: u32) -> (r: Option<H>)
        ensures
            final(self)@ == old(self)@.remove(id),
            r == (if old(self)@.contains_key(id) {
                Some(old(self)@[id])
            } else {
                None::<H>
            }),
    {
        self.gamepads.remove(&id)
    }

    /// Whether a device is stored under `id`.
    pub fn contains(&self, id: u32) -> (r: bool)
        ensures
            r == self@.contains_key(id),
    {
        self.gamepads.contains_key(&id)
    }

    /// The handle stored under `id`, if there is one.
    pub fn get(&self, id: u32) -> (r: Option<&H>)
        ensures
            r == (if self@.contains_key(id) {
                Some(&self@[id])
            } else {
                None::<&H>
            }),
    {
        self.gamepads.get(&id)
    }

    /// The number of open devices.
    pub fn len(&self) -> (r: usize)
        ensures
            r == self@.len(),
    {
        self.gamepads.len()
    }
}

} // verus!
