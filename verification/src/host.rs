//! The symbol table binder: resolves the address table the host supplies
//! at load time into typed, callable capability slots.
//!
//! Binding is all-or-nothing.  If the negotiated version is below the
//! version this binder requires, [`Host::bind`] returns the required
//! version and binds nothing, so a version mismatch leaves every slot
//! unresolved.  On success the binder walks the table in the fixed order
//! of [`crate::kinds`], consuming one address per declared capability.
//!
//! The host also keeps the trace of the foreign destroy entry points this
//! library invoked: every container operation that releases a foreign
//! allocation appends the slot of the destroy entry point it went
//! through, exactly once, which is how the exactly-once destruction
//! contract of the containers is stated.

use vstd::prelude::*;

use crate::kinds::SLOT_COUNT;

verus! {

/// The version of the address-table layout this binder consumes.
pub const API_VERSION: i32 = 1;

/// A single resolved function address.
///
/// Created empty and written exactly once, at initialization; read many
/// times afterwards.  A second write, like a read of an unset slot, is a
/// programming-error fault, so both are ruled out by precondition rather
/// than reported as a recoverable error.
pub struct Slot {
    addr: Option<usize>,
}

impl Slot {
    /// Whether the slot has been written.
    pub closed spec fn is_set(&self) -> bool {
        self.addr is Some
    }

    /// The address the slot holds.
    pub closed spec fn spec_addr(&self) -> usize
        recommends
            self.is_set(),
    {
        self.addr->0
    }

    /// A fresh, unset slot.
    pub fn new() -> (s: Slot)
        ensures
            !s.is_set(),
    {
        Slot { addr: None }
    }

    /// Write the slot, once.
    pub fn set(&mut self, addr: usize)
        requires
            !old(self).is_set(),
        ensures
            final(self).is_set(),
            final(self).spec_addr() == addr,
    {
        self.addr = Some(addr);
    }

    /// Read the slot.
    pub fn get(&self) -> (a: usize)
        requires
            self.is_set(),
        ensures
            a == self.spec_addr(),
    {
        self.addr.unwrap()
    }

    /// Whether the slot has been written, at run time.
    pub fn is_bound(&self) -> (b: bool)
        ensures
            b == self.is_set(),
    {
        self.addr.is_some()
    }
}

/// The resolved capability table, together with the trace of foreign
/// destroy invocations made through it.
///
/// A `Host` value stands for the whole foreign side of the boundary: it is
/// built once, bound once, and then passed by reference to every container
/// operation, replacing process-wide mutable slots with an explicit
/// context.
pub struct Host {
    slots: Vec<Slot>,
    destroy_log: Vec<usize>,
}

impl Host {
    /// The capability slots, one per declared entry of the address table.
    pub closed spec fn caps(&self) -> Seq<Slot> {
        self.slots@
    }

    /// The slots of the foreign destroy entry points invoked through
    /// this host, in invocation order.
    pub closed spec fn destroy_trace(&self) -> Seq<usize> {
        self.destroy_log@
    }

    /// How many times a foreign destroy entry point has been invoked
    /// through this host.
    pub open spec fn destroys(&self) -> int {
        self.destroy_trace().len() as int
    }

    /// Every capability slot is resolved.
    pub open spec fn ready(&self) -> bool {
        &&& self.caps().len() == SLOT_COUNT
        &&& forall|i: int| 0 <= i < SLOT_COUNT ==> (#[trigger] self.caps()[i]).is_set()
    }

    /// No capability slot is resolved.
    pub open spec fn unbound(&self) -> bool {
        &&& self.caps().len() == SLOT_COUNT
        &&& forall|i: int| 0 <= i < SLOT_COUNT ==> !(#[trigger] self.caps()[i]).is_set()
    }

    /// A fresh host with every slot unset and no destroy invoked yet.
    pub fn new() -> (h: Host)
        ensures
            h.unbound(),
            h.destroys() == 0,
    {
        let mut slots: Vec<Slot> = Vec::new();
        let mut i: usize = 0;
        while i < SLOT_COUNT
            invariant
                i <= SLOT_COUNT,
                slots@.len() == i,
                forall|j: int| 0 <= j < i ==> !(#[trigger] slots@[j]).is_set(),
            decreases SLOT_COUNT - i,
        {
            slots.push(Slot::new());
            i = i + 1;
        }
        Host { slots, destroy_log: Vec::new() }
    }

    /// Resolve the address table, in the fixed, versioned order.
    ///
    /// If the caller's version is below [`API_VERSION`], nothing is bound
    /// and the required version is returned, so the binder stays in a
    /// clean, all-unset state.  On success every slot is written exactly
    /// once, the slot at position `i` receiving the address at position
    /// `i` of the table, and `0` is returned.
    pub fn bind(&mut self, table: &[usize], version: i32) -> (r: i32)
        requires
            old(self).unbound(),
            version >= API_VERSION ==> table@.len() >= SLOT_COUNT,
        ensures
            version < API_VERSION ==> r == API_VERSION && *final(self) == *old(self),
            version >= API_VERSION ==> {
                &&& r == 0
                &&& final(self).ready()
                &&& forall|i: int|
                    0 <= i < SLOT_COUNT ==> (#[trigger] final(self).caps()[i]).spec_addr()
                        == table@[i]
            },
            final(self).destroy_trace() == old(self).destroy_trace(),
    {
        if version < API_VERSION {
            return API_VERSION;
        }
        let mut i: usize = 0;
        while i < SLOT_COUNT
            invariant
                i <= SLOT_COUNT,
                table@.len() >= SLOT_COUNT,
                self.slots@.len() == SLOT_COUNT,
                self.destroy_log@ == old(self).destroy_log@,
                forall|j: int|
                    i <= j < SLOT_COUNT ==> !(#[trigger] self.slots@[j]).is_set(),
                forall|j: int| 0 <= j < i ==> (#[trigger] self.slots@[j]).is_set(),
                forall|j: int|
                    0 <= j < i ==> (#[trigger] self.slots@[j]).spec_addr() == table@[j],
            decreases SLOT_COUNT - i,
        {
            let addr: usize = table[i];
            let mut slot = self.slots.remove(i);
            slot.set(addr);
            self.slots.insert(i, slot);
            i = i + 1;
        }
        0
    }

    /// Whether every capability slot is resolved, at run time.
    pub fn is_ready(&self) -> (b: bool)
        ensures
            b == self.ready(),
    {
        if self.slots.len() != SLOT_COUNT {
            return false;
        }
        let mut i: usize = 0;
        while i < SLOT_COUNT
            invariant
                i <= SLOT_COUNT,
                self.slots@.len() == SLOT_COUNT,
                forall|j: int| 0 <= j < i ==> (#[trigger] self.slots@[j]).is_set(),
            decreases SLOT_COUNT - i,
        {
            if !self.slots[i].is_bound() {
                return false;
            }
            i = i + 1;
        }
        true
    }

    /// The address a resolved capability slot holds.
    pub fn slot_addr(&self, i: usize) -> (a: usize)
        requires
            self.ready(),
            i < SLOT_COUNT,
        ensures
            a == self.caps()[i as int].spec_addr(),
    {
        self.slots[i].get()
    }

    /// How many times a foreign destroy entry point has been invoked, at
    /// run time.
    pub fn destroy_count(&self) -> (n: usize)
        ensures
            n == self.destroys(),
    {
        self.destroy_log.len()
    }

    /// The slot of one recorded destroy invocation, at run time.
    pub fn destroyed_at(&self, i: usize) -> (s: usize)
        requires
            i < self.destroy_trace().len(),
        ensures
            s == self.destroy_trace()[i as int],
    {
        self.destroy_log[i]
    }

    /// Record one invocation of the foreign destroy entry point at the
    /// given slot.
    pub(crate) fn record_destroy(&mut self, slot: usize)
        ensures
            final(self).destroy_trace() == old(self).destroy_trace().push(slot),
            final(self).caps() == old(self).caps(),
    {
        self.destroy_log.push(slot);
    }
}

} // verus!
