//! The six functions that are looked for, and the cache of their addresses.

use vstd::prelude::*;

verus! {

/// One of the six functions whose address is looked for.
#[derive(Clone, Copy, Debug, PartialEq, Eq, Structural)]
pub enum Slot {
    Update,
    Create,
    Shutdown,
    Notify,
    Wait,
    GetInstance,
}

impl Slot {
    /// The name of the slot, as it is written in messages and in the
    /// configuration.
    pub open spec fn name_text(self) -> Seq<char> {
        match self {
            Slot::Update => "update"@,
            Slot::Create => "create"@,
            Slot::Shutdown => "shutdown"@,
            Slot::Notify => "notify"@,
            Slot::Wait => "wait"@,
            Slot::GetInstance => "getInstance"@,
        }
    }

    /// The name of the slot.
    pub fn name(&self) -> (name: &'static str)
        ensures
            name@ == self.name_text(),
    {
        match self {
            Slot::Update => "update",
            Slot::Create => "create",
            Slot::Shutdown => "shutdown",
            Slot::Notify => "notify",
            Slot::Wait => "wait",
            Slot::GetInstance => "getInstance",
        }
    }
}

/// A function that is found by a string which only it refers to.
#[derive(Clone, Copy, Debug, PartialEq, Eq, Structural)]
pub enum Anchor {
    /// The message of an update that fails on its waveform.
    Update,
    /// The message of a worker thread that does not start.
    Create,
    /// The message that opens the shutdown sequence.
    Shutdown,
}

impl Anchor {
    /// The slot that the anchor resolves.
    pub open spec fn slot_of(self) -> Slot {
        match self {
            Anchor::Update => Slot::Update,
            Anchor::Create => Slot::Create,
            Anchor::Shutdown => Slot::Shutdown,
        }
    }

    /// The label under which the backend knows the anchor string.
    pub open spec fn label_text(self) -> Seq<char> {
        match self {
            Anchor::Update => "@str.Unable_to_complete_update:_invalid_waveform__"@,
            Anchor::Create => "@str.Unable_to_start_generator_thread"@,
            Anchor::Shutdown => "@str.Shutting_down..."@,
        }
    }

    /// The slot that the anchor resolves.
    pub fn slot(&self) -> (slot: Slot)
        ensures
            slot == self.slot_of(),
    {
        match self {
            Anchor::Update => Slot::Update,
            Anchor::Create => Slot::Create,
            Anchor::Shutdown => Slot::Shutdown,
        }
    }

    /// The label under which the backend knows the anchor string.
    pub fn label(&self) -> (label: &'static str)
        ensures
            label@ == self.label_text(),
    {
        match self {
            Anchor::Update => "@str.Unable_to_complete_update:_invalid_waveform__",
            Anchor::Create => "@str.Unable_to_start_generator_thread",
            Anchor::Shutdown => "@str.Shutting_down...",
        }
    }
}

/// The address that `cache` holds for `slot`.
pub open spec fn lookup(cache: Map<Slot, u64>, slot: Slot) -> Option<u64> {
    if cache.contains_key(slot) {
        Some(cache[slot])
    } else {
        None
    }
}

/// `cache` after `addr` was offered for `slot`: a slot that holds an
/// address keeps it.
pub open spec fn stored(cache: Map<Slot, u64>, slot: Slot, addr: u64) -> Map<Slot, u64> {
    if cache.contains_key(slot) {
        cache
    } else {
        cache.insert(slot, addr)
    }
}

/// The first slot, in the order in which a session resolves them, for which
/// `cache` holds no address.
pub open spec fn first_missing(cache: Map<Slot, u64>) -> Option<Slot> {
    if !cache.contains_key(Slot::Update) {
        Some(Slot::Update)
    } else if !cache.contains_key(Slot::Create) {
        Some(Slot::Create)
    } else if !cache.contains_key(Slot::Shutdown) {
        Some(Slot::Shutdown)
    } else if !cache.contains_key(Slot::Notify) {
        Some(Slot::Notify)
    } else if !cache.contains_key(Slot::Wait) {
        Some(Slot::Wait)
    } else if !cache.contains_key(Slot::GetInstance) {
        Some(Slot::GetInstance)
    } else {
        None
    }
}

/// The addresses resolved so far: at most one for each slot, and none of
/// them is ever replaced.
pub struct AddressCache {
    update: Option<u64>,
    create: Option<u64>,
    shutdown: Option<u64>,
    notify: Option<u64>,
    wait: Option<u64>,
    get_instance: Option<u64>,
}

impl AddressCache {
    spec fn held(&self, slot: Slot) -> Option<u64> {
        match slot {
            Slot::Update => self.update,
            Slot::Create => self.create,
            Slot::Shutdown => self.shutdown,
            Slot::Notify => self.notify,
            Slot::Wait => self.wait,
            Slot::GetInstance => self.get_instance,
        }
    }

    /// A cache in which no slot is resolved.
    pub fn new() -> (cache: Self)
        ensures
            cache@ == Map::<Slot, u64>::empty(),
    {
        let cache = AddressCache {
            update: None,
            create: None,
            shutdown: None,
            notify: None,
            wait: None,
            get_instance: None,
        };
        assert(cache@ =~= Map::<Slot, u64>::empty());
        cache
    }

    /// The address of `slot`, if it is resolved.
    pub fn get(&self, slot: Slot) -> (addr: Option<u64>)
        ensures
            addr == lookup(self@, slot),
    {
        match slot {
            Slot::Update => self.update,
            Slot::Create => self.create,
            Slot::Shutdown => self.shutdown,
            Slot::Notify => self.notify,
            Slot::Wait => self.wait,
            Slot::GetInstance => self.get_instance,
        }
    }

    /// Resolves `slot` to `addr`, unless it is resolved already: the first
    /// address stays. Returns the address that the slot holds afterwards.
    pub fn store(&mut self, slot: Slot, addr: u64) -> (kept: u64)
        ensures
            final(self)@ == stored(old(self)@, slot, addr),
            Some(kept) == lookup(final(self)@, slot),
    {
        let kept: u64 = match self.get(slot) {
            Some(first) => first,
            None => addr,
        };
        match slot {
            Slot::Update => {
                self.update = Some(kept);
            },
            Slot::Create => {
                self.create = Some(kept);
            },
            Slot::Shutdown => {
                self.shutdown = Some(kept);
            },
            Slot::Notify => {
                self.notify = Some(kept);
            },
            Slot::Wait => {
                self.wait = Some(kept);
            },
            Slot::GetInstance => {
                self.get_instance = Some(kept);
            },
        }
        assert(self@ =~= stored(old(self)@, slot, addr));
        kept
    }

    /// The first slot, in the order of a session, that is not resolved.
    pub fn first_unresolved(&self) -> (slot: Option<Slot>)
        ensures
            slot == first_missing(self@),
    {
        if self.update.is_none() {
            Some(Slot::Update)
        } else if self.create.is_none() {
            Some(Slot::Create)
        } else if self.shutdown.is_none() {
            Some(Slot::Shutdown)
        } else if self.notify.is_none() {
            Some(Slot::Notify)
        } else if self.wait.is_none() {
            Some(Slot::Wait)
        } else if self.get_instance.is_none() {
            Some(Slot::GetInstance)
        } else {
            None
        }
    }
}

impl View for AddressCache {
    type V = Map<Slot, u64>;

    closed spec fn view(&self) -> Map<Slot, u64> {
        Map::new(|slot: Slot| self.held(slot) is Some, |slot: Slot| self.held(slot)->0)
    }
}

} // verus!
