use vstd::prelude::*;
use vstd::pervasive::VecAdditionalExecFns;
use std::marker::PhantomData;

verus! {

/// Stable identity of an entity: the position of its slot in the store.
#[derive(Clone, Copy, Debug, PartialEq, Eq, Hash)]
pub struct EntityId {
    pub index: usize,
}

impl EntityId {
    pub fn index(&self) -> (r: usize)
        ensures
            r == self.index,
    {
        self.index
    }
}

/// The state of one slot of the store.
#[derive(Debug)]
pub enum Slot<T> {
    /// The entity was released; the id stays retired.
    Vacant,
    /// The value is out of its slot while an update runs on it.
    Leased,
    /// The entity and its value.
    Occupied(T),
}

/// Why an access to the store did not go through.
#[derive(Clone, Copy, Debug, PartialEq, Eq)]
pub enum EntityError {
    /// No live entity has this id.
    NotFound,
    /// The entity's value is already out of its slot for an update in progress.
    AlreadyLeased,
    /// A value was handed back to a slot that was not waiting for one.
    NotLeased,
    /// A weak handle's entity has been released.
    Released,
}

/// Owner of every entity's value, addressed by [`EntityId`].
pub struct EntityStore<T> {
    slots: Vec<Slot<T>>,
}

pub open spec fn slot_at<T>(slots: Seq<Slot<T>>, i: int) -> Slot<T> {
    if 0 <= i < slots.len() {
        slots[i]
    } else {
        Slot::Vacant
    }
}

pub open spec fn slot_alive<T>(s: Slot<T>) -> bool {
    !(s is Vacant)
}

impl<T> EntityStore<T> {
    pub closed spec fn view(&self) -> Seq<Slot<T>> {
        self.slots@
    }

    /// The slot that `id` names; an id past the end names a vacant slot.
    pub open spec fn slot(&self, id: EntityId) -> Slot<T> {
        slot_at(self@, id.index as int)
    }

    pub fn new() -> (r: Self)
        ensures
            r@ == Seq::<Slot<T>>::empty(),
    {
        EntityStore { slots: Vec::new() }
    }

    pub fn len(&self) -> (r: usize)
        ensures
            r == self@.len(),
    {
        self.slots.len()
    }

    /// Stores `value` under a fresh id.
    pub fn insert(&mut self, value: T) -> (id: EntityId)
        requires
            old(self)@.len() < usize::MAX,
        ensures
            id.index == old(self)@.len(),
            final(self)@ == old(self)@.push(Slot::Occupied(value)),
    {
        let id = EntityId { index: self.slots.len() };
        self.slots.push(Slot::Occupied(value));
        id
    }

    /// Issues a fresh id whose value is still being built: its slot starts out leased.
    pub fn reserve(&mut self) -> (id: EntityId)
        requires
            old(self)@.len() < usize::MAX,
        ensures
            id.index == old(self)@.len(),
            final(self)@ == old(self)@.push(Slot::Leased),
    {
        let id = EntityId { index: self.slots.len() };
        self.slots.push(Slot::Leased);
        id
    }

    /// Whether `id` names an entity that has not been released.
    pub fn is_alive(&self, id: EntityId) -> (r: bool)
        ensures
            r == slot_alive(self.slot(id)),
    {
        if id.index < self.slots.len() {
            match &self.slots[id.index] {
                Slot::Vacant => false,
                _ => true,
            }
        } else {
            false
        }
    }

    /// Takes the value out of its slot, leaving the slot leased until [`Self::put_back`].
    pub fn take(&mut self, id: EntityId) -> (r: Result<T, EntityError>)
        ensures
            match old(self).slot(id) {
                Slot::Vacant => r == Err::<T, EntityError>(EntityError::NotFound)
                    && final(self)@ == old(self)@,
                Slot::Leased => r == Err::<T, EntityError>(EntityError::AlreadyLeased)
                    && final(self)@ == old(self)@,
                Slot::Occupied(v) => r == Ok::<T, EntityError>(v)
                    && final(self)@ == old(self)@.update(id.index as int, Slot::Leased),
            },
    {
        if id.index >= self.slots.len() {
            return Err(EntityError::NotFound);
        }
        let mut slot = Slot::Leased;
        self.slots.set_and_swap(id.index, &mut slot);
        match slot {
            Slot::Occupied(v) => Ok(v),
            Slot::Leased => Err(EntityError::AlreadyLeased),
            Slot::Vacant => {
                self.slots.set(id.index, Slot::Vacant);
                Err(EntityError::NotFound)
            },
        }
    }

    /// Hands a value taken out by [`Self::take`] back to its slot.
    pub fn put_back(&mut self, id: EntityId, value: T) -> (r: Result<(), EntityError>)
        ensures
            match old(self).slot(id) {
                Slot::Vacant => r == Err::<(), EntityError>(EntityError::NotFound)
                    && final(self)@ == old(self)@,
                Slot::Occupied(_) => r == Err::<(), EntityError>(EntityError::NotLeased)
                    && final(self)@ == old(self)@,
                Slot::Leased => r == Ok::<(), EntityError>(())
                    && final(self)@ == old(self)@.update(id.index as int, Slot::Occupied(value)),
            },
    {
        if id.index >= self.slots.len() {
            return Err(EntityError::NotFound);
        }
        match &self.slots[id.index] {
            Slot::Vacant => Err(EntityError::NotFound),
            Slot::Occupied(_) => Err(EntityError::NotLeased),
            Slot::Leased => {
                self.slots.set(id.index, Slot::Occupied(value));
                Ok(())
            },
        }
    }

    /// Releases the entity; its id never names a live entity again.
    pub fn remove(&mut self, id: EntityId) -> (r: Option<T>)
        ensures
            old(self).slot(id) is Occupied ==> r == Some(old(self).slot(id)->Occupied_0),
            !(old(self).slot(id) is Occupied) ==> r is None,
            id.index < old(self)@.len() ==> final(self)@ == old(self)@.update(id.index as int, Slot::Vacant),
            id.index >= old(self)@.len() ==> final(self)@ == old(self)@,
    {
        if id.index >= self.slots.len() {
            return None;
        }
        let mut slot = Slot::Vacant;
        self.slots.set_and_swap(id.index, &mut slot);
        match slot {
            Slot::Occupied(v) => Some(v),
            _ => None,
        }
    }

    /// The value of a live entity that is not out for an update.
    pub fn get(&self, id: EntityId) -> (r: Option<&T>)
        ensures
            self.slot(id) is Occupied ==> r == Some(&self.slot(id)->Occupied_0),
            !(self.slot(id) is Occupied) ==> r is None,
    {
        if id.index >= self.slots.len() {
            return None;
        }
        match &self.slots[id.index] {
            Slot::Occupied(v) => Some(v),
            _ => None,
        }
    }
}

/// A typed reference to an entity. The store owns the value; handles only name it.
pub struct Handle<T> {
    pub id: EntityId,
    pub entity_type: PhantomData<T>,
}

/// A typed reference that does not keep its entity alive.
pub struct WeakHandle<T> {
    pub id: EntityId,
    pub entity_type: PhantomData<T>,
}

impl<T> Handle<T> {
    pub fn new(id: EntityId) -> (r: Self)
        ensures
            r.id == id,
    {
        Handle { id, entity_type: PhantomData }
    }

    pub fn downgrade(&self) -> (r: WeakHandle<T>)
        ensures
            r.id == self.id,
    {
        WeakHandle { id: self.id, entity_type: PhantomData }
    }
}

impl<T> Clone for Handle<T> {
    fn clone(&self) -> (r: Self)
        ensures
            r.id == self.id,
    {
        Handle { id: self.id, entity_type: PhantomData }
    }
}

impl<T> Clone for WeakHandle<T> {
    fn clone(&self) -> (r: Self)
        ensures
            r.id == self.id,
    {
        WeakHandle { id: self.id, entity_type: PhantomData }
    }
}

} // verus!
