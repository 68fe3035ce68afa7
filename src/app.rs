use vstd::prelude::*;
use vstd::pervasive::VecAdditionalExecFns;
use std::collections::VecDeque;
use crate::entity::{EntityError, EntityId, EntityStore, Handle, Slot, WeakHandle, slot_at, slot_alive};

verus! {

/// Identity of a window slot.
#[derive(Clone, Copy, Debug, PartialEq, Eq, Hash)]
pub struct WindowId {
    pub index: usize,
}

/// Identity of a registered observer; the caller keeps the callback it stands for.
#[derive(Clone, Copy, Debug, PartialEq, Eq, Hash)]
pub struct ObserverId {
    pub value: u64,
}

/// A deferred action, applied once the outermost update has returned.
#[derive(Clone, Copy, Debug, PartialEq, Eq)]
pub enum Effect {
    /// The observers of this entity are to run.
    Notify(EntityId),
}

/// The core's part of a window: its root view and whether it needs drawing.
#[derive(Clone, Copy, Debug, PartialEq, Eq)]
pub struct Window {
    pub id: WindowId,
    pub root_view: Option<EntityId>,
    pub dirty: bool,
}

/// The abstract state of an application context.
pub struct AppState<T> {
    pub entities: Seq<Slot<T>>,
    pub windows: Seq<Slot<Window>>,
    pub pending_updates: nat,
    pub effects: Seq<Effect>,
    pub observers: Seq<Option<Seq<ObserverId>>>,
    pub next_observer: nat,
}

/// Entities, windows, the update counter, the effect queue and the observer table.
pub struct AppContext<T> {
    entities: EntityStore<T>,
    windows: EntityStore<Window>,
    pending_updates: usize,
    pending_effects: VecDeque<Effect>,
    observers: Vec<Option<Vec<ObserverId>>>,
    next_observer: u64,
}

pub open spec fn list_view(o: Option<Vec<ObserverId>>) -> Option<Seq<ObserverId>> {
    match o {
        Some(v) => Some(v@),
        None => None,
    }
}

fn store_key(id: WindowId) -> (r: EntityId)
    ensures
        r.index == id.index,
{
    EntityId { index: id.index }
}

/// Updates `st` by putting `v` back into entity slot `i` and queueing its notification.
pub open spec fn settle_entity<T>(st: AppState<T>, i: int, v: T) -> AppState<T> {
    AppState {
        entities: st.entities.update(i, Slot::Occupied(v)),
        effects: st.effects.push(Effect::Notify(EntityId { index: i as usize })),
        pending_updates: (st.pending_updates - 1) as nat,
        ..st
    }
}

/// Updates `st` by leasing entity slot `i` to an update.
pub open spec fn lease_entity<T>(st: AppState<T>, i: int) -> AppState<T> {
    AppState {
        entities: st.entities.update(i, Slot::Leased),
        pending_updates: st.pending_updates + 1,
        ..st
    }
}

impl<T> AppContext<T> {
    pub closed spec fn view(&self) -> AppState<T> {
        AppState {
            entities: self.entities@,
            windows: self.windows@,
            pending_updates: self.pending_updates as nat,
            effects: self.pending_effects@,
            observers: self.observers@.map_values(|o: Option<Vec<ObserverId>>| list_view(o)),
            next_observer: self.next_observer as nat,
        }
    }

    /// The observer table has one row per entity slot.
    pub open spec fn wf(&self) -> bool {
        self@.observers.len() == self@.entities.len()
    }

    pub fn new() -> (r: Self)
        ensures
            r.wf(),
            r@.entities == Seq::<Slot<T>>::empty(),
            r@.windows == Seq::<Slot<Window>>::empty(),
            r@.pending_updates == 0,
            r@.effects == Seq::<Effect>::empty(),
            r@.observers == Seq::<Option<Seq<ObserverId>>>::empty(),
            r@.next_observer == 0,
    {
        let r = AppContext {
            entities: EntityStore::new(),
            windows: EntityStore::new(),
            pending_updates: 0,
            pending_effects: VecDeque::new(),
            observers: Vec::new(),
            next_observer: 0,
        };
        assert(r@.observers =~= Seq::<Option<Seq<ObserverId>>>::empty());
        r
    }

    /// How many updates are open; effects wait until this is back to zero.
    pub fn pending_updates(&self) -> (r: usize)
        ensures
            r == self@.pending_updates,
    {
        self.pending_updates
    }

    /// How many entity slots have been issued.
    pub fn entity_count(&self) -> (r: usize)
        ensures
            r == self@.entities.len(),
    {
        self.entities.len()
    }

    /// How many window slots have been issued.
    pub fn window_count(&self) -> (r: usize)
        ensures
            r == self@.windows.len(),
    {
        self.windows.len()
    }

    /// Whether another observer id can be issued.
    pub fn can_observe(&self) -> (r: bool)
        ensures
            r == (self@.next_observer < u64::MAX),
    {
        self.next_observer < u64::MAX
    }

    /// How many effects wait in the queue.
    pub fn pending_effect_count(&self) -> (r: usize)
        ensures
            r == self@.effects.len(),
    {
        self.pending_effects.len()
    }

    /// The value of an entity that is not out for an update.
    pub fn read_entity(&self, id: EntityId) -> (r: Option<&T>)
        ensures
            slot_at(self@.entities, id.index as int) is Occupied
                ==> r == Some(&slot_at(self@.entities, id.index as int)->Occupied_0),
            !(slot_at(self@.entities, id.index as int) is Occupied) ==> r is None,
    {
        self.entities.get(id)
    }

    /// Creates an entity holding `value`, with no observers.
    pub fn entity(&mut self, value: T) -> (h: Handle<T>)
        requires
            old(self).wf(),
            old(self)@.entities.len() < usize::MAX,
        ensures
            final(self).wf(),
            h.id.index == old(self)@.entities.len(),
            final(self)@ == (AppState {
                entities: old(self)@.entities.push(Slot::Occupied(value)),
                observers: old(self)@.observers.push(None),
                ..old(self)@
            }),
    {
        let id = self.entities.insert(value);
        self.observers.push(None);
        assert(self@.observers =~= old(self)@.observers.push(None));
        Handle::new(id)
    }

    /// Issues the id of an entity whose value is still being built, so that the builder
    /// can refer to it; the slot stays leased until [`Self::install_entity`].
    pub fn reserve_entity(&mut self) -> (h: Handle<T>)
        requires
            old(self).wf(),
            old(self)@.entities.len() < usize::MAX,
        ensures
            final(self).wf(),
            h.id.index == old(self)@.entities.len(),
            final(self)@ == (AppState {
                entities: old(self)@.entities.push(Slot::Leased),
                observers: old(self)@.observers.push(None),
                ..old(self)@
            }),
    {
        let id = self.entities.reserve();
        self.observers.push(None);
        assert(self@.observers =~= old(self)@.observers.push(None));
        Handle::new(id)
    }

    /// Stores the built value of a reserved entity.
    pub fn install_entity(&mut self, id: EntityId, value: T) -> (r: Result<(), EntityError>)
        ensures
            match slot_at(old(self)@.entities, id.index as int) {
                Slot::Vacant => r == Err::<(), EntityError>(EntityError::NotFound)
                    && final(self)@ == old(self)@,
                Slot::Occupied(_) => r == Err::<(), EntityError>(EntityError::NotLeased)
                    && final(self)@ == old(self)@,
                Slot::Leased => r == Ok::<(), EntityError>(())
                    && final(self)@ == (AppState {
                        entities: old(self)@.entities.update(id.index as int, Slot::Occupied(value)),
                        ..old(self)@
                    }),
            },
    {
        self.entities.put_back(id, value)
    }

    /// Releases entity `id` and its observers; weak handles to it no longer upgrade.
    pub fn release_entity(&mut self, id: EntityId) -> (r: Option<T>)
        requires
            old(self).wf(),
        ensures
            final(self).wf(),
            slot_at(old(self)@.entities, id.index as int) is Occupied
                ==> r == Some(slot_at(old(self)@.entities, id.index as int)->Occupied_0),
            !(slot_at(old(self)@.entities, id.index as int) is Occupied) ==> r is None,
            id.index < old(self)@.entities.len() ==> final(self)@ == (AppState {
                entities: old(self)@.entities.update(id.index as int, Slot::Vacant),
                observers: old(self)@.observers.update(id.index as int, None),
                ..old(self)@
            }),
            id.index >= old(self)@.entities.len() ==> final(self)@ == old(self)@,
    {
        let r = self.entities.remove(id);
        if id.index < self.observers.len() {
            self.observers.set(id.index, None);
            assert(self@.observers =~= old(self)@.observers.update(id.index as int, None));
        }
        r
    }

    /// Opens an update of entity `id`: takes its value out of its slot and counts the update.
    pub fn begin_update(&mut self, id: EntityId) -> (r: Result<T, EntityError>)
        requires
            old(self)@.pending_updates < usize::MAX,
        ensures
            match slot_at(old(self)@.entities, id.index as int) {
                Slot::Vacant => r == Err::<T, EntityError>(EntityError::NotFound)
                    && final(self)@ == old(self)@,
                Slot::Leased => r == Err::<T, EntityError>(EntityError::AlreadyLeased)
                    && final(self)@ == old(self)@,
                Slot::Occupied(v) => r == Ok::<T, EntityError>(v)
                    && final(self)@ == lease_entity(old(self)@, id.index as int),
            },
    {
        let r = self.entities.take(id);
        if r.is_ok() {
            self.pending_updates = self.pending_updates + 1;
        }
        r
    }

    /// Closes an update of entity `id`: puts `value` back, queues its notification and
    /// uncounts the update.
    pub fn end_update(&mut self, id: EntityId, value: T) -> (r: Result<(), EntityError>)
        requires
            old(self)@.pending_updates > 0,
        ensures
            match slot_at(old(self)@.entities, id.index as int) {
                Slot::Vacant => r == Err::<(), EntityError>(EntityError::NotFound)
                    && final(self)@ == old(self)@,
                Slot::Occupied(_) => r == Err::<(), EntityError>(EntityError::NotLeased)
                    && final(self)@ == old(self)@,
                Slot::Leased => r == Ok::<(), EntityError>(())
                    && final(self)@ == settle_entity(old(self)@, id.index as int, value),
            },
    {
        let r = self.entities.put_back(id, value);
        if r.is_ok() {
            self.pending_effects.push_back(Effect::Notify(id));
            self.pending_updates = self.pending_updates - 1;
        }
        r
    }

    /// Runs `f` on the value of entity `id` as one update: the value is out of its slot
    /// while `f` runs, and comes back as `f` returns it, with a notification queued.
    pub fn update_entity<R, F: FnOnce(T) -> (T, R)>(&mut self, id: EntityId, f: F) -> (r: Result<R, EntityError>)
        requires
            old(self)@.pending_updates < usize::MAX,
            forall|v: T| f.requires((v,)),
        ensures
            match slot_at(old(self)@.entities, id.index as int) {
                Slot::Vacant => r == Err::<R, EntityError>(EntityError::NotFound)
                    && final(self)@ == old(self)@,
                Slot::Leased => r == Err::<R, EntityError>(EntityError::AlreadyLeased)
                    && final(self)@ == old(self)@,
                Slot::Occupied(v) => r is Ok && exists|nv: T|
                    #![trigger settle_entity(lease_entity(old(self)@, id.index as int), id.index as int, nv)]
                    f.ensures((v,), (nv, r->Ok_0))
                    && final(self)@ == settle_entity(lease_entity(old(self)@, id.index as int), id.index as int, nv),
            },
    {
        let value = match self.begin_update(id) {
            Ok(v) => v,
            Err(e) => return Err(e),
        };
        let (nv, out) = f(value);
        let done = self.end_update(id, nv);
        assert(done is Ok);
        Ok(out)
    }
}

/// The observers of `hs` whose entry in `keep` is true, in order, among the first `n`.
pub open spec fn kept<A>(hs: Seq<A>, keep: Seq<bool>, n: int) -> Seq<A>
    decreases n,
{
    if n <= 0 {
        Seq::empty()
    } else if keep[n - 1] {
        kept(hs, keep, n - 1).push(hs[n - 1])
    } else {
        kept(hs, keep, n - 1)
    }
}

/// The list an entity's row holds after a notification: the survivors of `hs`, then
/// whatever was registered while it ran.
pub open spec fn merged_row(hs: Seq<ObserverId>, keep: Seq<bool>, added: Option<Seq<ObserverId>>) -> Seq<ObserverId> {
    match added {
        Some(a) => kept(hs, keep, hs.len() as int) + a,
        None => kept(hs, keep, hs.len() as int),
    }
}

pub open spec fn row_of(rows: Seq<Option<Seq<ObserverId>>>, i: int) -> Seq<ObserverId> {
    match rows[i] {
        Some(l) => l,
        None => Seq::empty(),
    }
}

/// The state after a new observer is registered on entity slot `i`.
pub open spec fn observed<T>(st: AppState<T>, i: int) -> AppState<T> {
    AppState {
        observers: st.observers.update(i, Some(row_of(st.observers, i).push(ObserverId { value: st.next_observer as u64 }))),
        next_observer: st.next_observer + 1,
        ..st
    }
}

/// The state after the observer list of entity slot `i` is taken out for a notification.
pub open spec fn detached<T>(st: AppState<T>, i: int) -> AppState<T> {
    AppState { observers: st.observers.update(i, None), ..st }
}

/// The state after a notification of entity slot `i` over `hs` ends with answers `keep`.
pub open spec fn reattached<T>(st: AppState<T>, i: int, hs: Seq<ObserverId>, keep: Seq<bool>) -> AppState<T> {
    AppState { observers: st.observers.update(i, Some(merged_row(hs, keep, st.observers[i]))), ..st }
}

impl<T> AppContext<T> {
    /// Registers a new observer on entity `id`, after those already there.
    pub fn observe(&mut self, id: EntityId) -> (r: Result<ObserverId, EntityError>)
        requires
            old(self).wf(),
            old(self)@.next_observer < u64::MAX,
        ensures
            final(self).wf(),
            slot_alive(slot_at(old(self)@.entities, id.index as int)) ==> r == Ok::<ObserverId, EntityError>(
                ObserverId { value: old(self)@.next_observer as u64 },
            ) && final(self)@ == observed(old(self)@, id.index as int),
            !slot_alive(slot_at(old(self)@.entities, id.index as int)) ==> r == Err::<ObserverId, EntityError>(EntityError::NotFound)
                && final(self)@ == old(self)@,
    {
        if !self.entities.is_alive(id) {
            return Err(EntityError::NotFound);
        }
        let o = ObserverId { value: self.next_observer };
        let mut row: Option<Vec<ObserverId>> = None;
        self.observers.set_and_swap(id.index, &mut row);
        let mut list = match row {
            Some(l) => l,
            None => Vec::new(),
        };
        list.push(o);
        self.observers.set(id.index, Some(list));
        self.next_observer = self.next_observer + 1;
        assert(self@.observers =~= old(self)@.observers.update(
            id.index as int,
            Some(row_of(old(self)@.observers, id.index as int).push(o)),
        ));
        Ok(o)
    }

    /// Starts notifying entity `id`: takes its observer list out of the table, so that
    /// observers registered from now on land in a fresh row.
    pub fn begin_notify(&mut self, id: EntityId) -> (r: Option<Vec<ObserverId>>)
        requires
            old(self).wf(),
        ensures
            final(self).wf(),
            id.index < old(self)@.observers.len() && old(self)@.observers[id.index as int] is Some ==> r is Some
                && r->0@ == old(self)@.observers[id.index as int]->0
                && final(self)@ == detached(old(self)@, id.index as int),
            !(id.index < old(self)@.observers.len() && old(self)@.observers[id.index as int] is Some) ==> r is None
                && final(self)@ == old(self)@,
    {
        if id.index >= self.observers.len() {
            return None;
        }
        let mut row: Option<Vec<ObserverId>> = None;
        self.observers.set_and_swap(id.index, &mut row);
        assert(self@.observers =~= old(self)@.observers.update(id.index as int, None));
        if row.is_none() {
            assert(self@.observers =~= old(self)@.observers);
        }
        row
    }

    /// Ends notifying entity `id`: keeps the observers of `handlers` whose answer in `keep`
    /// is true, in order, puts after them those registered meanwhile, and stores the list.
    pub fn finish_notify(&mut self, id: EntityId, handlers: Vec<ObserverId>, keep: &Vec<bool>)
        requires
            old(self).wf(),
            keep@.len() == handlers@.len(),
        ensures
            final(self).wf(),
            id.index < old(self)@.observers.len() ==> final(self)@ == reattached(old(self)@, id.index as int, handlers@, keep@),
            id.index >= old(self)@.observers.len() ==> final(self)@ == old(self)@,
    {
        if id.index >= self.observers.len() {
            return;
        }
        let mut survivors: Vec<ObserverId> = Vec::new();
        let mut i: usize = 0;
        while i < handlers.len()
            invariant
                i <= handlers@.len(),
                keep@.len() == handlers@.len(),
                survivors@ == kept(handlers@, keep@, i as int),
            decreases handlers@.len() - i,
        {
            if keep[i] {
                survivors.push(handlers[i]);
            }
            i = i + 1;
        }
        let mut row: Option<Vec<ObserverId>> = None;
        self.observers.set_and_swap(id.index, &mut row);
        match row {
            Some(added) => {
                let mut added = added;
                survivors.append(&mut added);
            },
            None => {},
        }
        self.observers.set(id.index, Some(survivors));
        assert(self@.observers =~= old(self)@.observers.update(
            id.index as int,
            Some(merged_row(handlers@, keep@, old(self)@.observers[id.index as int])),
        ));
    }

    /// Takes the next effect to apply, oldest first; none while an update is open.
    pub fn pop_effect(&mut self) -> (r: Option<Effect>)
        ensures
            old(self)@.pending_updates == 0 && old(self)@.effects.len() > 0 ==> r == Some(old(self)@.effects[0])
                && final(self)@ == (AppState { effects: old(self)@.effects.drop_first(), ..old(self)@ }),
            !(old(self)@.pending_updates == 0 && old(self)@.effects.len() > 0) ==> r is None
                && final(self)@ == old(self)@,
    {
        if self.pending_updates != 0 {
            return None;
        }
        self.pending_effects.pop_front()
    }
}

impl<T> Handle<T> {
    /// Updates the entity behind this handle through `cx`; see [`AppContext::update_entity`].
    pub fn update<R, F: FnOnce(T) -> (T, R)>(&self, cx: &mut AppContext<T>, f: F) -> (r: Result<R, EntityError>)
        requires
            old(cx)@.pending_updates < usize::MAX,
            forall|v: T| f.requires((v,)),
        ensures
            match slot_at(old(cx)@.entities, self.id.index as int) {
                Slot::Vacant => r == Err::<R, EntityError>(EntityError::NotFound)
                    && final(cx)@ == old(cx)@,
                Slot::Leased => r == Err::<R, EntityError>(EntityError::AlreadyLeased)
                    && final(cx)@ == old(cx)@,
                Slot::Occupied(v) => r is Ok && exists|nv: T|
                    #![trigger settle_entity(lease_entity(old(cx)@, self.id.index as int), self.id.index as int, nv)]
                    f.ensures((v,), (nv, r->Ok_0))
                    && final(cx)@ == settle_entity(lease_entity(old(cx)@, self.id.index as int), self.id.index as int, nv),
            },
    {
        cx.update_entity(self.id, f)
    }
}

impl<T> WeakHandle<T> {
    /// A strong handle to the entity, while it has not been released.
    pub fn upgrade(&self, cx: &AppContext<T>) -> (r: Option<Handle<T>>)
        ensures
            slot_alive(slot_at(cx@.entities, self.id.index as int)) ==> r is Some && r->0.id == self.id,
            !slot_alive(slot_at(cx@.entities, self.id.index as int)) ==> r is None,
    {
        if cx.entities.is_alive(self.id) {
            Some(Handle::new(self.id))
        } else {
            None
        }
    }

    /// Updates the entity if it still exists; a released entity gives `Released`.
    pub fn update<R, F: FnOnce(T) -> (T, R)>(&self, cx: &mut AppContext<T>, f: F) -> (r: Result<R, EntityError>)
        requires
            old(cx)@.pending_updates < usize::MAX,
            forall|v: T| f.requires((v,)),
        ensures
            match slot_at(old(cx)@.entities, self.id.index as int) {
                Slot::Vacant => r == Err::<R, EntityError>(EntityError::Released)
                    && final(cx)@ == old(cx)@,
                Slot::Leased => r == Err::<R, EntityError>(EntityError::AlreadyLeased)
                    && final(cx)@ == old(cx)@,
                Slot::Occupied(v) => r is Ok && exists|nv: T|
                    #![trigger settle_entity(lease_entity(old(cx)@, self.id.index as int), self.id.index as int, nv)]
                    f.ensures((v,), (nv, r->Ok_0))
                    && final(cx)@ == settle_entity(lease_entity(old(cx)@, self.id.index as int), self.id.index as int, nv),
            },
    {
        match self.upgrade(cx) {
            Some(h) => h.update(cx, f),
            None => Err(EntityError::Released),
        }
    }
}

/// `w` marked as needing drawing.
pub open spec fn marked_dirty(w: Window) -> Window {
    Window { dirty: true, ..w }
}

pub open spec fn window_slot(st: Seq<Slot<Window>>, id: WindowId) -> Slot<Window> {
    slot_at(st, id.index as int)
}

/// Whether slot `i` holds a window that needs drawing.
pub open spec fn is_dirty_at(ws: Seq<Slot<Window>>, i: int) -> bool {
    0 <= i < ws.len() && ws[i] is Occupied && ws[i]->Occupied_0.dirty
}

/// `ids` lists, in increasing order, exactly the windows of `ws` that need drawing.
pub open spec fn lists_dirty(ws: Seq<Slot<Window>>, ids: Seq<WindowId>) -> bool {
    &&& forall|a: int, b: int| 0 <= a < b < ids.len() ==> ids[a].index < ids[b].index
    &&& forall|k: int| 0 <= k < ids.len() ==> is_dirty_at(ws, #[trigger] ids[k].index as int)
    &&& forall|i: int| #[trigger] is_dirty_at(ws, i) ==> exists|k: int| 0 <= k < ids.len() && ids[k].index == i
}

/// The windows after a redraw pass over `ids`: each of them that is present is clean.
pub open spec fn cleaned(ws: Seq<Slot<Window>>, ids: Seq<WindowId>) -> Seq<Slot<Window>> {
    Seq::new(ws.len(), |i: int|
        if ws[i] is Occupied && exists|k: int| 0 <= k < ids.len() && ids[k].index == i {
            Slot::Occupied(Window { dirty: false, ..ws[i]->Occupied_0 })
        } else {
            ws[i]
        }
    )
}

impl<T> AppContext<T> {
    /// Reserves a window slot; the window is installed once the platform has built it.
    pub fn reserve_window(&mut self) -> (id: WindowId)
        requires
            old(self)@.windows.len() < usize::MAX,
        ensures
            id.index == old(self)@.windows.len(),
            final(self)@ == (AppState { windows: old(self)@.windows.push(Slot::Leased), ..old(self)@ }),
    {
        let k = self.windows.reserve();
        WindowId { index: k.index }
    }

    /// Fills a reserved window slot. A new window needs drawing.
    pub fn install_window(&mut self, id: WindowId, root_view: Option<EntityId>) -> (r: Result<(), EntityError>)
        ensures
            window_slot(old(self)@.windows, id) is Leased ==> r is Ok && final(self)@ == (AppState {
                windows: old(self)@.windows.update(id.index as int, Slot::Occupied(Window { id, root_view, dirty: true })),
                ..old(self)@
            }),
            window_slot(old(self)@.windows, id) is Vacant ==> r == Err::<(), EntityError>(EntityError::NotFound)
                && final(self)@ == old(self)@,
            window_slot(old(self)@.windows, id) is Occupied ==> r == Err::<(), EntityError>(EntityError::NotLeased)
                && final(self)@ == old(self)@,
    {
        self.windows.put_back(store_key(id), Window { id, root_view, dirty: true })
    }

    /// Removes a window; its id never resolves again.
    pub fn remove_window(&mut self, id: WindowId) -> (r: Option<Window>)
        ensures
            window_slot(old(self)@.windows, id) is Occupied ==> r == Some(window_slot(old(self)@.windows, id)->Occupied_0),
            !(window_slot(old(self)@.windows, id) is Occupied) ==> r is None,
            id.index < old(self)@.windows.len() ==> final(self)@ == (AppState {
                windows: old(self)@.windows.update(id.index as int, Slot::Vacant),
                ..old(self)@
            }),
            id.index >= old(self)@.windows.len() ==> final(self)@ == old(self)@,
    {
        self.windows.remove(store_key(id))
    }

    /// A present window that is not out for an update.
    pub fn window(&self, id: WindowId) -> (r: Option<&Window>)
        ensures
            window_slot(self@.windows, id) is Occupied ==> r == Some(&window_slot(self@.windows, id)->Occupied_0),
            !(window_slot(self@.windows, id) is Occupied) ==> r is None,
    {
        self.windows.get(store_key(id))
    }

    /// Opens an update of window `id`: takes it out of its slot and counts the update.
    /// A window that was removed, or never installed, is not found.
    pub fn begin_window_update(&mut self, id: WindowId) -> (r: Result<Window, EntityError>)
        requires
            old(self)@.pending_updates < usize::MAX,
        ensures
            window_slot(old(self)@.windows, id) is Occupied ==> r == Ok::<Window, EntityError>(window_slot(old(self)@.windows, id)->Occupied_0)
                && final(self)@ == (AppState {
                    windows: old(self)@.windows.update(id.index as int, Slot::Leased),
                    pending_updates: old(self)@.pending_updates + 1,
                    ..old(self)@
                }),
            !(window_slot(old(self)@.windows, id) is Occupied) ==> r == Err::<Window, EntityError>(EntityError::NotFound)
                && final(self)@ == old(self)@,
    {
        match self.windows.take(store_key(id)) {
            Ok(w) => {
                self.pending_updates = self.pending_updates + 1;
                Ok(w)
            },
            Err(_) => Err(EntityError::NotFound),
        }
    }

    /// Closes an update of window `id`: puts `window` back marked as needing drawing and
    /// uncounts the update.
    pub fn end_window_update(&mut self, id: WindowId, window: Window) -> (r: Result<(), EntityError>)
        requires
            old(self)@.pending_updates > 0,
        ensures
            window_slot(old(self)@.windows, id) is Leased ==> r is Ok && final(self)@ == (AppState {
                windows: old(self)@.windows.update(id.index as int, Slot::Occupied(Window { dirty: true, ..window })),
                pending_updates: (old(self)@.pending_updates - 1) as nat,
                ..old(self)@
            }),
            !(window_slot(old(self)@.windows, id) is Leased) ==> r == Err::<(), EntityError>(EntityError::NotFound)
                && final(self)@ == old(self)@,
    {
        match self.windows.put_back(store_key(id), Window { dirty: true, ..window }) {
            Ok(()) => {
                self.pending_updates = self.pending_updates - 1;
                Ok(())
            },
            Err(_) => Err(EntityError::NotFound),
        }
    }

    /// Runs `f` on window `id` as one update and marks the window as needing drawing.
    pub fn update_window<R, F: FnOnce(Window) -> (Window, R)>(&mut self, id: WindowId, f: F) -> (r: Result<R, EntityError>)
        requires
            old(self)@.pending_updates < usize::MAX,
            forall|w: Window| f.requires((w,)),
        ensures
            window_slot(old(self)@.windows, id) is Occupied ==> r is Ok && exists|nw: Window|
                #![trigger marked_dirty(nw)]
                f.ensures((window_slot(old(self)@.windows, id)->Occupied_0,), (nw, r->Ok_0))
                && final(self)@ == (AppState {
                    windows: old(self)@.windows.update(id.index as int, Slot::Occupied(marked_dirty(nw))),
                    ..old(self)@
                }),
            !(window_slot(old(self)@.windows, id) is Occupied) ==> r == Err::<R, EntityError>(EntityError::NotFound)
                && final(self)@ == old(self)@,
    {
        let w = match self.begin_window_update(id) {
            Ok(w) => w,
            Err(e) => return Err(e),
        };
        let (nw, out) = f(w);
        let done = self.end_window_update(id, nw);
        assert(done is Ok);
        assert(self@.windows =~= old(self)@.windows.update(id.index as int, Slot::Occupied(marked_dirty(nw))));
        assert(self@ == (AppState {
            windows: old(self)@.windows.update(id.index as int, Slot::Occupied(marked_dirty(nw))),
            ..old(self)@
        }));
        Ok(out)
    }

    /// The windows that need drawing, in slot order.
    pub fn dirty_windows(&self) -> (r: Vec<WindowId>)
        ensures
            lists_dirty(self@.windows, r@),
    {
        let mut out: Vec<WindowId> = Vec::new();
        let n = self.windows.len();
        let mut i: usize = 0;
        while i < n
            invariant
                n == self@.windows.len(),
                i <= n,
                forall|a: int, b: int| 0 <= a < b < out@.len() ==> out@[a].index < out@[b].index,
                forall|k: int| 0 <= k < out@.len() ==> out@[k].index < i,
                forall|k: int| 0 <= k < out@.len() ==> is_dirty_at(self@.windows, #[trigger] out@[k].index as int),
                forall|j: int| 0 <= j < i && #[trigger] is_dirty_at(self@.windows, j) ==> exists|k: int| 0 <= k < out@.len() && out@[k].index == j,
            decreases n - i,
        {
            let id = WindowId { index: i };
            match self.windows.get(store_key(id)) {
                Some(w) => {
                    if w.dirty {
                        let ghost before = out@;
                        out.push(id);
                        assert forall|j: int| 0 <= j <= i && #[trigger] is_dirty_at(self@.windows, j) implies exists|k: int| 0 <= k < out@.len() && out@[k].index == j by {
                            if j < i {
                                let k = choose|k: int| 0 <= k < before.len() && before[k].index == j;
                                assert(out@[k] == before[k]);
                            } else {
                                assert(out@[before.len() as int].index == j);
                            }
                        }
                    }
                },
                None => {},
            }
            i = i + 1;
        }
        out
    }
}

pub open spec fn first_ids(r: Seq<(WindowId, bool)>) -> Seq<WindowId> {
    r.map_values(|p: (WindowId, bool)| p.0)
}

impl<T> AppContext<T> {
    /// The redraw sweep: hands each window that needs drawing to `draw`, in slot order,
    /// and marks it clean whatever `draw` answered. A failed draw is reported in the
    /// result, beside the others, and stops nothing.
    pub fn redraw_dirty_windows<F: Fn(&Window) -> bool>(&mut self, draw: &F) -> (r: Vec<(WindowId, bool)>)
        requires
            forall|w: &Window| draw.requires((w,)),
        ensures
            lists_dirty(old(self)@.windows, first_ids(r@)),
            forall|k: int| 0 <= k < r@.len() ==> draw.ensures(
                (&window_slot(old(self)@.windows, #[trigger] r@[k].0)->Occupied_0,),
                r@[k].1,
            ),
            final(self)@ == (AppState { windows: cleaned(old(self)@.windows, first_ids(r@)), ..old(self)@ }),
    {
        let ids = self.dirty_windows();
        let mut out: Vec<(WindowId, bool)> = Vec::new();
        let mut k: usize = 0;
        assert(cleaned(old(self)@.windows, ids@.take(0)) =~= old(self)@.windows);
        while k < ids.len()
            invariant
                k <= ids@.len(),
                lists_dirty(old(self)@.windows, ids@),
                out@.len() == k,
                first_ids(out@) =~= ids@.take(k as int),
                forall|j: int| 0 <= j < out@.len() ==> draw.ensures(
                    (&window_slot(old(self)@.windows, #[trigger] out@[j].0)->Occupied_0,),
                    out@[j].1,
                ),
                forall|w: &Window| draw.requires((w,)),
                self@ == (AppState { windows: cleaned(old(self)@.windows, ids@.take(k as int)), ..old(self)@ }),
            decreases ids@.len() - k,
        {
            let id = ids[k];
            assert(is_dirty_at(old(self)@.windows, ids@[k as int].index as int));
            let ghost ws = self@.windows;
            assert(ws[id.index as int] == old(self)@.windows[id.index as int]) by {
                assert forall|j: int| 0 <= j < k implies ids@.take(k as int)[j].index != id.index by {
                    assert(ids@[j].index < ids@[k as int].index);
                }
            }
            let w = self.windows.take(store_key(id));
            match w {
                Ok(w) => {
                    let ok = draw(&w);
                    let _ = self.windows.put_back(store_key(id), Window { dirty: false, ..w });
                    let ghost before = out@;
                    out.push((id, ok));
                    assert(first_ids(out@) =~= first_ids(before).push(id));
                    assert(ids@.take(k as int + 1) =~= ids@.take(k as int).push(id));
                    assert(self@.windows =~= cleaned(old(self)@.windows, ids@.take(k as int + 1))) by {
                        let t1 = ids@.take(k as int + 1);
                        assert(t1[k as int] == id);
                        assert forall|i: int| 0 <= i < self@.windows.len() implies self@.windows[i]
                            == cleaned(old(self)@.windows, t1)[i] by {
                            if i == id.index {
                                assert(exists|j: int| 0 <= j < t1.len() && t1[j].index == i);
                            } else {
                                if exists|j: int| 0 <= j < t1.len() && t1[j].index == i {
                                    let j = choose|j: int| 0 <= j < t1.len() && t1[j].index == i;
                                    assert(j < k);
                                    assert(ids@.take(k as int)[j].index == i);
                                }
                            }
                        }
                    }
                },
                Err(_) => {
                    assert(false);
                },
            }
            k = k + 1;
        }
        assert(ids@.take(ids@.len() as int) =~= ids@);
        out
    }
}

/// The state after updates of `ids[0]`, `ids[1]`, ... nested in one another: each one is
/// opened, runs the rest inside it, and closes with the value at the same position of `vs`.
pub open spec fn nested<T>(st: AppState<T>, ids: Seq<EntityId>, vs: Seq<T>) -> AppState<T>
    decreases ids.len(),
{
    if ids.len() == 0 || vs.len() == 0 {
        st
    } else {
        settle_entity(nested(lease_entity(st, ids[0].index as int), ids.drop_first(), vs.drop_first()), ids[0].index as int, vs[0])
    }
}

/// The notifications queued by nested updates of `ids`: the innermost closes first.
pub open spec fn closing_notifications(ids: Seq<EntityId>) -> Seq<Effect> {
    Seq::new(ids.len(), |k: int| Effect::Notify(ids[ids.len() - 1 - k]))
}

/// Nested updates leave the update count as they found it and queue one notification
/// per update, in the order the updates close, after the effects already queued; while
/// the innermost ones run, the outermost is still counted, so no effect can be taken
/// from the queue before it closes.
pub proof fn lemma_nested_updates_flush_once<T>(st: AppState<T>, ids: Seq<EntityId>, vs: Seq<T>)
    requires
        ids.len() == vs.len(),
        ids.len() > 0,
    ensures
        nested(st, ids, vs).pending_updates == st.pending_updates,
        nested(st, ids, vs).effects == st.effects + closing_notifications(ids),
        nested(lease_entity(st, ids[0].index as int), ids.drop_first(), vs.drop_first()).pending_updates
            == st.pending_updates + 1,
    decreases ids.len(),
{
    lemma_nested_counts(st, ids, vs);
    lemma_nested_counts(lease_entity(st, ids[0].index as int), ids.drop_first(), vs.drop_first());
}

proof fn lemma_nested_counts<T>(st: AppState<T>, ids: Seq<EntityId>, vs: Seq<T>)
    requires
        ids.len() == vs.len(),
    ensures
        nested(st, ids, vs).pending_updates == st.pending_updates,
        nested(st, ids, vs).effects == st.effects + closing_notifications(ids),
    decreases ids.len(),
{
    if ids.len() == 0 {
        assert(st.effects + closing_notifications(ids) =~= st.effects);
    } else {
        let inner = lease_entity(st, ids[0].index as int);
        lemma_nested_counts(inner, ids.drop_first(), vs.drop_first());
        let e = Effect::Notify(EntityId { index: ids[0].index as int as usize });
        assert(e == Effect::Notify(ids[0]));
        assert(closing_notifications(ids) =~= closing_notifications(ids.drop_first()).push(e));
        assert(st.effects + closing_notifications(ids) =~= (st.effects + closing_notifications(ids.drop_first())).push(e));
    }
}

/// A notification whose observers all answer true but the last keeps all of them but
/// the last, in order.
pub proof fn lemma_false_observer_dropped(hs: Seq<ObserverId>, keep: Seq<bool>)
    requires
        hs.len() == keep.len(),
        hs.len() > 0,
        !keep[keep.len() - 1],
        forall|j: int| 0 <= j < keep.len() - 1 ==> keep[j],
    ensures
        merged_row(hs, keep, None) == hs.drop_last(),
{
    lemma_kept_all(hs, keep, hs.len() - 1);
    assert(hs.take(hs.len() - 1) =~= hs.drop_last());
}

proof fn lemma_kept_all(hs: Seq<ObserverId>, keep: Seq<bool>, n: int)
    requires
        0 <= n <= hs.len(),
        hs.len() == keep.len(),
        forall|j: int| 0 <= j < n ==> keep[j],
    ensures
        kept(hs, keep, n) == hs.take(n),
    decreases n,
{
    if n > 0 {
        lemma_kept_all(hs, keep, n - 1);
        assert(hs.take(n) =~= hs.take(n - 1).push(hs[n - 1]));
    } else {
        assert(hs.take(0) =~= Seq::<ObserverId>::empty());
    }
}

/// An observer registered on an entity while that entity's notification runs goes into
/// the table, not into the list taken out for the notification; once the notification
/// ends it stands in the row after the observers that asked to stay, so it runs at the
/// next notification.
pub proof fn lemma_observer_added_during_notify<T>(st: AppState<T>, i: int, keep: Seq<bool>)
    requires
        0 <= i < st.observers.len(),
        st.observers[i] is Some,
        keep.len() == st.observers[i]->0.len(),
    ensures
        ({
            let hs = st.observers[i]->0;
            let o = ObserverId { value: st.next_observer as u64 };
            let after = reattached(observed(detached(st, i), i), i, hs, keep);
            &&& after.observers[i] == Some(kept(hs, keep, hs.len() as int).push(o))
            &&& after.next_observer == st.next_observer + 1
        }),
{
    let hs = st.observers[i]->0;
    let o = ObserverId { value: st.next_observer as u64 };
    let mid = observed(detached(st, i), i);
    assert(row_of(detached(st, i).observers, i) =~= Seq::<ObserverId>::empty());
    assert(mid.observers[i] == Some(seq![o]));
    assert(kept(hs, keep, hs.len() as int) + seq![o] =~= kept(hs, keep, hs.len() as int).push(o));
}

/// A window that was removed is not present, so an update of it is not found.
pub proof fn lemma_removed_window_not_found<T>(st: AppState<T>, id: WindowId)
    requires
        id.index < st.windows.len(),
    ensures
        !(window_slot(st.windows.update(id.index as int, Slot::Vacant), id) is Occupied),
{
}

/// In a redraw sweep every window that needs drawing is handed to the renderer and ends
/// clean, whatever the renderer answered for any other window.
pub proof fn lemma_redraw_reaches_every_dirty_window(ws: Seq<Slot<Window>>, ids: Seq<WindowId>, b: int)
    requires
        lists_dirty(ws, ids),
        is_dirty_at(ws, b),
    ensures
        exists|k: int| 0 <= k < ids.len() && ids[k].index == b,
        cleaned(ws, ids)[b] is Occupied,
        !cleaned(ws, ids)[b]->Occupied_0.dirty,
{
}

/// Two handles with one id name one slot: what an update through one of them leaves is
/// what the other reads.
pub proof fn lemma_handles_share_entity<T>(st: AppState<T>, h1: Handle<T>, h2: Handle<T>, v: T)
    requires
        h1.id == h2.id,
        h1.id.index < st.entities.len(),
    ensures
        slot_at(st.entities, h1.id.index as int) == slot_at(st.entities, h2.id.index as int),
        slot_at(settle_entity(lease_entity(st, h2.id.index as int), h2.id.index as int, v).entities, h1.id.index as int)
            == Slot::Occupied(v),
{
}

} // verus!
