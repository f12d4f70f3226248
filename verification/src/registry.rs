//! The waiter registry: which session ids have a connection waiting, and
//! which outcomes have arrived but were not picked up yet.
//!
//! The registry is plain single-owner data.  Sharing it between connections
//! (behind a lock) and suspending a connection until its outcome arrives are
//! left to the caller; every operation here is short and never waits.

use vstd::prelude::*;
use crate::error::{AuthError, CompletionError};

verus! {

/// What the registry holds for one session id.
pub enum SlotState<T> {
    /// A connection waits and nothing has been reported yet.
    Pending,
    /// An outcome has been reported and waits to be picked up.
    Resolved(Result<T, AuthError>),
}

/// The registry as a mathematical map from session ids to slot states.
pub type Slots<T> = Map<Seq<char>, SlotState<T>>;

/// A connection waits under `id` and no outcome has been reported for it.
pub open spec fn is_pending<T>(slots: Slots<T>, id: Seq<char>) -> bool {
    slots.contains_key(id) && slots[id] is Pending
}

/// An outcome reported under `id` waits to be picked up.
pub open spec fn is_resolved<T>(slots: Slots<T>, id: Seq<char>) -> bool {
    slots.contains_key(id) && slots[id] is Resolved
}

/// The slots after an attempt to register `id`.
pub open spec fn after_register<T>(slots: Slots<T>, id: Seq<char>) -> Slots<T> {
    if slots.contains_key(id) {
        slots
    } else {
        slots.insert(id, SlotState::Pending)
    }
}

/// The error, if any, that an attempt to register `id` fails with.
pub open spec fn register_error<T>(slots: Slots<T>, id: Seq<char>) -> Option<AuthError> {
    if slots.contains_key(id) {
        Some(AuthError::DuplicateSession)
    } else {
        None
    }
}

/// What an attempt to report a completion under `id` returns.
pub open spec fn complete_result<T>(slots: Slots<T>, id: Seq<char>) -> Result<
    (),
    CompletionError,
> {
    if is_pending(slots, id) {
        Ok(())
    } else {
        Err(CompletionError::UnknownSession)
    }
}

/// The slots after an attempt to report `outcome` under `id`.
pub open spec fn after_complete<T>(
    slots: Slots<T>,
    id: Seq<char>,
    outcome: Result<T, AuthError>,
) -> Slots<T> {
    if is_pending(slots, id) {
        slots.insert(id, SlotState::Resolved(outcome))
    } else {
        slots
    }
}

/// What the holder of `handle` is told when it asks for its outcome.
pub open spec fn await_result<T>(slots: Slots<T>, handle: WaiterHandle) -> Wait<T> {
    if !slots.contains_key(handle@) {
        Wait::Ready(Err(AuthError::Cancelled))
    } else {
        match slots[handle@] {
            SlotState::Pending => Wait::Pending(handle),
            SlotState::Resolved(outcome) => Wait::Ready(outcome),
        }
    }
}

/// The slots after the holder of a handle for `id` asked for its outcome.
pub open spec fn after_await<T>(slots: Slots<T>, id: Seq<char>) -> Slots<T> {
    if is_resolved(slots, id) {
        slots.remove(id)
    } else {
        slots
    }
}

/// The slots after the holder of a handle for `id` gave up.
pub open spec fn after_cancel<T>(slots: Slots<T>, id: Seq<char>) -> Slots<T> {
    slots.remove(id)
}

/// The right to wait for the outcome of one registered session.  It is
/// handed out by `register`, cannot be copied, and is used up by picking up
/// the outcome or by giving up.
#[derive(Debug, PartialEq, Eq)]
pub struct WaiterHandle {
    id: String,
}

impl View for WaiterHandle {
    type V = Seq<char>;

    /// The session id the handle was registered under.
    closed spec fn view(&self) -> Seq<char> {
        self.id@
    }
}

impl WaiterHandle {
    /// The session id the handle was registered under.
    pub fn session_id(&self) -> (id: &str)
        ensures
            id@ == self@,
    {
        self.id.as_str()
    }
}

/// The answer to a holder that asks for its outcome.
#[derive(Debug, PartialEq, Eq)]
pub enum Wait<T> {
    /// The wait is over, with this outcome.
    Ready(Result<T, AuthError>),
    /// Nothing has been reported yet; the handle comes back for the next try.
    Pending(WaiterHandle),
}

/// One slot as the registry keeps it.
struct Slot<T> {
    id: String,
    state: SlotState<T>,
}

/// The waiter registry.  No session id has more than one slot.
pub struct Registry<T> {
    slots: Vec<Slot<T>>,
}

impl<T> View for Registry<T> {
    type V = Slots<T>;

    /// The slots, keyed by session id.
    closed spec fn view(&self) -> Slots<T> {
        slots_view(self.slots@)
    }
}

impl<T> Registry<T> {
    #[verifier::type_invariant]
    spec fn distinct(self) -> bool {
        distinct_ids(self.slots@)
    }

    /// A registry in which nobody waits.
    pub fn new() -> (registry: Self)
        ensures
            registry@ == Map::<Seq<char>, SlotState<T>>::empty(),
    {
        let registry = Registry { slots: Vec::new() };
        proof {
            lemma_view_absent_all(registry.slots@);
        }
        registry
    }

    /// Whether nobody waits and nothing waits to be picked up.
    pub fn is_empty(&self) -> (empty: bool)
        ensures
            empty == (self@ == Map::<Seq<char>, SlotState<T>>::empty()),
    {
        let empty = self.slots.len() == 0;
        proof {
            if empty {
                lemma_view_absent_all(self.slots@);
            } else {
                use_type_invariant(self);
                lemma_view_at(self.slots@, 0);
            }
        }
        empty
    }

    /// Whether `id` has a slot: a connection waits under it, or its outcome
    /// waits to be picked up.
    pub fn is_registered(&self, id: &str) -> (found: bool)
        ensures
            found == self@.contains_key(id@),
    {
        let key = String::from_str(id);
        self.position(&key).is_some()
    }

    /// Registers a waiter under `id` and hands out the handle to wait with.
    ///
    /// Fails with `DuplicateSession`, and changes nothing, where `id` has a
    /// slot already.
    pub fn register(&mut self, id: String) -> (result: Result<WaiterHandle, AuthError>)
        ensures
            final(self)@ == after_register(old(self)@, id@),
            match result {
                Ok(handle) => register_error(old(self)@, id@) is None && handle@ == id@,
                Err(error) => register_error(old(self)@, id@) == Some(error),
            },
    {
        if self.position(&id).is_some() {
            return Err(AuthError::DuplicateSession);
        }
        let handle = WaiterHandle { id: id.clone() };
        self.put(Slot { id, state: SlotState::Pending });
        Ok(handle)
    }

    /// Reports `outcome` for the connection that waits under `id`.
    ///
    /// Succeeds exactly where a connection waits under `id` and nothing was
    /// reported for it yet; the outcome is then kept for that connection and
    /// no second report will be accepted.  Otherwise fails with
    /// `UnknownSession`, changes nothing, and drops `outcome`.
    pub fn complete(&mut self, id: &str, outcome: Result<T, AuthError>) -> (result: Result<
        (),
        CompletionError,
    >)
        ensures
            result == complete_result(old(self)@, id@),
            final(self)@ == after_complete(old(self)@, id@, outcome),
    {
        let key = String::from_str(id);
        match self.position(&key) {
            None => Err(CompletionError::UnknownSession),
            Some(i) => {
                if self.pending_at(i) {
                    let slot = self.take(i);
                    self.put(Slot { id: slot.id, state: SlotState::Resolved(outcome) });
                    Ok(())
                } else {
                    Err(CompletionError::UnknownSession)
                }
            },
        }
    }

    /// Asks for the outcome of the session that `handle` was registered for.
    ///
    /// Where an outcome has been reported it is handed over and the slot is
    /// gone.  Where none has been reported yet nothing changes and the handle
    /// comes back.  Where the session has no slot the answer is `Cancelled`.
    pub fn await_completion(&mut self, handle: WaiterHandle) -> (wait: Wait<T>)
        ensures
            wait == await_result(old(self)@, handle),
            final(self)@ == after_await(old(self)@, handle@),
    {
        match self.position(&handle.id) {
            None => Wait::Ready(Err(AuthError::Cancelled)),
            Some(i) => {
                if self.pending_at(i) {
                    Wait::Pending(handle)
                } else {
                    match self.take(i).state {
                        SlotState::Resolved(outcome) => Wait::Ready(outcome),
                        SlotState::Pending => unreached(),
                    }
                }
            },
        }
    }

    /// Gives up the wait: the slot of the handle's session is removed,
    /// together with an outcome that was reported and not picked up.
    pub fn cancel(&mut self, handle: WaiterHandle)
        ensures
            final(self)@ == after_cancel(old(self)@, handle@),
    {
        if let Some(i) = self.position(&handle.id) {
            let _ = self.take(i);
        }
    }

    /// The index of the slot of `id`, if it has one.
    fn position(&self, id: &String) -> (found: Option<usize>)
        ensures
            found is Some <==> self@.contains_key(id@),
            found matches Some(i) ==> {
                &&& i < self.slots@.len()
                &&& self.slots@[i as int].id@ == id@
                &&& self@[id@] == self.slots@[i as int].state
            },
    {
        proof {
            use_type_invariant(self);
        }
        let mut i: usize = 0;
        while i < self.slots.len()
            invariant
                i <= self.slots@.len(),
                distinct_ids(self.slots@),
                forall|j: int| 0 <= j < i ==> (#[trigger] self.slots@[j]).id@ != id@,
            decreases self.slots@.len() - i,
        {
            if self.slots[i].id == *id {
                proof {
                    lemma_view_at(self.slots@, i as int);
                }
                return Some(i);
            }
            i += 1;
        }
        proof {
            lemma_view_absent(self.slots@, id@);
        }
        None
    }

    /// Whether the slot at index `i` still waits for its outcome.
    fn pending_at(&self, i: usize) -> (pending: bool)
        requires
            i < self.slots@.len(),
        ensures
            pending == (self.slots@[i as int].state is Pending),
    {
        match &self.slots[i].state {
            SlotState::Pending => true,
            SlotState::Resolved(_) => false,
        }
    }

    /// Takes the slot at index `i` out of the registry.
    fn take(&mut self, i: usize) -> (slot: Slot<T>)
        requires
            i < old(self).slots@.len(),
        ensures
            slot == old(self).slots@[i as int],
            final(self)@ == old(self)@.remove(slot.id@),
    {
        proof {
            use_type_invariant(&*self);
            lemma_view_remove(self.slots@, i as int);
        }
        let mut slots = Vec::new();
        std::mem::swap(&mut slots, &mut self.slots);
        let slot = slots.remove(i);
        self.slots = slots;
        slot
    }

    /// Adds a slot for an id that has none.
    fn put(&mut self, slot: Slot<T>)
        requires
            !old(self)@.contains_key(slot.id@),
        ensures
            final(self)@ == old(self)@.insert(slot.id@, slot.state),
    {
        proof {
            use_type_invariant(&*self);
            lemma_view_push(self.slots@, slot);
        }
        let mut slots = Vec::new();
        std::mem::swap(&mut slots, &mut self.slots);
        slots.push(slot);
        self.slots = slots;
    }
}

/// The slot at index `i` exists and belongs to `id`.
spec fn holds_id<T>(slots: Seq<Slot<T>>, i: int, id: Seq<char>) -> bool {
    0 <= i < slots.len() && slots[i].id@ == id
}

/// No two slots belong to the same session id.
spec fn distinct_ids<T>(slots: Seq<Slot<T>>) -> bool {
    forall|i: int, j: int|
        0 <= i < j < slots.len() ==> (#[trigger] slots[i]).id@ != (#[trigger] slots[j]).id@
}

/// The map that a list of slots stands for.
spec fn slots_view<T>(slots: Seq<Slot<T>>) -> Slots<T> {
    Map::new(
        |id: Seq<char>| exists|i: int| holds_id(slots, i, id),
        |id: Seq<char>| slots[choose|i: int| holds_id(slots, i, id)].state,
    )
}

/// Among distinct slots, the map holds for the id of each slot the state of
/// that slot.
proof fn lemma_view_at<T>(slots: Seq<Slot<T>>, i: int)
    requires
        distinct_ids(slots),
        0 <= i < slots.len(),
    ensures
        slots_view(slots).contains_key(slots[i].id@),
        slots_view(slots)[slots[i].id@] == slots[i].state,
{
    let id = slots[i].id@;
    assert(holds_id(slots, i, id));
    let j = choose|j: int| holds_id(slots, j, id);
    assert(holds_id(slots, j, id));
    assert(i == j);
}

/// An id that no slot belongs to is no key of the map.
proof fn lemma_view_absent<T>(slots: Seq<Slot<T>>, id: Seq<char>)
    requires
        forall|i: int| 0 <= i < slots.len() ==> (#[trigger] slots[i]).id@ != id,
    ensures
        !slots_view(slots).contains_key(id),
{
    assert forall|i: int| !holds_id(slots, i, id) by {
        if 0 <= i < slots.len() {
            assert(slots[i].id@ != id);
        }
    }
}

/// Appending a slot for an id that has none inserts it into the map.
proof fn lemma_view_push<T>(slots: Seq<Slot<T>>, slot: Slot<T>)
    requires
        distinct_ids(slots),
        !slots_view(slots).contains_key(slot.id@),
    ensures
        distinct_ids(slots.push(slot)),
        slots_view(slots.push(slot)) == slots_view(slots).insert(slot.id@, slot.state),
{
    let more = slots.push(slot);
    assert forall|i: int, j: int| 0 <= i < j < more.len() implies (#[trigger] more[i]).id@ != (
    #[trigger] more[j]).id@ by {
        if j == slots.len() {
            assert(!holds_id(slots, i, slot.id@));
        } else {
            assert(slots[i].id@ != slots[j].id@);
        }
    }
    let target = slots_view(slots).insert(slot.id@, slot.state);
    assert forall|id: Seq<char>| slots_view(more).contains_key(id) <==> target.contains_key(
        id,
    ) by {
        if slots_view(more).contains_key(id) {
            let i = choose|i: int| holds_id(more, i, id);
            if i < slots.len() {
                assert(holds_id(slots, i, id));
            }
        }
        if target.contains_key(id) {
            if id == slot.id@ {
                assert(holds_id(more, slots.len() as int, id));
            } else {
                let i = choose|i: int| holds_id(slots, i, id);
                assert(holds_id(more, i, id));
            }
        }
    }
    assert forall|id: Seq<char>| slots_view(more).contains_key(id) implies slots_view(more)[id]
        == target[id] by {
        let i = choose|i: int| holds_id(more, i, id);
        lemma_view_at(more, i);
        if i < slots.len() {
            lemma_view_at(slots, i);
        }
    }
    assert(slots_view(more) =~= target);
}

/// Taking a slot out of the list removes its id from the map.
proof fn lemma_view_remove<T>(slots: Seq<Slot<T>>, k: int)
    requires
        distinct_ids(slots),
        0 <= k < slots.len(),
    ensures
        distinct_ids(slots.remove(k)),
        slots_view(slots.remove(k)) == slots_view(slots).remove(slots[k].id@),
{
    let less = slots.remove(k);
    let gone = slots[k].id@;
    assert forall|i: int, j: int| 0 <= i < j < less.len() implies (#[trigger] less[i]).id@ != (
    #[trigger] less[j]).id@ by {
        let si = if i < k { i } else { i + 1 };
        let sj = if j < k { j } else { j + 1 };
        assert(slots[si].id@ != slots[sj].id@);
    }
    let target = slots_view(slots).remove(gone);
    assert forall|id: Seq<char>| slots_view(less).contains_key(id) <==> target.contains_key(
        id,
    ) by {
        if slots_view(less).contains_key(id) {
            let i = choose|i: int| holds_id(less, i, id);
            let si = if i < k { i } else { i + 1 };
            assert(holds_id(slots, si, id));
            if si < k {
                assert(slots[si].id@ != slots[k].id@);
            } else {
                assert(slots[k].id@ != slots[si].id@);
            }
        }
        if target.contains_key(id) {
            let i = choose|i: int| holds_id(slots, i, id);
            assert(i != k);
            let li = if i < k { i } else { i - 1 };
            assert(holds_id(less, li, id));
        }
    }
    assert forall|id: Seq<char>| slots_view(less).contains_key(id) implies slots_view(less)[id]
        == target[id] by {
        let i = choose|i: int| holds_id(less, i, id);
        let si = if i < k { i } else { i + 1 };
        lemma_view_at(less, i);
        lemma_view_at(slots, si);
    }
    assert(slots_view(less) =~= target);
}

/// The empty list stands for the empty map.
proof fn lemma_view_absent_all<T>(slots: Seq<Slot<T>>)
    requires
        slots.len() == 0,
    ensures
        slots_view(slots) == Map::<Seq<char>, SlotState<T>>::empty(),
{
    assert forall|id: Seq<char>| !slots_view(slots).contains_key(id) by {
        lemma_view_absent(slots, id);
    }
    assert(slots_view(slots) =~= Map::<Seq<char>, SlotState<T>>::empty());
}

} // verus!
