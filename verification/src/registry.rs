use crate::types::BldError;
use vstd::prelude::*;

verus! {

/// What `register` reports for an id that is already registered.
pub const DUPLICATE_ID: &'static str = "execution id already registered";

/// A one-shot stop signal for one execution. The side that wants the
/// execution stopped signals it; the side that runs the execution asks it
/// between two pieces of work.
#[derive(Debug, Clone, Copy, PartialEq, Eq, Structural)]
pub struct CancellationHandle {
    signaled: bool,
}

impl CancellationHandle {
    /// Whether the signal was given.
    pub closed spec fn fired(self) -> bool {
        self.signaled
    }

    /// The handle after the signal was given.
    pub closed spec fn signaled(self) -> CancellationHandle {
        CancellationHandle { signaled: true }
    }

    /// The handle of an execution that nobody asked to stop yet.
    pub closed spec fn fresh() -> CancellationHandle {
        CancellationHandle { signaled: false }
    }

    /// A handle whose signal was not given yet.
    pub fn new() -> (handle: CancellationHandle)
        ensures
            handle == Self::fresh(),
            !handle.fired(),
    {
        CancellationHandle { signaled: false }
    }

    /// Gives the signal. To give it again changes nothing.
    pub fn signal(&mut self)
        ensures
            *final(self) == old(self).signaled(),
            final(self).fired(),
    {
        self.signaled = true;
    }

    /// Whether the signal was given. To ask changes nothing.
    pub fn is_signaled(&self) -> (fired: bool)
        ensures
            fired == self.fired(),
    {
        self.signaled
    }
}

/// Once given, a signal stays given.
pub proof fn lemma_signal_is_kept(handle: CancellationHandle)
    ensures
        !CancellationHandle::fresh().fired(),
        handle.signaled().fired(),
        handle.signaled().signaled() == handle.signaled(),
{
}

/// One running execution and its stop signal.
struct RegistryEntry {
    id: String,
    handle: CancellationHandle,
}

/// The running executions, each with its stop signal, by execution id.
pub struct ExecutionRegistry {
    entries: Vec<RegistryEntry>,
}

/// Whether no id stands twice in `entries`.
spec fn distinct_ids(entries: Seq<RegistryEntry>) -> bool {
    forall|i: int, j: int|
        0 <= i < j < entries.len() ==> (#[trigger] entries[i]).id@ != (#[trigger] entries[j]).id@
}

/// Whether an entry of `entries` has the id `id`.
spec fn has_id(entries: Seq<RegistryEntry>, id: Seq<char>) -> bool {
    exists|i: int| 0 <= i < entries.len() && (#[trigger] entries[i]).id@ == id
}

/// The place of an entry with the id `id`.
spec fn place_of(entries: Seq<RegistryEntry>, id: Seq<char>) -> int {
    choose|i: int| 0 <= i < entries.len() && (#[trigger] entries[i]).id@ == id
}

/// The entries as a map from id to signal.
spec fn as_map(entries: Seq<RegistryEntry>) -> Map<Seq<char>, CancellationHandle> {
    Map::new(|id: Seq<char>| has_id(entries, id), |id: Seq<char>| entries[place_of(entries, id)].handle)
}

/// With no id twice, there are as many ids as entries.
proof fn lemma_as_many_ids(entries: Seq<RegistryEntry>)
    requires
        distinct_ids(entries),
    ensures
        as_map(entries).dom().finite(),
        as_map(entries).dom().len() == entries.len(),
    decreases entries.len(),
{
    if entries.len() == 0 {
        assert(as_map(entries).dom() =~= Set::<Seq<char>>::empty());
    } else {
        let front = entries.drop_last();
        let last = entries.last();
        assert(distinct_ids(front)) by {
            assert forall|i: int, j: int| 0 <= i < j < front.len() implies (#[trigger] front[i]).id@ != (
            #[trigger] front[j]).id@ by {
                assert(front[i] == entries[i]);
                assert(front[j] == entries[j]);
            }
        }
        lemma_as_many_ids(front);
        assert(!has_id(front, last.id@)) by {
            if has_id(front, last.id@) {
                let i = place_of(front, last.id@);
                assert(front[i] == entries[i]);
                assert(entries[i].id@ != entries[entries.len() - 1].id@);
            }
        }
        assert(as_map(entries).dom() =~= as_map(front).dom().insert(last.id@)) by {
            assert forall|id: Seq<char>| has_id(entries, id) <==> (has_id(front, id) || id == last.id@) by {
                if has_id(entries, id) {
                    let i = place_of(entries, id);
                    if i < front.len() {
                        assert(front[i] == entries[i]);
                    }
                }
                if has_id(front, id) {
                    let i = place_of(front, id);
                    assert(front[i] == entries[i]);
                }
                if id == last.id@ {
                    assert(entries[entries.len() - 1].id@ == id);
                }
            }
        }
    }
}

impl View for ExecutionRegistry {
    type V = Map<Seq<char>, CancellationHandle>;

    closed spec fn view(&self) -> Map<Seq<char>, CancellationHandle> {
        as_map(self.entries@)
    }
}

impl ExecutionRegistry {
    #[verifier::type_invariant]
    spec fn no_id_twice(self) -> bool {
        distinct_ids(self.entries@)
    }

    /// Whether `id` can be registered: it is not registered yet.
    pub open spec fn can_register(running: Map<Seq<char>, CancellationHandle>, id: Seq<char>) -> bool {
        !running.contains_key(id)
    }

    /// The running executions after `register`.
    pub open spec fn registered(
        running: Map<Seq<char>, CancellationHandle>,
        id: Seq<char>,
        handle: CancellationHandle,
    ) -> Map<Seq<char>, CancellationHandle> {
        if Self::can_register(running, id) {
            running.insert(id, handle)
        } else {
            running
        }
    }

    /// The running executions after `cancel`.
    pub open spec fn cancelled(running: Map<Seq<char>, CancellationHandle>, id: Seq<char>) -> Map<
        Seq<char>,
        CancellationHandle,
    > {
        if running.contains_key(id) {
            running.insert(id, running[id].signaled())
        } else {
            running
        }
    }

    /// The running executions after `unregister`.
    pub open spec fn unregistered(running: Map<Seq<char>, CancellationHandle>, id: Seq<char>) -> Map<
        Seq<char>,
        CancellationHandle,
    > {
        running.remove(id)
    }

    /// A registry without executions.
    pub fn new() -> (registry: ExecutionRegistry)
        ensures
            registry@ == Map::<Seq<char>, CancellationHandle>::empty(),
    {
        let registry = ExecutionRegistry { entries: Vec::new() };
        assert(registry@ =~= Map::<Seq<char>, CancellationHandle>::empty());
        registry
    }

    /// The place of `id` among the entries.
    fn find(&self, id: &String) -> (place: Option<usize>)
        ensures
            place matches Some(i) ==> i < self.entries@.len() && self.entries@[i as int].id@ == id@,
            place is None ==> !has_id(self.entries@, id@),
    {
        let mut i: usize = 0;
        while i < self.entries.len()
            invariant
                i <= self.entries@.len(),
                forall|k: int| 0 <= k < i ==> (#[trigger] self.entries@[k]).id@ != id@,
            decreases self.entries@.len() - i,
        {
            if self.entries[i].id.eq(id) {
                return Some(i);
            }
            i = i + 1;
        }
        None
    }

    /// The number of running executions.
    pub fn len(&self) -> (n: usize)
        ensures
            self@.dom().finite(),
            n == self@.dom().len(),
    {
        proof {
            use_type_invariant(self);
            lemma_as_many_ids(self.entries@);
        }
        self.entries.len()
    }

    /// Whether `id` is registered.
    pub fn contains(&self, id: &str) -> (found: bool)
        ensures
            found == self@.contains_key(id@),
    {
        let key = id.to_owned();
        self.find(&key).is_some()
    }

    /// The stop signal of `id` as it stands, if `id` is registered.
    pub fn handle(&self, id: &str) -> (handle: Option<CancellationHandle>)
        ensures
            handle == (if self@.contains_key(id@) {
                Some(self@[id@])
            } else {
                None
            }),
    {
        proof {
            use_type_invariant(self);
        }
        let key = id.to_owned();
        match self.find(&key) {
            Some(i) => {
                assert(has_id(self.entries@, id@));
                Some(self.entries[i].handle)
            },
            None => None,
        }
    }

    /// Whether a stop was asked for `id`. An id that is not registered was
    /// not asked to stop.
    pub fn is_signaled(&self, id: &str) -> (fired: bool)
        ensures
            fired == (self@.contains_key(id@) && self@[id@].fired()),
    {
        match self.handle(id) {
            Some(handle) => handle.is_signaled(),
            None => false,
        }
    }

    /// Registers the execution `id` with its stop signal. An id that is
    /// registered already is refused, and the registry stays as it was.
    pub fn register(&mut self, id: String, handle: CancellationHandle) -> (done: Result<(), BldError>)
        ensures
            done is Ok <==> Self::can_register(old(self)@, id@),
            final(self)@ == Self::registered(old(self)@, id@, handle),
            done matches Err(e) ==> e matches BldError::Other(text) && text@ == DUPLICATE_ID@,
    {
        proof {
            use_type_invariant(&*self);
        }
        match self.find(&id) {
            Some(i) => {
                assert(has_id(self.entries@, id@));
                Err(BldError::Other(DUPLICATE_ID.to_owned()))
            },
            None => {
                let ghost before = self.entries@;
                let ghost key = id@;
                let mut entries: Vec<RegistryEntry> = Vec::new();
                std::mem::swap(&mut self.entries, &mut entries);
                entries.push(RegistryEntry { id, handle });
                proof {
                    let after = entries@;
                    assert(after[after.len() - 1].id@ == key);
                    assert forall|k: Seq<char>| has_id(after, k) <==> (has_id(before, k) || k == key) by {
                        if has_id(after, k) {
                            let i = place_of(after, k);
                            if i < before.len() {
                                assert(before[i] == after[i]);
                            }
                        }
                        if has_id(before, k) {
                            let i = place_of(before, k);
                            assert(before[i] == after[i]);
                        }
                    }
                    assert forall|k: Seq<char>| has_id(after, k) implies #[trigger] as_map(after)[k]
                        == as_map(before).insert(key, handle)[k] by {
                        let i = place_of(after, k);
                        if i < before.len() {
                            assert(before[i] == after[i]);
                            let j = place_of(before, k);
                            assert(before[j] == after[j]);
                        }
                    }
                    assert(as_map(after) =~= as_map(before).insert(key, handle));
                    assert(distinct_ids(after)) by {
                        assert forall|a: int, b: int| 0 <= a < b < after.len() implies (#[trigger] after[a]).id@
                            != (#[trigger] after[b]).id@ by {
                            assert(before[a] == after[a]);
                            if b < before.len() {
                                assert(before[b] == after[b]);
                            }
                        }
                    }
                }
                std::mem::swap(&mut self.entries, &mut entries);
                Ok(())
            },
        }
    }

    /// Asks the execution `id` to stop. Returns whether `id` was registered;
    /// where it was not, nothing changes.
    pub fn cancel(&mut self, id: &str) -> (found: bool)
        ensures
            found == old(self)@.contains_key(id@),
            final(self)@ == Self::cancelled(old(self)@, id@),
            !found ==> final(self)@ == old(self)@,
            found ==> final(self)@.contains_key(id@) && final(self)@[id@].fired(),
    {
        proof {
            use_type_invariant(&*self);
        }
        let key = id.to_owned();
        match self.find(&key) {
            Some(i) => {
                let ghost before = self.entries@;
                assert(has_id(before, id@));
                let mut handle = self.entries[i].handle;
                handle.signal();
                let mut entries: Vec<RegistryEntry> = Vec::new();
                std::mem::swap(&mut self.entries, &mut entries);
                entries.set(i, RegistryEntry { id: key, handle });
                proof {
                    let after = entries@;
                    assert forall|a: int, b: int| 0 <= a < b < after.len() implies (#[trigger] after[a]).id@
                        != (#[trigger] after[b]).id@ by {
                        assert(after[a].id@ == before[a].id@);
                        assert(after[b].id@ == before[b].id@);
                    }
                    assert forall|k: Seq<char>| has_id(after, k) <==> has_id(before, k) by {
                        if has_id(after, k) {
                            let j = place_of(after, k);
                            assert(before[j].id@ == k);
                        }
                        if has_id(before, k) {
                            let j = place_of(before, k);
                            assert(after[j].id@ == k);
                        }
                    }
                    assert forall|k: Seq<char>| has_id(after, k) implies #[trigger] as_map(after)[k]
                        == Self::cancelled(as_map(before), id@)[k] by {
                        let j = place_of(after, k);
                        let j0 = place_of(before, k);
                        assert(before[j].id@ == k);
                        assert(after[j0].id@ == k);
                    }
                    assert(as_map(after) =~= Self::cancelled(as_map(before), id@));
                }
                std::mem::swap(&mut self.entries, &mut entries);
                true
            },
            None => false,
        }
    }

    /// Takes the execution `id` out. Returns whether it was registered.
    pub fn unregister(&mut self, id: &str) -> (found: bool)
        ensures
            found == old(self)@.contains_key(id@),
            final(self)@ == Self::unregistered(old(self)@, id@),
    {
        proof {
            use_type_invariant(&*self);
        }
        let key = id.to_owned();
        match self.find(&key) {
            Some(i) => {
                let ghost before = self.entries@;
                assert(has_id(before, id@));
                let mut entries: Vec<RegistryEntry> = Vec::new();
                std::mem::swap(&mut self.entries, &mut entries);
                let _ = entries.remove(i);
                proof {
                    let after = entries@;
                    assert forall|a: int| 0 <= a < after.len() implies #[trigger] after[a] == before[if a
                        < i {
                        a
                    } else {
                        a + 1
                    }] by {}
                    assert forall|a: int, b: int| 0 <= a < b < after.len() implies (#[trigger] after[a]).id@
                        != (#[trigger] after[b]).id@ by {
                        let a0 = if a < i { a } else { a + 1 };
                        let b0 = if b < i { b } else { b + 1 };
                        assert(after[a] == before[a0]);
                        assert(after[b] == before[b0]);
                    }
                    assert forall|k: Seq<char>| has_id(after, k) <==> (has_id(before, k) && k != id@) by {
                        if has_id(after, k) {
                            let j = place_of(after, k);
                            let j0 = if j < i { j } else { j + 1 };
                            assert(after[j] == before[j0]);
                            assert(before[j0].id@ == k);
                            if k == id@ {
                                assert(before[i as int].id@ == k);
                            }
                        }
                        if has_id(before, k) && k != id@ {
                            let j0 = place_of(before, k);
                            let j = if j0 < i { j0 } else { j0 - 1 };
                            assert(after[j] == before[j0]);
                        }
                    }
                    assert forall|k: Seq<char>| has_id(after, k) implies #[trigger] as_map(after)[k]
                        == as_map(before).remove(id@)[k] by {
                        let j = place_of(after, k);
                        let j0 = if j < i { j } else { j + 1 };
                        assert(after[j] == before[j0]);
                        let p = place_of(before, k);
                        assert(before[p].id@ == before[j0].id@);
                    }
                    assert(as_map(after) =~= as_map(before).remove(id@));
                }
                std::mem::swap(&mut self.entries, &mut entries);
                true
            },
            None => {
                assert(self@ =~= self@.remove(id@));
                false
            },
        }
    }
}

/// An id that was registered cannot be registered again: the second
/// `register` fails, whatever signal it brings, and leaves the first in place.
pub proof fn lemma_register_twice_fails(
    running: Map<Seq<char>, CancellationHandle>,
    id: Seq<char>,
    first: CancellationHandle,
    second: CancellationHandle,
)
    ensures
        !ExecutionRegistry::can_register(ExecutionRegistry::registered(running, id, first), id),
        ExecutionRegistry::registered(ExecutionRegistry::registered(running, id, first), id, second)
            == ExecutionRegistry::registered(running, id, first),
{
}

/// An id that was registered once is taken out by the first `unregister`,
/// which leaves one execution fewer, and is no longer there for a second.
pub proof fn lemma_unregister_once(
    running: Map<Seq<char>, CancellationHandle>,
    id: Seq<char>,
    handle: CancellationHandle,
)
    requires
        running.dom().finite(),
        ExecutionRegistry::can_register(running, id),
    ensures
        ({
            let with_id = ExecutionRegistry::registered(running, id, handle);
            let without = ExecutionRegistry::unregistered(with_id, id);
            &&& with_id.contains_key(id)
            &&& with_id.dom().len() == running.dom().len() + 1
            &&& without.dom().len() == with_id.dom().len() - 1
            &&& !without.contains_key(id)
            &&& without == running
            &&& ExecutionRegistry::unregistered(without, id) == without
        }),
{
    let with_id = ExecutionRegistry::registered(running, id, handle);
    let without = ExecutionRegistry::unregistered(with_id, id);
    assert(without =~= running);
    assert(ExecutionRegistry::unregistered(without, id) =~= without);
    assert(with_id.dom() =~= running.dom().insert(id));
}

/// To ask an execution that is not registered to stop changes nothing.
pub proof fn lemma_cancel_unknown_changes_nothing(
    running: Map<Seq<char>, CancellationHandle>,
    id: Seq<char>,
)
    requires
        !running.contains_key(id),
    ensures
        ExecutionRegistry::cancelled(running, id) == running,
{
}

/// After a stop was asked for a registered execution, its signal is given,
/// and stays given when the stop is asked again; no other execution is
/// touched.
pub proof fn lemma_cancel_signals(running: Map<Seq<char>, CancellationHandle>, id: Seq<char>)
    requires
        running.contains_key(id),
    ensures
        ({
            let after = ExecutionRegistry::cancelled(running, id);
            &&& after.contains_key(id)
            &&& after[id].fired()
            &&& ExecutionRegistry::cancelled(after, id) == after
            &&& after.dom() == running.dom()
            &&& forall|other: Seq<char>| other != id && running.contains_key(other) ==> after[other] == running[other]
        }),
{
    let after = ExecutionRegistry::cancelled(running, id);
    assert(after.dom() =~= running.dom());
    assert(ExecutionRegistry::cancelled(after, id) =~= after);
}

} // verus!
