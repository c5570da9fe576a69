//! The descriptor table: which descriptor number names which resource.
//!
//! Several numbers may name one resource. A resource lives for as long as a
//! number names it, and leaves the table with its last number.

use std::collections::HashMap;
use vstd::prelude::*;
use vstd::set_lib::lemma_len_subset;
use crate::native;
use crate::string_representation::StringRepresentation;
use crate::types::{Errno, Fd, Fdflags, Rights, WasiResult};
use crate::wasi_fd::{permits, FdState, WasiFd};

verus! {

/// The table as the capability model sees it.
pub struct TableView {
    /// The resource that each open descriptor number names.
    pub names: Map<u32, nat>,
    /// The state of each resource.
    pub resources: Map<nat, FdState>,
}

/// Whether some number in `names` names resource `id`.
pub open spec fn named(names: Map<u32, nat>, id: nat) -> bool {
    exists|k: u32| #[trigger] names.contains_key(k) && names[k] == id
}

/// The resources among `resources` that a number in `names` names.
pub open spec fn named_resources(names: Map<u32, nat>, resources: Map<nat, FdState>) -> Map<
    nat,
    FdState,
> {
    resources.restrict(Set::new(|id: nat| named(names, id)))
}

impl TableView {
    /// Whether the resources are exactly those that a number names.
    pub open spec fn consistent(self) -> bool {
        forall|id: nat| #[trigger] self.resources.contains_key(id) <==> named(self.names, id)
    }

    /// Whether `fd` names a resource.
    pub open spec fn is_open(self, fd: Fd) -> bool {
        self.names.contains_key(fd.0)
    }

    /// The state of the resource that `fd` names.
    pub open spec fn state(self, fd: Fd) -> FdState
        recommends
            self.is_open(fd),
    {
        self.resources[self.names[fd.0]]
    }

    /// The table after `fd` was closed.
    pub open spec fn close(self, fd: Fd) -> TableView {
        let names = self.names.remove(fd.0);
        TableView { names, resources: named_resources(names, self.resources) }
    }

    /// The table after `to` was made to name what `fd` names.
    pub open spec fn renumber(self, fd: Fd, to: Fd) -> TableView
        recommends
            self.is_open(fd),
    {
        let names = self.names.insert(to.0, self.names[fd.0]);
        TableView { names, resources: named_resources(names, self.resources) }
    }

    /// The table after `fd`, which named nothing, was made the one name of a
    /// new resource `id` in the given state.
    pub open spec fn open(self, fd: Fd, id: nat, state: FdState) -> TableView {
        TableView {
            names: self.names.insert(fd.0, id),
            resources: self.resources.insert(id, state),
        }
    }

    /// The table after the resource that `fd` names took on `state`.
    pub open spec fn update(self, fd: Fd, state: FdState) -> TableView
        recommends
            self.is_open(fd),
    {
        TableView { names: self.names, resources: self.resources.insert(self.names[fd.0], state) }
    }
}

/// After `to` was made to name what `fd` names, `to` names the same
/// resource as `fd` did, in the same state, and `fd` still names it. Every
/// other descriptor is as it was.
pub proof fn lemma_renumber(table: TableView, fd: Fd, to: Fd)
    requires
        table.consistent(),
        table.is_open(fd),
        table.is_open(to),
        fd != to,
    ensures
        table.renumber(fd, to).consistent(),
        table.renumber(fd, to).is_open(to),
        table.renumber(fd, to).names[to.0] == table.names[fd.0],
        table.renumber(fd, to).state(to) == table.state(fd),
        forall|other: Fd|
            other != to ==> table.renumber(fd, to).is_open(other) == #[trigger] table.is_open(
                other,
            ),
        forall|other: Fd|
            other != to && #[trigger] table.is_open(other) ==> table.renumber(fd, to).names[other.0]
                == table.names[other.0] && table.renumber(fd, to).state(other) == table.state(
                other,
            ),
{
    let after = table.renumber(fd, to);
    assert(after.names.contains_key(fd.0) && after.names[fd.0] == table.names[fd.0]);
    assert(table.resources.contains_key(table.names[fd.0]));
    assert forall|other: Fd| other != to && #[trigger] table.is_open(
        other,
    ) implies after.names[other.0]
        == table.names[other.0] && after.state(other) == table.state(other) by {
        assert(after.names.contains_key(other.0) && after.names[other.0] == table.names[other.0]);
        assert(table.resources.contains_key(table.names[other.0]));
    }
    assert forall|id: nat| #[trigger] after.resources.contains_key(id) <==> named(
        after.names,
        id,
    ) by {
        if named(after.names, id) {
            let k = choose|k: u32| #[trigger] after.names.contains_key(k) && after.names[k] == id;
            if k == to.0 {
                assert(table.names.contains_key(fd.0) && table.names[fd.0] == id);
            } else {
                assert(table.names.contains_key(k) && table.names[k] == id);
            }
        }
    }
}

/// After `fd` was closed it names nothing, and every other descriptor is
/// as it was.
pub proof fn lemma_close(table: TableView, fd: Fd)
    requires
        table.consistent(),
    ensures
        table.close(fd).consistent(),
        !table.close(fd).is_open(fd),
        forall|other: Fd|
            other != fd ==> table.close(fd).is_open(other) == #[trigger] table.is_open(other),
        forall|other: Fd|
            other != fd && #[trigger] table.is_open(other) ==> table.close(fd).names[other.0]
                == table.names[other.0] && table.close(fd).state(other) == table.state(other),
{
    let after = table.close(fd);
    assert forall|other: Fd| other != fd && #[trigger] table.is_open(
        other,
    ) implies after.names[other.0]
        == table.names[other.0] && after.state(other) == table.state(other) by {
        assert(after.names.contains_key(other.0) && after.names[other.0] == table.names[other.0]);
        assert(table.resources.contains_key(table.names[other.0]));
    }
    assert forall|id: nat| #[trigger] after.resources.contains_key(id) <==> named(
        after.names,
        id,
    ) by {
        if named(after.names, id) {
            let k = choose|k: u32| #[trigger] after.names.contains_key(k) && after.names[k] == id;
            assert(table.names.contains_key(k) && table.names[k] == id);
        }
    }
}

/// A change of a resource's state shows through every descriptor that
/// names the resource, and through no other.
pub proof fn lemma_update(table: TableView, fd: Fd, state: FdState)
    requires
        table.consistent(),
        table.is_open(fd),
    ensures
        table.update(fd, state).consistent(),
        forall|other: Fd| table.update(fd, state).is_open(other) == #[trigger] table.is_open(other),
        forall|other: Fd|
            #[trigger] table.is_open(other) ==> table.update(fd, state).state(
                other,
            ) == if table.names[other.0]
                == table.names[fd.0] {
                state
            } else {
                table.state(other)
            },
{
    let after = table.update(fd, state);
    assert(table.resources.contains_key(table.names[fd.0]));
    assert forall|id: nat| #[trigger] after.resources.contains_key(id) <==> named(
        after.names,
        id,
    ) by {
        if id != table.names[fd.0] {
            assert(after.resources.contains_key(id) == table.resources.contains_key(id));
        }
    }
}

/// A resource, with the count and the set of the numbers that name it.
struct Slot<S> {
    resource: WasiFd<S>,
    links: usize,
    names: Ghost<Set<u32>>,
}

/// A map from descriptor numbers to shared resources.
pub struct FdTable<S> {
    numbers: HashMap<u32, usize>,
    slots: Vec<Option<Slot<S>>>,
}

impl<S: StringRepresentation> View for FdTable<S> {
    type V = TableView;

    closed spec fn view(&self) -> TableView {
        TableView {
            names: Map::new(
                |k: u32| self.numbers@.contains_key(k),
                |k: u32| self.numbers@[k] as nat,
            ),
            resources: Map::new(
                |id: nat| self.live(id as int),
                |id: nat| self.slots@[id as int].unwrap().resource.state(),
            ),
        }
    }
}

impl<S: StringRepresentation> FdTable<S> {
    /// Whether slot `i` holds a resource.
    spec fn live(&self, i: int) -> bool {
        0 <= i < self.slots@.len() && self.slots@[i].is_some()
    }

    /// Whether the slot's count and set of names agree with the numbers.
    spec fn counted(&self, i: int) -> bool {
        let slot = self.slots@[i].unwrap();
        &&& slot.names@.finite()
        &&& slot.links == slot.names@.len()
        &&& slot.links >= 1
        &&& forall|k: u32| #[trigger]
            slot.names@.contains(k) ==> self.numbers@.contains_key(k) && self.numbers@[k] == i
    }

    /// The table's invariant: every number names a live resource that knows
    /// of it, and every live resource counts the numbers that name it.
    pub closed spec fn wf(&self) -> bool {
        &&& forall|k: u32| #[trigger]
            self.numbers@.contains_key(k) ==> self.live(self.numbers@[k] as int)
                && self.slots@[self.numbers@[k] as int].unwrap().names@.contains(k)
        &&& forall|i: int| #[trigger] self.live(i) ==> self.counted(i)
    }

    /// The resources of a well-formed table are those that a number names.
    pub proof fn lemma_consistent(&self)
        requires
            self.wf(),
        ensures
            self@.consistent(),
    {
        assert forall|id: nat| #[trigger] self@.resources.contains_key(id) <==> named(
            self@.names,
            id,
        ) by {
            if self@.resources.contains_key(id) {
                assert(self.live(id as int));
                assert(self.counted(id as int));
                let names = self.slots@[id as int].unwrap().names@;
                let k = names.choose();
                assert(names.contains(k));
                assert(self@.names.contains_key(k) && self@.names[k] == id);
            }
            if named(self@.names, id) {
                let k = choose|k: u32| #[trigger] self@.names.contains_key(
                    k,
                ) && self@.names[k] == id;
                assert(self.numbers@.contains_key(k));
            }
        }
    }

    /// The table without any descriptor.
    pub fn new() -> (table: Self)
        ensures
            table.wf(),
            table@.names == Map::<u32, nat>::empty(),
            table@.resources == Map::<nat, FdState>::empty(),
    {
        let table = FdTable { numbers: HashMap::new(), slots: Vec::new() };
        assert(table@.names =~= Map::<u32, nat>::empty());
        assert(table@.resources =~= Map::<nat, FdState>::empty());
        table
    }

    /// Whether `fd` names a resource.
    pub fn contains(&self, fd: Fd) -> (open: bool)
        ensures
            open == self@.is_open(fd),
    {
        self.numbers.contains_key(&fd.0)
    }

    /// The resource that `fd` names, if it names one.
    pub fn get(&self, fd: Fd) -> (result: Option<&WasiFd<S>>)
        requires
            self.wf(),
        ensures
            result.is_some() == self@.is_open(fd),
            result.is_some() ==> result.unwrap().state() == self@.state(fd),
    {
        match self.numbers.get(&fd.0) {
            Some(slot) => {
                assert(self.numbers@.contains_key(fd.0));
                match &self.slots[*slot] {
                    Some(entry) => Some(&entry.resource),
                    None => None,
                }
            },
            None => None,
        }
    }

    /// The resources that `first` and `second` name, if each names one.
    /// Both are looked up in one step: either both are found or neither is.
    pub fn get_pair(&self, first: Fd, second: Fd) -> (result: Option<(&WasiFd<S>, &WasiFd<S>)>)
        requires
            self.wf(),
        ensures
            result.is_some() == (self@.is_open(first) && self@.is_open(second)),
            result.is_some() ==> result.unwrap().0.state() == self@.state(first)
                && result.unwrap().1.state() == self@.state(second),
    {
        match self.get(first) {
            Some(one) => match self.get(second) {
                Some(other) => Some((one, other)),
                None => None,
            },
            None => None,
        }
    }

    /// Replaces the flags of the resource that `fd` names. Fails with `Badf`
    /// where `fd` names none, and else as the resource decides.
    pub fn set_flags(&mut self, fd: Fd, flags: Fdflags) -> (result: WasiResult<()>)
        requires
            old(self).wf(),
        ensures
            final(self).wf(),
            result == if !old(self)@.is_open(fd) {
                Err::<(), Errno>(Errno::Badf)
            } else if !permits(old(self)@.state(fd).rights, native::RIGHTS_FD_FDSTAT_SET_FLAGS) {
                Err::<(), Errno>(Errno::Notcapable)
            } else {
                Ok::<(), Errno>(())
            },
            final(self)@ == if result.is_ok() {
                old(self)@.update(fd, FdState { flags, ..old(self)@.state(fd) })
            } else {
                old(self)@
            },
    {
        let slot: usize = match self.numbers.get(&fd.0) {
            Some(slot) => *slot,
            None => {
                return Err(Errno::Badf);
            },
        };
        assert(self.numbers@.contains_key(fd.0));
        assert(self.counted(slot as int));
        let result = match &mut self.slots[slot] {
            Some(entry) => entry.resource.fdstat_set_flags(flags),
            None => Err(Errno::Badf),
        };
        proof {
            assert forall|i: int| #[trigger] self.live(i) implies self.counted(i) by {
                assert(old(self).live(i));
                assert(old(self).counted(i));
            }
            if result.is_ok() {
                assert(self@.names =~= old(self)@.names);
                assert(self@.resources =~= old(self)@.update(
                    fd,
                    FdState { flags, ..old(self)@.state(fd) },
                ).resources);
            } else {
                assert(self@.names =~= old(self)@.names);
                assert(self@.resources =~= old(self)@.resources);
            }
        }
        result
    }

    /// Narrows the rights of the resource that `fd` names. Fails with `Badf`
    /// where `fd` names none, and with `Notcapable` where a right is asked
    /// for that the resource does not hold.
    pub fn set_rights(&mut self, fd: Fd, rights: Rights, rights_inheriting: Rights) -> (result:
        WasiResult<()>)
        requires
            old(self).wf(),
        ensures
            final(self).wf(),
            result == if !old(self)@.is_open(fd) {
                Err::<(), Errno>(Errno::Badf)
            } else if !(old(self)@.state(fd).rights.has(rights) && old(self)@.state(
                fd,
            ).rights_inheriting.has(rights_inheriting)) {
                Err::<(), Errno>(Errno::Notcapable)
            } else {
                Ok::<(), Errno>(())
            },
            final(self)@ == if result.is_ok() {
                old(self)@.update(
                    fd,
                    FdState { rights, rights_inheriting, ..old(self)@.state(fd) },
                )
            } else {
                old(self)@
            },
    {
        let slot: usize = match self.numbers.get(&fd.0) {
            Some(slot) => *slot,
            None => {
                return Err(Errno::Badf);
            },
        };
        assert(self.numbers@.contains_key(fd.0));
        assert(self.counted(slot as int));
        let result = match &mut self.slots[slot] {
            Some(entry) => entry.resource.fdstat_set_rights(rights, rights_inheriting),
            None => Err(Errno::Badf),
        };
        proof {
            assert forall|i: int| #[trigger] self.live(i) implies self.counted(i) by {
                assert(old(self).live(i));
                assert(old(self).counted(i));
            }
            if result.is_ok() {
                assert(self@.names =~= old(self)@.names);
                assert(self@.resources =~= old(self)@.update(
                    fd,
                    FdState { rights, rights_inheriting, ..old(self)@.state(fd) },
                ).resources);
            } else {
                assert(self@.names =~= old(self)@.names);
                assert(self@.resources =~= old(self)@.resources);
            }
        }
        result
    }

    /// A slot that holds no resource. The table may grow by one empty slot.
    fn vacant_slot(&mut self) -> (slot: usize)
        requires
            old(self).wf(),
        ensures
            final(self).wf(),
            final(self)@ == old(self)@,
            final(self).numbers == old(self).numbers,
            slot < final(self).slots@.len(),
            final(self).slots@[slot as int].is_none(),
    {
        let mut i: usize = 0;
        while i < self.slots.len()
            invariant
                i <= self.slots@.len(),
                *self == *old(self),
                self.wf(),
            decreases self.slots@.len() - i,
        {
            if self.slots[i].is_none() {
                return i;
            }
            i = i + 1;
        }
        self.slots.push(None);
        proof {
            assert forall|j: int| #[trigger] self.live(j) implies self.counted(j) by {
                assert(old(self).live(j));
                assert(old(self).counted(j));
            }
            assert forall|k: u32| #[trigger] self.numbers@.contains_key(k) implies self.live(
                self.numbers@[k] as int,
            ) && self.slots@[self.numbers@[k] as int].unwrap().names@.contains(k) by {
                assert(old(self).live(old(self).numbers@[k] as int));
            }
            assert(self@.names =~= old(self)@.names);
            assert(self@.resources =~= old(self)@.resources);
        }
        i
    }

    /// Makes `number`, which names nothing yet, the one name of `resource`.
    fn install(&mut self, number: u32, resource: WasiFd<S>) -> (id: Ghost<nat>)
        requires
            old(self).wf(),
            !old(self)@.names.contains_key(number),
        ensures
            final(self).wf(),
            !old(self)@.resources.contains_key(id@),
            final(self)@ == old(self)@.open(Fd(number), id@, resource.state()),
    {
        let slot = self.vacant_slot();
        let ghost before = *self;
        let ghost state = resource.state();
        self.slots[slot] = Some(
            Slot { resource, links: 1, names: Ghost(Set::empty().insert(number)) },
        );
        self.numbers.insert(number, slot);
        proof {
            assert forall|j: int| #[trigger] self.live(j) implies self.counted(j) by {
                if j != slot {
                    assert(before.live(j));
                    assert(before.counted(j));
                }
            }
            assert forall|k: u32| #[trigger] self.numbers@.contains_key(k) implies self.live(
                self.numbers@[k] as int,
            ) && self.slots@[self.numbers@[k] as int].unwrap().names@.contains(k) by {
                if k != number {
                    assert(before.numbers@.contains_key(k));
                    assert(before.live(before.numbers@[k] as int));
                }
            }
            assert(self@.names =~= old(self)@.names.insert(number, slot as nat));
            assert(self@.resources =~= old(self)@.resources.insert(slot as nat, state));
        }
        Ghost(slot as nat)
    }

    /// Makes `number`, which names nothing yet, one more name of the
    /// resource in `slot`.
    fn link(&mut self, number: u32, slot: usize)
        requires
            old(self).wf(),
            !old(self)@.names.contains_key(number),
            old(self).live(slot as int),
        ensures
            final(self).wf(),
            final(self)@.names == old(self)@.names.insert(number, slot as nat),
            final(self)@.resources == old(self)@.resources,
    {
        assert(self.counted(slot as int));
        self.numbers.insert(number, slot);
        let count: usize = self.numbers.len();
        proof {
            let names = old(self).slots@[slot as int].unwrap().names@;
            assert(names.insert(number).subset_of(self.numbers@.dom()));
            lemma_len_subset(names.insert(number), self.numbers@.dom());
        }
        match &mut self.slots[slot] {
            Some(entry) => {
                entry.links = entry.links + 1;
                entry.names = Ghost(entry.names@.insert(number));
            },
            None => {
            },
        }
        proof {
            assert forall|j: int| #[trigger] self.live(j) implies self.counted(j) by {
                assert(old(self).live(j));
                assert(old(self).counted(j));
            }
            assert forall|k: u32| #[trigger] self.numbers@.contains_key(k) implies self.live(
                self.numbers@[k] as int,
            ) && self.slots@[self.numbers@[k] as int].unwrap().names@.contains(k) by {
                if k != number {
                    assert(old(self).numbers@.contains_key(k));
                    assert(old(self).live(old(self).numbers@[k] as int));
                }
            }
            assert(self@.names =~= old(self)@.names.insert(number, slot as nat));
            assert(self@.resources =~= old(self)@.resources);
        }
    }

    /// Takes the name `number` from its resource. Hands the resource out if
    /// no other number names it.
    fn unlink(&mut self, number: u32) -> (freed: Option<WasiFd<S>>)
        requires
            old(self).wf(),
            old(self)@.names.contains_key(number),
        ensures
            final(self).wf(),
            final(self)@ == old(self)@.close(Fd(number)),
            freed.is_some() == !named(old(self)@.names.remove(number), old(self)@.names[number]),
            freed.is_some() ==> freed.unwrap().state() == old(self)@.state(Fd(number)),
    {
        assert(self.numbers@.contains_key(number));
        let slot: usize = match self.numbers.remove(&number) {
            Some(slot) => slot,
            None => 0,
        };
        assert(old(self).live(slot as int));
        assert(old(self).counted(slot as int));
        let ghost names = old(self).slots@[slot as int].unwrap().names@;
        let last: bool = match &mut self.slots[slot] {
            Some(entry) => {
                entry.links = entry.links - 1;
                entry.names = Ghost(entry.names@.remove(number));
                entry.links == 0
            },
            None => false,
        };
        let freed = if last {
            match self.slots[slot].take() {
                Some(entry) => Some(entry.resource),
                None => None,
            }
        } else {
            None
        };
        proof {
            let rest = old(self)@.names.remove(number);
            assert(last == (names.remove(number).len() == 0));
            if !last {
                let other = names.remove(number).choose();
                assert(names.remove(number).contains(other));
                assert(rest.contains_key(other) && rest[other] == slot as nat);
            } else {
                if named(rest, slot as nat) {
                    let k = choose|k: u32| #[trigger] rest.contains_key(
                        k,
                    ) && rest[k] == slot as nat;
                    assert(old(self).numbers@.contains_key(k));
                    assert(names.remove(number).contains(k));
                }
            }
            assert forall|j: int| #[trigger] self.live(j) implies self.counted(j) by {
                assert(old(self).live(j));
                assert(old(self).counted(j));
            }
            assert forall|k: u32| #[trigger] self.numbers@.contains_key(k) implies self.live(
                self.numbers@[k] as int,
            ) && self.slots@[self.numbers@[k] as int].unwrap().names@.contains(k) by {
                assert(old(self).numbers@.contains_key(k));
                assert(old(self).live(old(self).numbers@[k] as int));
                if old(self).numbers@[k] == slot {
                    assert(names.remove(number).contains(k));
                }
            }
            assert(self@.names =~= rest);
            assert forall|id: nat| self@.resources.contains_key(id) <==> named_resources(
                rest,
                old(self)@.resources,
            ).contains_key(id) by {
                if self@.resources.contains_key(id) {
                    assert(self.live(id as int));
                    assert(self.counted(id as int));
                    let k = self.slots@[id as int].unwrap().names@.choose();
                    assert(self.slots@[id as int].unwrap().names@.contains(k));
                    assert(rest.contains_key(k) && rest[k] == id);
                }
                if named_resources(rest, old(self)@.resources).contains_key(id) {
                    let k = choose|k: u32| #[trigger] rest.contains_key(k) && rest[k] == id;
                    assert(self.numbers@.contains_key(k));
                }
            }
            assert(self@.resources =~= named_resources(rest, old(self)@.resources));
        }
        freed
    }

    /// Makes `fd` the one name of `resource`. If `fd` named a resource
    /// before, and was its last name, that resource is handed out.
    pub fn insert(&mut self, fd: Fd, resource: WasiFd<S>) -> (displaced: Option<WasiFd<S>>)
        requires
            old(self).wf(),
        ensures
            final(self).wf(),
            final(self)@.is_open(fd),
            final(self)@.state(fd) == resource.state(),
            exists|id: nat|
                !old(self)@.close(fd).resources.contains_key(id) && final(self)@
                    == #[trigger] old(self)@.close(fd).open(fd, id, resource.state()),
            displaced.is_some() == (old(self)@.is_open(fd) && !named(
                old(self)@.names.remove(fd.0),
                old(self)@.names[fd.0],
            )),
            displaced.is_some() ==> displaced.unwrap().state() == old(self)@.state(fd),
    {
        let displaced = if self.numbers.contains_key(&fd.0) {
            self.unlink(fd.0)
        } else {
            proof {
                self.lemma_consistent();
                assert(self@.names.remove(fd.0) =~= self@.names);
                assert(named_resources(self@.names, self@.resources) =~= self@.resources);
                assert(self@.close(fd) == self@);
            }
            None
        };
        let ghost before = self@;
        let id = self.install(fd.0, resource);
        proof {
            assert(Fd(fd.0) == fd);
            assert(before == old(self)@.close(fd));
            assert(self@ == old(self)@.close(fd).open(fd, id@, resource.state()));
        }
        displaced
    }

    /// Makes `candidate` the one name of `resource`, unless it names a
    /// resource already: then the table stays as it is and the resource is
    /// handed back.
    pub fn allocate_at(&mut self, candidate: Fd, resource: WasiFd<S>) -> (result: Result<
        Fd,
        WasiFd<S>,
    >)
        requires
            old(self).wf(),
        ensures
            final(self).wf(),
            match result {
                Ok(fd) => {
                    &&& fd == candidate
                    &&& !old(self)@.is_open(candidate)
                    &&& final(self)@.state(fd) == resource.state()
                    &&& exists|id: nat|
                        !old(self)@.resources.contains_key(id) && final(self)@
                            == #[trigger] old(self)@.open(candidate, id, resource.state())
                },
                Err(back) => {
                    &&& old(self)@.is_open(candidate)
                    &&& back == resource
                    &&& final(self)@ == old(self)@
                },
            },
    {
        if self.numbers.contains_key(&candidate.0) {
            Err(resource)
        } else {
            let id = self.install(candidate.0, resource);
            proof {
                assert(Fd(candidate.0) == candidate);
                assert(self@ == old(self)@.open(candidate, id@, resource.state()));
            }
            Ok(candidate)
        }
    }

    /// Closes `fd`. Fails with `Badf` where `fd` names no resource. The
    /// resource is handed out if `fd` was its last name.
    pub fn remove(&mut self, fd: Fd) -> (result: WasiResult<Option<WasiFd<S>>>)
        requires
            old(self).wf(),
        ensures
            final(self).wf(),
            match result {
                Ok(freed) => {
                    &&& old(self)@.is_open(fd)
                    &&& final(self)@ == old(self)@.close(fd)
                    &&& freed.is_some() == !named(
                        old(self)@.names.remove(fd.0),
                        old(self)@.names[fd.0],
                    )
                    &&& freed.is_some() ==> freed.unwrap().state() == old(self)@.state(fd)
                },
                Err(error) => {
                    &&& !old(self)@.is_open(fd)
                    &&& error == Errno::Badf
                    &&& final(self)@ == old(self)@
                },
            },
    {
        if self.numbers.contains_key(&fd.0) {
            Ok(self.unlink(fd.0))
        } else {
            Err(Errno::Badf)
        }
    }

    /// Makes `to` name the resource that `fd` names, and leaves `fd` as it
    /// is. Both must name a resource, unless they are the same number: then
    /// nothing is asked and nothing changes. The resource that `to` named is
    /// handed out if `to` was its last name.
    pub fn renumber(&mut self, fd: Fd, to: Fd) -> (result: WasiResult<Option<WasiFd<S>>>)
        requires
            old(self).wf(),
        ensures
            final(self).wf(),
            match result {
                Ok(displaced) => {
                    &&& fd == to || (old(self)@.is_open(fd) && old(self)@.is_open(to))
                    &&& final(self)@ == if fd == to {
                        old(self)@
                    } else {
                        old(self)@.renumber(fd, to)
                    }
                    &&& displaced.is_some() == (fd != to && !named(
                        old(self)@.names.insert(to.0, old(self)@.names[fd.0]),
                        old(self)@.names[to.0],
                    ))
                    &&& displaced.is_some() ==> displaced.unwrap().state() == old(self)@.state(to)
                },
                Err(error) => {
                    &&& fd != to
                    &&& !(old(self)@.is_open(fd) && old(self)@.is_open(to))
                    &&& error == Errno::Badf
                    &&& final(self)@ == old(self)@
                },
            },
    {
        if fd.0 == to.0 {
            return Ok(None);
        }
        let slot: usize = match self.numbers.get(&fd.0) {
            Some(slot) => *slot,
            None => {
                return Err(Errno::Badf);
            },
        };
        if !self.numbers.contains_key(&to.0) {
            return Err(Errno::Badf);
        }
        assert(self.numbers@.contains_key(fd.0));
        let displaced = self.unlink(to.0);
        proof {
            let rest = old(self)@.names.remove(to.0);
            assert(rest.contains_key(fd.0) && rest[fd.0] == slot as nat);
            assert(self@.resources.contains_key(slot as nat));
        }
        self.link(to.0, slot);
        proof {
            let rest = old(self)@.names.remove(to.0);
            let names = old(self)@.names.insert(to.0, slot as nat);
            let gone = old(self)@.names[to.0];
            assert(rest.insert(to.0, slot as nat) =~= names);
            assert forall|id: nat| named(rest, id) <==> named(names, id) by {
                if named(rest, id) {
                    let k = choose|k: u32| #[trigger] rest.contains_key(k) && rest[k] == id;
                    assert(names.contains_key(k) && names[k] == id);
                }
                if named(names, id) {
                    let k = choose|k: u32| #[trigger] names.contains_key(k) && names[k] == id;
                    if k == to.0 {
                        assert(rest.contains_key(fd.0) && rest[fd.0] == id);
                    } else {
                        assert(rest.contains_key(k) && rest[k] == id);
                    }
                }
            }
            assert(named_resources(rest, old(self)@.resources) =~= named_resources(
                names,
                old(self)@.resources,
            ));
        }
        Ok(displaced)
    }
}

} // verus!
