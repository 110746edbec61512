//! A table of the live children of a scope.
//!
//! Each child registers one end of a signal channel here and receives an id that
//! it later uses to unregister itself. Ids come from a counter and are never
//! reused, so an id names at most one registration during the life of the table.

use vstd::prelude::*;

verus! {

/// Ids of `entries` are strictly increasing, so no id occurs twice.
pub open spec fn ids_increasing<T>(entries: Seq<(u64, T)>) -> bool {
    forall|i: int, j: int| 0 <= i < j < entries.len() ==> #[trigger] entries[i].0 < #[trigger] entries[j].0
}

/// Whether some entry of `entries` carries `id`.
pub open spec fn has_id<T>(entries: Seq<(u64, T)>, id: u64) -> bool {
    exists|i: int| 0 <= i < entries.len() && #[trigger] entries[i].0 == id
}

/// Where in `entries` the entry with `id` stands (meaningful when there is one).
pub open spec fn index_of<T>(entries: Seq<(u64, T)>, id: u64) -> int {
    choose|i: int| 0 <= i < entries.len() && #[trigger] entries[i].0 == id
}

/// The value registered under `id` in `entries`, if any.
pub open spec fn lookup<T>(entries: Seq<(u64, T)>, id: u64) -> Option<T> {
    if has_id(entries, id) {
        Some(entries[index_of(entries, id)].1)
    } else {
        None
    }
}

/// `entries` without the entry with `id`, the others in their order.
pub open spec fn without<T>(entries: Seq<(u64, T)>, id: u64) -> Seq<(u64, T)> {
    if has_id(entries, id) {
        entries.remove(index_of(entries, id))
    } else {
        entries
    }
}

/// The values of `entries`, in order.
pub open spec fn values_of<T>(entries: Seq<(u64, T)>) -> Seq<T> {
    entries.map_values(|e: (u64, T)| e.1)
}

/// Unregistering undoes registering: right after a value is registered under
/// the next id, looking that id up finds the value, and removing it gives back
/// the table as it was.
pub proof fn unregister_undoes_register<T>(r: Registry<T>, value: T)
    requires
        r.wf(),
    ensures
        lookup(r@.push((r.next_id(), value)), r.next_id()) == Some(value),
        without(r@.push((r.next_id(), value)), r.next_id()) == r@,
{
    let id = r.next_id();
    let after = r@.push((id, value));
    let last = r@.len() as int;
    assert(after[last].0 == id);
    let j = index_of(after, id);
    assert(0 <= j < after.len() && after[j].0 == id);
    if j < last {
        assert(after[j] == r@[j]);
    }
    assert(j == last);
    assert(after.remove(last) =~= r@);
}

/// Ids are never reused: every id in a table lies below the next id, every
/// later registration gets the next id or a greater one (the next id only
/// grows), so it never gets the id of a present or removed registration.
pub proof fn ids_are_not_reused<T>(r: Registry<T>, later: Registry<T>, id: u64)
    requires
        r.wf(),
        r.contains_id(id) || id < r.next_id(),
        later.next_id() >= r.next_id(),
    ensures
        id < later.next_id(),
        id != later.next_id(),
{
}

/// Unregistering one id leaves every other registration as it was.
pub proof fn unregister_leaves_others<T>(entries: Seq<(u64, T)>, id: u64, other: u64)
    requires
        ids_increasing(entries),
        other != id,
    ensures
        lookup(without(entries, id), other) == lookup(entries, other),
{
    if has_id(entries, id) {
        let i = index_of(entries, id);
        let rest = entries.remove(i);
        if has_id(entries, other) {
            let k = index_of(entries, other);
            assert(k != i);
            let k2 = if k < i { k } else { k - 1 };
            assert(rest[k2] == entries[k]);
            assert(has_id(rest, other));
            let m = index_of(rest, other);
            let m2 = if m < i { m } else { m + 1 };
            assert(rest[m] == entries[m2]);
            if m2 < k {
                assert(entries[m2].0 < entries[k].0);
            } else if m2 > k {
                assert(entries[k].0 < entries[m2].0);
            }
        } else {
            if has_id(rest, other) {
                let m = index_of(rest, other);
                let m2 = if m < i { m } else { m + 1 };
                assert(rest[m] == entries[m2]);
                assert(false);
            }
        }
    }
}

/// Registered children of a scope, in the order in which they registered.
pub struct Registry<T> {
    entries: Vec<(u64, T)>,
    next: u64,
}

impl<T> View for Registry<T> {
    type V = Seq<(u64, T)>;

    closed spec fn view(&self) -> Seq<(u64, T)> {
        self.entries@
    }
}

impl<T> Registry<T> {
    /// The id that the next registration will receive.
    pub closed spec fn next_id(&self) -> u64 {
        self.next
    }

    /// Ids are unique, in registration order, and all below the next id.
    pub open spec fn wf(&self) -> bool {
        &&& ids_increasing(self@)
        &&& forall|i: int| 0 <= i < self@.len() ==> #[trigger] self@[i].0 < self.next_id()
    }

    #[verifier::type_invariant]
    closed spec fn registry_invariant(self) -> bool {
        self.wf()
    }

    /// Whether a registration with `id` is present.
    pub open spec fn contains_id(&self, id: u64) -> bool {
        has_id(self@, id)
    }

    /// An empty table.
    pub fn new() -> (r: Self)
        ensures
            r.wf(),
            r@ == Seq::<(u64, T)>::empty(),
            r.next_id() == 0,
    {
        Registry { entries: Vec::new(), next: 0 }
    }

    /// Number of live registrations.
    pub fn len(&self) -> (n: usize)
        ensures
            self.wf(),
            n == self@.len(),
    {
        proof {
            use_type_invariant(self);
        }
        self.entries.len()
    }

    /// Registers `value` under a fresh id and returns that id.
    pub fn insert(&mut self, value: T) -> (id: u64)
        requires
            old(self).next_id() < u64::MAX,
        ensures
            old(self).wf(),
            final(self).wf(),
            id == old(self).next_id(),
            !old(self).contains_id(id),
            final(self).next_id() == id + 1,
            final(self)@ == old(self)@.push((id, value)),
    {
        proof {
            use_type_invariant(&*self);
        }
        let id = self.next;
        let mut entries: Vec<(u64, T)> = Vec::new();
        std::mem::swap(&mut entries, &mut self.entries);
        entries.push((id, value));
        self.next = id + 1;
        self.entries = entries;
        id
    }

    /// Whether a registration with `id` is present.
    pub fn contains(&self, id: u64) -> (b: bool)
        ensures
            self.wf(),
            b == self.contains_id(id),
    {
        proof {
            use_type_invariant(self);
        }
        let n = self.entries.len();
        let mut i: usize = 0;
        while i < n
            invariant
                n == self@.len(),
                0 <= i <= n,
                forall|k: int| 0 <= k < i ==> #[trigger] self@[k].0 != id,
                self.wf(),
            decreases n - i,
        {
            if self.entries[i].0 == id {
                return true;
            }
            i = i + 1;
        }
        false
    }

    /// Unregisters `id`, handing back what was registered under it, or `None`
    /// (and no change) when nothing is.
    pub fn remove(&mut self, id: u64) -> (r: Option<T>)
        ensures
            old(self).wf(),
            final(self).wf(),
            final(self).next_id() == old(self).next_id(),
            r == lookup(old(self)@, id),
            final(self)@ == without(old(self)@, id),
            !final(self).contains_id(id),
    {
        proof {
            use_type_invariant(&*self);
        }
        let mut entries: Vec<(u64, T)> = Vec::new();
        std::mem::swap(&mut entries, &mut self.entries);
        let ghost before = entries@;
        let n = entries.len();
        let mut i: usize = 0;
        while i < n
            invariant
                n == entries@.len(),
                0 <= i <= n,
                forall|k: int| 0 <= k < i ==> #[trigger] entries@[k].0 != id,
                entries@ == before,
                before == old(self)@,
                ids_increasing(before),
                forall|k: int| 0 <= k < before.len() ==> #[trigger] before[k].0 < old(self).next_id(),
                self.next_id() == old(self).next_id(),
                self@ == Seq::<(u64, T)>::empty(),
            decreases n - i,
        {
            if entries[i].0 == id {
                let e = entries.remove(i);
                proof {
                    assert(before[i as int] == e);
                    let j = index_of(before, id);
                    assert(0 <= j < before.len() && before[j].0 == id);
                    if j < i {
                        assert(before[j].0 < before[i as int].0);
                    } else if j > i {
                        assert(before[i as int].0 < before[j].0);
                    }
                    assert forall|k: int| 0 <= k < entries@.len() implies #[trigger] entries@[k].0 != id by {
                        if k < i {
                            assert(entries@[k] == before[k]);
                        } else {
                            assert(entries@[k] == before[k + 1]);
                            assert(before[i as int].0 < before[k + 1].0);
                        }
                    }
                    assert forall|a: int, b: int| 0 <= a < b < entries@.len() implies #[trigger] entries@[a].0 < #[trigger] entries@[b].0 by {
                        let a2 = if a < i { a } else { a + 1 };
                        let b2 = if b < i { b } else { b + 1 };
                        assert(entries@[a] == before[a2]);
                        assert(entries@[b] == before[b2]);
                        assert(before[a2].0 < before[b2].0);
                    }
                    assert forall|k: int| 0 <= k < entries@.len() implies #[trigger] entries@[k].0 < self.next_id() by {
                        let k2 = if k < i { k } else { k + 1 };
                        assert(entries@[k] == before[k2]);
                    }
                }
                self.entries = entries;
                return Some(e.1);
            }
            i = i + 1;
        }
        self.entries = entries;
        None
    }

    /// Drops every registration. Ids are still not reused.
    pub fn clear(&mut self)
        ensures
            old(self).wf(),
            final(self).wf(),
            final(self)@ == Seq::<(u64, T)>::empty(),
            final(self).next_id() == old(self).next_id(),
    {
        proof {
            use_type_invariant(&*self);
        }
        self.entries = Vec::new();
    }

    /// Takes every registered value out, in registration order, and leaves the
    /// table empty. Ids are still not reused.
    pub fn take_all(&mut self) -> (vals: Vec<T>)
        ensures
            old(self).wf(),
            final(self).wf(),
            final(self)@ == Seq::<(u64, T)>::empty(),
            final(self).next_id() == old(self).next_id(),
            vals@ == values_of(old(self)@),
    {
        proof {
            use_type_invariant(&*self);
        }
        let mut taken: Vec<(u64, T)> = Vec::new();
        std::mem::swap(&mut taken, &mut self.entries);
        let ghost all = taken@;
        let mut vals: Vec<T> = Vec::new();
        while taken.len() > 0
            invariant
                all.len() == vals@.len() + taken@.len(),
                taken@ == all.subrange(vals@.len() as int, all.len() as int),
                vals@ == values_of(all.subrange(0, vals@.len() as int)),
            decreases taken@.len(),
        {
            let ghost k = vals@.len() as int;
            let e = taken.remove(0);
            assert(e == all[k]);
            vals.push(e.1);
            assert(all.subrange(0, k + 1) == all.subrange(0, k).push(all[k]));
            assert(values_of(all.subrange(0, k + 1)) == values_of(all.subrange(0, k)).push(all[k].1));
            assert(taken@ == all.subrange(k + 1, all.len() as int));
        }
        assert(all.subrange(0, all.len() as int) == all);
        vals
    }

    /// The id that the next registration will receive.
    pub fn next(&self) -> (id: u64)
        ensures
            id == self.next_id(),
    {
        self.next
    }

    /// Whether another registration can still receive a fresh id.
    pub fn has_room(&self) -> (b: bool)
        ensures
            self.wf(),
            b == (self.next_id() < u64::MAX),
    {
        proof {
            use_type_invariant(self);
        }
        self.next < u64::MAX
    }
}

} // verus!
