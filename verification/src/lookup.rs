//! The live lookup: the devices the audio server reports, by name.
//!
//! A snapshot of the server lists `(name, description)` pairs. The lookup
//! built from it holds each name once, at the place where the name was first
//! listed and with the description that was listed last. Entries leave the
//! lookup as remembered devices claim them; what stays are the devices that
//! were never seen before, still in the order of the snapshot.

use vstd::prelude::*;

verus! {

/// The description listed last under `name`, if the name is listed at all.
pub open spec fn lookup(entries: Seq<(Seq<char>, Seq<char>)>, name: Seq<char>) -> Option<
    Seq<char>,
>
    decreases entries.len(),
{
    if entries.len() == 0 {
        None
    } else if entries.last().0 == name {
        Some(entries.last().1)
    } else {
        lookup(entries.drop_last(), name)
    }
}

/// No name is listed twice.
pub open spec fn distinct_names(entries: Seq<(Seq<char>, Seq<char>)>) -> bool {
    forall|i: int, j: int|
        0 <= i < j < entries.len() ==> (#[trigger] entries[i]).0 != (#[trigger] entries[j]).0
}

/// `entries` after `name` was listed with `description`: a name that is
/// already there keeps its place and takes the new description, a new name
/// goes to the end.
pub open spec fn put(
    entries: Seq<(Seq<char>, Seq<char>)>,
    name: Seq<char>,
    description: Seq<char>,
) -> Seq<(Seq<char>, Seq<char>)> {
    if lookup(entries, name) is Some {
        entries.map_values(
            |e: (Seq<char>, Seq<char>)|
                if e.0 == name {
                    (name, description)
                } else {
                    e
                },
        )
    } else {
        entries.push((name, description))
    }
}

/// The lookup that a snapshot builds, entry by entry.
pub open spec fn lookup_of(live: Seq<(Seq<char>, Seq<char>)>) -> Seq<(Seq<char>, Seq<char>)>
    decreases live.len(),
{
    if live.len() == 0 {
        Seq::empty()
    } else {
        put(lookup_of(live.drop_last()), live.last().0, live.last().1)
    }
}

/// The entries whose name is not among `names`, in their order.
pub open spec fn unclaimed(entries: Seq<(Seq<char>, Seq<char>)>, names: Seq<Seq<char>>) -> Seq<
    (Seq<char>, Seq<char>),
>
    decreases entries.len(),
{
    if entries.len() == 0 {
        Seq::empty()
    } else if names.contains(entries.last().0) {
        unclaimed(entries.drop_last(), names)
    } else {
        unclaimed(entries.drop_last(), names).push(entries.last())
    }
}

/// Looking a name up after one more entry.
pub proof fn lemma_lookup_push(
    entries: Seq<(Seq<char>, Seq<char>)>,
    entry: (Seq<char>, Seq<char>),
    name: Seq<char>,
)
    ensures
        lookup(entries.push(entry), name) == if entry.0 == name {
            Some(entry.1)
        } else {
            lookup(entries, name)
        },
{
    assert(entries.push(entry).drop_last() =~= entries);
}

/// A hit names an entry of the list, and no later entry has that name.
pub proof fn lemma_lookup_hit(entries: Seq<(Seq<char>, Seq<char>)>, name: Seq<char>)
    requires
        lookup(entries, name) is Some,
    ensures
        exists|i: int|
            0 <= i < entries.len() && #[trigger] entries[i] == (name, lookup(entries, name).unwrap())
                && forall|j: int| i < j < entries.len() ==> (#[trigger] entries[j]).0 != name,
    decreases entries.len(),
{
    let last = entries.len() - 1;
    if entries.last().0 == name {
        assert(entries[last] == (name, lookup(entries, name).unwrap()));
    } else {
        let front = entries.drop_last();
        lemma_lookup_hit(front, name);
        let i = choose|i: int|
            0 <= i < front.len() && #[trigger] front[i] == (name, lookup(front, name).unwrap())
                && forall|j: int| i < j < front.len() ==> (#[trigger] front[j]).0 != name;
        assert(entries[i] == front[i]);
        assert forall|j: int| i < j < entries.len() implies (#[trigger] entries[j]).0 != name by {
            if j < last {
                assert(entries[j] == front[j]);
            }
        }
    }
}

/// A lookup misses exactly when no entry has the name.
pub proof fn lemma_lookup_miss(entries: Seq<(Seq<char>, Seq<char>)>, name: Seq<char>)
    ensures
        lookup(entries, name) is None <==> forall|i: int|
            0 <= i < entries.len() ==> (#[trigger] entries[i]).0 != name,
    decreases entries.len(),
{
    if entries.len() > 0 {
        let last = entries.len() - 1;
        let front = entries.drop_last();
        lemma_lookup_miss(front, name);
        if entries.last().0 == name {
            assert(entries[last].0 == name);
        } else if lookup(front, name) is None {
            assert forall|i: int| 0 <= i < entries.len() implies (#[trigger] entries[i]).0
                != name by {
                if i < last {
                    assert(entries[i] == front[i]);
                }
            }
        } else {
            let i = choose|i: int| 0 <= i < front.len() && (#[trigger] front[i]).0 == name;
            assert(entries[i] == front[i]);
        }
    }
}

/// Among distinct names a lookup finds the one entry of that name.
pub proof fn lemma_lookup_at(entries: Seq<(Seq<char>, Seq<char>)>, i: int)
    requires
        distinct_names(entries),
        0 <= i < entries.len(),
    ensures
        lookup(entries, entries[i].0) == Some(entries[i].1),
{
    let name = entries[i].0;
    lemma_lookup_miss(entries, name);
    lemma_lookup_hit(entries, name);
    let k = choose|k: int|
        0 <= k < entries.len() && #[trigger] entries[k] == (name, lookup(entries, name).unwrap())
            && forall|j: int| k < j < entries.len() ==> (#[trigger] entries[j]).0 != name;
    if k < i {
        assert(entries[k].0 != entries[i].0);
    } else if i < k {
        assert(entries[i].0 != entries[k].0);
    }
}

/// One more entry keeps the names distinct if its name is new.
pub proof fn lemma_distinct_push(
    entries: Seq<(Seq<char>, Seq<char>)>,
    entry: (Seq<char>, Seq<char>),
)
    requires
        distinct_names(entries),
        lookup(entries, entry.0) is None,
    ensures
        distinct_names(entries.push(entry)),
{
    lemma_lookup_miss(entries, entry.0);
    let longer = entries.push(entry);
    assert forall|i: int, j: int| 0 <= i < j < longer.len() implies (#[trigger] longer[i]).0 != (
    #[trigger] longer[j]).0 by {
        assert(longer[i] == entries[i]);
        if j < entries.len() {
            assert(longer[j] == entries[j]);
        }
    }
}

/// Without its last entry a list of distinct names is still one, and the
/// name of the last entry is not in it.
pub proof fn lemma_distinct_front(entries: Seq<(Seq<char>, Seq<char>)>)
    requires
        distinct_names(entries),
        entries.len() > 0,
    ensures
        distinct_names(entries.drop_last()),
        lookup(entries.drop_last(), entries.last().0) is None,
{
    let front = entries.drop_last();
    let last = entries.len() - 1;
    assert forall|i: int, j: int| 0 <= i < j < front.len() implies (#[trigger] front[i]).0 != (
    #[trigger] front[j]).0 by {
        assert(front[i] == entries[i]);
        assert(front[j] == entries[j]);
    }
    lemma_lookup_miss(front, entries.last().0);
    assert forall|i: int| 0 <= i < front.len() implies (#[trigger] front[i]).0
        != entries.last().0 by {
        assert(front[i] == entries[i]);
        assert(entries[i].0 != entries[last].0);
    }
}

/// Listing a name keeps the names distinct, gives that name the new
/// description and leaves every other name as it was.
pub proof fn lemma_put(
    entries: Seq<(Seq<char>, Seq<char>)>,
    name: Seq<char>,
    description: Seq<char>,
    other: Seq<char>,
)
    requires
        distinct_names(entries),
    ensures
        distinct_names(put(entries, name, description)),
        lookup(put(entries, name, description), other) == if other == name {
            Some(description)
        } else {
            lookup(entries, other)
        },
    decreases entries.len(),
{
    let after = put(entries, name, description);
    if lookup(entries, name) is Some {
        assert forall|i: int, j: int| 0 <= i < j < after.len() implies (#[trigger] after[i]).0 != (
        #[trigger] after[j]).0 by {
            assert(after[i].0 == entries[i].0);
            assert(after[j].0 == entries[j].0);
        }
        let last = entries.len() - 1;
        let front = entries.drop_last();
        lemma_distinct_front(entries);
        assert(after.last().0 == entries.last().0);
        if entries.last().0 == name {
            assert(after.last() == (name, description));
            if other != name {
                assert(after.drop_last() =~= front);
            }
        } else {
            lemma_put(front, name, description, other);
            assert(after.drop_last() =~= put(front, name, description));
            assert(after.last() == entries.last());
        }
    } else {
        lemma_distinct_push(entries, (name, description));
        lemma_lookup_push(entries, (name, description), other);
    }
}

/// The lookup of a snapshot lists each of its names once, with the
/// description that the snapshot lists last.
pub proof fn lemma_lookup_of(live: Seq<(Seq<char>, Seq<char>)>, name: Seq<char>)
    ensures
        distinct_names(lookup_of(live)),
        lookup(lookup_of(live), name) == lookup(live, name),
    decreases live.len(),
{
    if live.len() > 0 {
        lemma_lookup_of(live.drop_last(), name);
        lemma_put(lookup_of(live.drop_last()), live.last().0, live.last().1, name);
    }
}

/// Claiming names takes exactly those names out of the lookup.
pub proof fn lemma_unclaimed_lookup(
    entries: Seq<(Seq<char>, Seq<char>)>,
    names: Seq<Seq<char>>,
    name: Seq<char>,
)
    ensures
        lookup(unclaimed(entries, names), name) == if names.contains(name) {
            None
        } else {
            lookup(entries, name)
        },
    decreases entries.len(),
{
    if entries.len() > 0 {
        let front = entries.drop_last();
        lemma_unclaimed_lookup(front, names, name);
        if !names.contains(entries.last().0) {
            lemma_lookup_push(unclaimed(front, names), entries.last(), name);
        }
    }
}

/// Claiming names keeps the remaining names distinct.
pub proof fn lemma_unclaimed_distinct(entries: Seq<(Seq<char>, Seq<char>)>, names: Seq<Seq<char>>)
    requires
        distinct_names(entries),
    ensures
        distinct_names(unclaimed(entries, names)),
    decreases entries.len(),
{
    if entries.len() > 0 {
        let front = entries.drop_last();
        lemma_distinct_front(entries);
        lemma_unclaimed_distinct(front, names);
        if !names.contains(entries.last().0) {
            lemma_unclaimed_lookup(front, names, entries.last().0);
            lemma_distinct_push(unclaimed(front, names), entries.last());
        }
    }
}

/// With no name claimed the lookup is whole.
pub proof fn lemma_unclaimed_nothing(entries: Seq<(Seq<char>, Seq<char>)>)
    ensures
        unclaimed(entries, Seq::<Seq<char>>::empty()) == entries,
    decreases entries.len(),
{
    if entries.len() > 0 {
        lemma_unclaimed_nothing(entries.drop_last());
        assert(!Seq::<Seq<char>>::empty().contains(entries.last().0));
        assert(entries.drop_last().push(entries.last()) =~= entries);
    } else {
        assert(entries =~= Seq::empty());
    }
}

/// Claiming one more name after some others is claiming them all at once.
pub proof fn lemma_unclaimed_next(
    entries: Seq<(Seq<char>, Seq<char>)>,
    names: Seq<Seq<char>>,
    name: Seq<char>,
)
    ensures
        unclaimed(unclaimed(entries, names), seq![name]) == unclaimed(entries, names.push(name)),
    decreases entries.len(),
{
    if entries.len() > 0 {
        let front = entries.drop_last();
        let last = entries.last();
        lemma_unclaimed_next(front, names, name);
        let more = names.push(name);
        assert(seq![name][0] == name);
        assert(seq![name].contains(last.0) <==> last.0 == name);
        assert(more[names.len() as int] == name);
        assert(more.contains(last.0) <==> names.contains(last.0) || last.0 == name) by {
            if names.contains(last.0) {
                let i = choose|i: int| 0 <= i < names.len() && names[i] == last.0;
                assert(more[i] == last.0);
            }
            if more.contains(last.0) {
                let i = choose|i: int| 0 <= i < more.len() && more[i] == last.0;
                if i < names.len() {
                    assert(names[i] == last.0);
                }
            }
        }
        if !names.contains(last.0) {
            assert(unclaimed(front, names).push(last).drop_last() =~= unclaimed(front, names));
        }
    }
}

/// Claiming a name that is listed at `i` removes that entry; claiming a name
/// that is not listed changes nothing.
pub proof fn lemma_unclaimed_one(entries: Seq<(Seq<char>, Seq<char>)>, name: Seq<char>)
    requires
        distinct_names(entries),
    ensures
        lookup(entries, name) is None ==> unclaimed(entries, seq![name]) == entries,
        forall|i: int|
            0 <= i < entries.len() && (#[trigger] entries[i]).0 == name ==> unclaimed(
                entries,
                seq![name],
            ) == entries.remove(i),
    decreases entries.len(),
{
    if entries.len() > 0 {
        let front = entries.drop_last();
        let last = entries.last();
        let end = entries.len() - 1;
        lemma_distinct_front(entries);
        lemma_unclaimed_one(front, name);
        assert(seq![name][0] == name);
        assert(seq![name].contains(last.0) <==> last.0 == name);
        assert(front.push(last) =~= entries);
        if last.0 == name {
            assert(entries.remove(end) =~= front);
            assert forall|i: int| 0 <= i < entries.len() && (#[trigger] entries[i]).0
                == name implies i == end by {
                if i < end {
                    assert(entries[i].0 != entries[end].0);
                }
            }
        } else {
            assert forall|i: int| 0 <= i < entries.len() && (#[trigger] entries[i]).0
                == name implies unclaimed(entries, seq![name]) == entries.remove(i) by {
                assert(front[i] == entries[i]);
                assert(front.remove(i).push(last) =~= entries.remove(i));
            }
        }
    } else {
        assert(entries =~= Seq::empty());
    }
}

/// Where every name is claimed nothing is left.
pub proof fn lemma_unclaimed_all(entries: Seq<(Seq<char>, Seq<char>)>, names: Seq<Seq<char>>)
    requires
        forall|i: int| 0 <= i < entries.len() ==> names.contains((#[trigger] entries[i]).0),
    ensures
        unclaimed(entries, names) == Seq::<(Seq<char>, Seq<char>)>::empty(),
    decreases entries.len(),
{
    if entries.len() > 0 {
        let front = entries.drop_last();
        assert forall|i: int| 0 <= i < front.len() implies names.contains(
            (#[trigger] front[i]).0,
        ) by {
            assert(front[i] == entries[i]);
        }
        lemma_unclaimed_all(front, names);
        assert(names.contains(entries[entries.len() - 1].0));
    }
}

/// The live lookup while a registry is built from it.
pub struct DeviceLookup {
    entries: Vec<(String, String)>,
}

impl View for DeviceLookup {
    type V = Seq<(Seq<char>, Seq<char>)>;

    closed spec fn view(&self) -> Seq<(Seq<char>, Seq<char>)> {
        self.entries.deep_view()
    }
}

impl DeviceLookup {
    /// No name is held twice.
    pub open spec fn wf(&self) -> bool {
        distinct_names(self@)
    }

    /// A lookup without entries.
    pub fn new() -> (lookup: DeviceLookup)
        ensures
            lookup.wf(),
            lookup@ == Seq::<(Seq<char>, Seq<char>)>::empty(),
    {
        let lookup = DeviceLookup { entries: Vec::new() };
        assert(lookup@ =~= Seq::empty());
        lookup
    }

    /// Where `name` is held, if it is.
    fn position(&self, name: &String) -> (found: Option<usize>)
        ensures
            match found {
                Some(i) => i < self@.len() && self@[i as int].0 == name@,
                None => lookup(self@, name@) is None,
            },
    {
        let mut i: usize = 0;
        while i < self.entries.len()
            invariant
                i <= self.entries.len(),
                forall|j: int| 0 <= j < i ==> (#[trigger] self@[j]).0 != name@,
            decreases self.entries.len() - i,
        {
            if self.entries[i].0 == *name {
                return Some(i);
            }
            i += 1;
        }
        proof {
            lemma_lookup_miss(self@, name@);
        }
        None
    }

    /// Lists `name` with `description`: a name that is held keeps its place
    /// and takes the new description, a new name goes to the end.
    pub fn insert(&mut self, name: String, description: String)
        requires
            old(self).wf(),
        ensures
            final(self).wf(),
            final(self)@ == put(old(self)@, name@, description@),
    {
        let ghost before = self@;
        let ghost entry = (name@, description@);
        proof {
            lemma_put(before, entry.0, entry.1, entry.0);
            lemma_lookup_miss(before, entry.0);
        }
        match self.position(&name) {
            Some(i) => {
                self.entries.set(i, (name, description));
                proof {
                    let after = put(before, entry.0, entry.1);
                    assert forall|j: int| 0 <= j < before.len() implies #[trigger] self@[j]
                        == after[j] by {
                        if j < i {
                            assert(before[j].0 != before[i as int].0);
                        } else if j > i {
                            assert(before[i as int].0 != before[j].0);
                        }
                    }
                    assert(self@ =~= after);
                }
            },
            None => {
                self.entries.push((name, description));
                assert(self@ =~= before.push(entry));
            },
        }
    }

    /// Takes `name` out of the lookup and returns its description, or leaves
    /// the lookup as it is and returns `None` where the name is not held.
    pub fn remove(&mut self, name: &String) -> (description: Option<String>)
        requires
            old(self).wf(),
        ensures
            final(self).wf(),
            final(self)@ == unclaimed(old(self)@, seq![name@]),
            description.deep_view() == lookup(old(self)@, name@),
    {
        let ghost before = self@;
        proof {
            lemma_unclaimed_one(before, name@);
            lemma_unclaimed_distinct(before, seq![name@]);
        }
        match self.position(name) {
            Some(i) => {
                proof {
                    lemma_lookup_at(before, i as int);
                }
                let entry = self.entries.remove(i);
                assert(self@ =~= before.remove(i as int));
                Some(entry.1)
            },
            None => None,
        }
    }

    /// The lookup that a snapshot of the server builds.
    pub fn from_snapshot(live: &Vec<(String, String)>) -> (lookup: DeviceLookup)
        ensures
            lookup.wf(),
            lookup@ == lookup_of(live.deep_view()),
    {
        let mut lookup = DeviceLookup::new();
        let mut i: usize = 0;
        while i < live.len()
            invariant
                i <= live.len(),
                lookup.wf(),
                lookup@ == lookup_of(live.deep_view().take(i as int)),
            decreases live.len() - i,
        {
            lookup.insert(live[i].0.clone(), live[i].1.clone());
            proof {
                let prefix = live.deep_view().take(i + 1);
                assert(prefix.drop_last() =~= live.deep_view().take(i as int));
                assert(prefix.last() == live.deep_view()[i as int]);
            }
            i += 1;
        }
        proof {
            assert(live.deep_view().take(live.len() as int) =~= live.deep_view());
        }
        lookup
    }

    /// The entries that are left, in their order.
    pub fn into_entries(self) -> (entries: Vec<(String, String)>)
        ensures
            entries.deep_view() == self@,
    {
        self.entries
    }
}

} // verus!
