//! A map keyed by name, kept as a list in which no name occurs twice.

use vstd::prelude::*;

verus! {

struct Entry<V> {
    name: String,
    value: V,
}

/// A finite map from names to values. Names are compared character by
/// character.
pub struct NameMap<V> {
    entries: Vec<Entry<V>>,
}

spec fn holds<V>(entries: Seq<Entry<V>>, name: Seq<char>) -> bool {
    exists|i: int| 0 <= i < entries.len() && #[trigger] entries[i].name@ == name
}

spec fn position_of<V>(entries: Seq<Entry<V>>, name: Seq<char>) -> int {
    choose|i: int| 0 <= i < entries.len() && #[trigger] entries[i].name@ == name
}

spec fn distinct<V>(entries: Seq<Entry<V>>) -> bool {
    forall|i: int, j: int|
        0 <= i < j < entries.len() ==> #[trigger] entries[i].name@ != #[trigger] entries[j].name@
}

spec fn as_map<V>(entries: Seq<Entry<V>>) -> Map<Seq<char>, V> {
    Map::new(
        |name: Seq<char>| holds(entries, name),
        |name: Seq<char>| entries[position_of(entries, name)].value,
    )
}

proof fn lemma_entry_is_mapped<V>(entries: Seq<Entry<V>>, i: int)
    requires
        distinct(entries),
        0 <= i < entries.len(),
    ensures
        holds(entries, entries[i].name@),
        position_of(entries, entries[i].name@) == i,
        as_map(entries).contains_key(entries[i].name@),
        as_map(entries)[entries[i].name@] == entries[i].value,
{
    let name = entries[i].name@;
    assert(holds(entries, name));
    let j = position_of(entries, name);
    assert(0 <= j < entries.len() && entries[j].name@ == name);
    if i < j {
        assert(entries[i].name@ != entries[j].name@);
    }
    if j < i {
        assert(entries[j].name@ != entries[i].name@);
    }
}

proof fn lemma_push_is_insert<V>(entries: Seq<Entry<V>>, entry: Entry<V>)
    requires
        distinct(entries),
        !holds(entries, entry.name@),
    ensures
        distinct(entries.push(entry)),
        as_map(entries.push(entry)) == as_map(entries).insert(entry.name@, entry.value),
{
    let grown = entries.push(entry);
    assert(distinct(grown)) by {
        assert forall|i: int, j: int| 0 <= i < j < grown.len() implies #[trigger] grown[i].name@
            != #[trigger] grown[j].name@ by {
            if j == entries.len() {
                assert(entries[i].name@ != entry.name@);
            } else {
                assert(entries[i].name@ != entries[j].name@);
            }
        }
    }
    let wanted = as_map(entries).insert(entry.name@, entry.value);
    assert forall|name: Seq<char>| as_map(grown).contains_key(name) <==> wanted.contains_key(
        name,
    ) by {
        if holds(grown, name) {
            let i = position_of(grown, name);
            if i < entries.len() {
                assert(entries[i].name@ == name);
            }
        }
        if holds(entries, name) {
            let i = position_of(entries, name);
            assert(grown[i].name@ == name);
        }
        if name == entry.name@ {
            assert(grown[entries.len() as int].name@ == name);
        }
    }
    assert forall|name: Seq<char>| as_map(grown).contains_key(name) implies as_map(grown)[name]
        == wanted[name] by {
        let i = position_of(grown, name);
        lemma_entry_is_mapped(grown, i);
        if i < entries.len() {
            lemma_entry_is_mapped(entries, i);
        }
    }
    assert(as_map(grown) =~= wanted);
}

proof fn lemma_remove_is_remove<V>(entries: Seq<Entry<V>>, i: int)
    requires
        distinct(entries),
        0 <= i < entries.len(),
    ensures
        distinct(entries.remove(i)),
        !holds(entries.remove(i), entries[i].name@),
        as_map(entries.remove(i)) == as_map(entries).remove(entries[i].name@),
{
    let rest = entries.remove(i);
    let gone = entries[i].name@;
    assert forall|k: int| 0 <= k < rest.len() implies #[trigger] rest[k] == entries[if k < i {
        k
    } else {
        k + 1
    }] by {}
    assert(distinct(rest)) by {
        assert forall|a: int, b: int| 0 <= a < b < rest.len() implies #[trigger] rest[a].name@
            != #[trigger] rest[b].name@ by {
            let a0 = if a < i { a } else { a + 1 };
            let b0 = if b < i { b } else { b + 1 };
            assert(entries[a0].name@ != entries[b0].name@);
        }
    }
    assert(!holds(rest, gone)) by {
        if holds(rest, gone) {
            let k = position_of(rest, gone);
            let k0 = if k < i { k } else { k + 1 };
            assert(entries[k0].name@ == gone);
            if k0 < i {
                assert(entries[k0].name@ != entries[i].name@);
            } else {
                assert(entries[i].name@ != entries[k0].name@);
            }
        }
    }
    let wanted = as_map(entries).remove(gone);
    assert forall|name: Seq<char>| as_map(rest).contains_key(name) <==> wanted.contains_key(
        name,
    ) by {
        if holds(rest, name) {
            let k = position_of(rest, name);
            let k0 = if k < i { k } else { k + 1 };
            assert(entries[k0].name@ == name);
        }
        if holds(entries, name) && name != gone {
            let k0 = position_of(entries, name);
            let k = if k0 < i { k0 } else { k0 - 1 };
            assert(rest[k].name@ == name);
        }
    }
    assert forall|name: Seq<char>| as_map(rest).contains_key(name) implies as_map(rest)[name]
        == wanted[name] by {
        let k = position_of(rest, name);
        let k0 = if k < i { k } else { k + 1 };
        lemma_entry_is_mapped(rest, k);
        lemma_entry_is_mapped(entries, k0);
    }
    assert(as_map(rest) =~= wanted);
}

proof fn lemma_as_many_names_as_entries<V>(entries: Seq<Entry<V>>)
    requires
        distinct(entries),
    ensures
        as_map(entries).dom().finite(),
        as_map(entries).dom().len() == entries.len(),
    decreases entries.len(),
{
    if entries.len() == 0 {
        assert(as_map(entries).dom() =~= Set::<Seq<char>>::empty());
    } else {
        let front = entries.drop_last();
        let last = entries.last();
        assert(entries =~= front.push(last));
        assert(distinct(front)) by {
            assert forall|i: int, j: int| 0 <= i < j < front.len() implies #[trigger] front[i].name@
                != #[trigger] front[j].name@ by {
                assert(entries[i].name@ != entries[j].name@);
            }
        }
        assert(!holds(front, last.name@)) by {
            if holds(front, last.name@) {
                let i = position_of(front, last.name@);
                assert(entries[i].name@ != entries[entries.len() - 1].name@);
            }
        }
        lemma_as_many_names_as_entries(front);
        lemma_push_is_insert(front, last);
        assert(as_map(entries).dom() =~= as_map(front).dom().insert(last.name@));
    }
}

impl<V> View for NameMap<V> {
    type V = Map<Seq<char>, V>;

    closed spec fn view(&self) -> Map<Seq<char>, V> {
        as_map(self.entries@)
    }
}

impl<V> NameMap<V> {
    /// No name occurs twice in the list behind the map.
    pub closed spec fn wf(&self) -> bool {
        distinct(self.entries@)
    }

    /// How many names the map holds.
    pub closed spec fn spec_len(&self) -> nat {
        self.entries@.len()
    }

    /// The name in the `i`-th place of the list behind the map.
    pub closed spec fn name_at(&self, i: int) -> Seq<char> {
        self.entries@[i].name@
    }

    /// The value in the `i`-th place of the list behind the map.
    pub closed spec fn value_at(&self, i: int) -> V {
        self.entries@[i].value
    }

    /// The places of the list are exactly the pairs of the map.
    pub open spec fn listed(&self) -> bool {
        &&& forall|i: int|
            0 <= i < self.spec_len() ==> self@.contains_key(#[trigger] self.name_at(i)) && self@[self.name_at(
                i,
            )] == self.value_at(i)
        &&& forall|name: Seq<char>|
            self@.contains_key(name) ==> exists|i: int|
                0 <= i < self.spec_len() && #[trigger] self.name_at(i) == name
        &&& forall|i: int, j: int|
            0 <= i < j < self.spec_len() ==> #[trigger] self.name_at(i) != #[trigger] self.name_at(j)
    }

    pub fn new() -> (map: Self)
        ensures
            map.wf(),
            map@ == Map::<Seq<char>, V>::empty(),
    {
        let map = NameMap { entries: Vec::new() };
        assert(map@ =~= Map::<Seq<char>, V>::empty());
        map
    }

    fn position(&self, name: &str) -> (found: Option<usize>)
        ensures
            match found {
                Some(i) => i < self.entries@.len() && self.entries@[i as int].name@ == name@,
                None => !holds(self.entries@, name@),
            },
    {
        let key = name.to_owned();
        let mut i: usize = 0;
        while i < self.entries.len()
            invariant
                i <= self.entries@.len(),
                key@ == name@,
                forall|j: int| 0 <= j < i ==> (#[trigger] self.entries@[j]).name@ != name@,
            decreases self.entries@.len() - i,
        {
            if self.entries[i].name == key {
                return Some(i);
            }
            i += 1;
        }
        None
    }

    /// In a well-formed map the places of the list are the pairs of the map.
    pub proof fn lemma_listed(&self)
        requires
            self.wf(),
        ensures
            self.listed(),
    {
        let entries = self.entries@;
        assert forall|i: int| 0 <= i < self.spec_len() implies self@.contains_key(
            #[trigger] self.name_at(i),
        ) && self@[self.name_at(i)] == self.value_at(i) by {
            lemma_entry_is_mapped(entries, i);
        }
        assert forall|name: Seq<char>| self@.contains_key(name) implies exists|i: int|
            0 <= i < self.spec_len() && #[trigger] self.name_at(i) == name by {
            let i = position_of(entries, name);
            assert(0 <= i < self.spec_len() && self.name_at(i) == name);
        }
    }

    /// The number of names in the map.
    pub fn len(&self) -> (n: usize)
        requires
            self.wf(),
        ensures
            n == self.spec_len(),
            self@.dom().finite(),
            n == self@.dom().len(),
    {
        proof {
            lemma_as_many_names_as_entries(self.entries@);
        }
        self.entries.len()
    }

    /// The value in the `i`-th place of the list.
    pub fn value(&self, i: usize) -> (value: &V)
        requires
            i < self.spec_len(),
        ensures
            *value == self.value_at(i as int),
    {
        &self.entries[i].value
    }

    pub fn contains(&self, name: &str) -> (found: bool)
        requires
            self.wf(),
        ensures
            found == self@.contains_key(name@),
    {
        self.position(name).is_some()
    }

    pub fn get(&self, name: &str) -> (value: Option<&V>)
        requires
            self.wf(),
        ensures
            match value {
                Some(value) => self@.contains_key(name@) && *value == self@[name@],
                None => !self@.contains_key(name@),
            },
    {
        match self.position(name) {
            Some(i) => {
                proof {
                    lemma_entry_is_mapped(self.entries@, i as int);
                }
                Some(&self.entries[i].value)
            },
            None => None,
        }
    }

    /// Mutable access to the value under `name`. Whatever the caller leaves
    /// there is the value under `name` afterwards; nothing else changes.
    pub fn get_mut(&mut self, name: &str) -> (value: Option<&mut V>)
        requires
            old(self).wf(),
        ensures
            final(self).wf(),
            match value {
                Some(value) => old(self)@.contains_key(name@) && *value == old(self)@[name@]
                    && final(self)@ == old(self)@.insert(name@, *final(value)),
                None => !old(self)@.contains_key(name@) && final(self)@ == old(self)@,
            },
    {
        match self.position(name) {
            Some(i) => {
                proof {
                    lemma_entry_is_mapped(self.entries@, i as int);
                }
                let ghost before = self.entries@;
                let entry = &mut self.entries[i];
                let value = &mut entry.value;
                proof {
                    let after = before.update(
                        i as int,
                        Entry { name: before[i as int].name, value: *final(value) },
                    );
                    assert(distinct(after)) by {
                        assert forall|a: int, b: int| 0 <= a < b < after.len() implies #[trigger] after[a].name@
                            != #[trigger] after[b].name@ by {
                            assert(before[a].name@ != before[b].name@);
                        }
                    }
                    let wanted = as_map(before).insert(name@, *final(value));
                    assert forall|k: Seq<char>| as_map(after).contains_key(k)
                        <==> wanted.contains_key(k) by {
                        if holds(after, k) {
                            let j = position_of(after, k);
                            assert(before[j].name@ == k);
                        }
                        if holds(before, k) {
                            let j = position_of(before, k);
                            assert(after[j].name@ == k);
                        }
                    }
                    assert forall|k: Seq<char>| as_map(after).contains_key(k) implies as_map(
                        after,
                    )[k] == wanted[k] by {
                        let j = position_of(after, k);
                        lemma_entry_is_mapped(after, j);
                        lemma_entry_is_mapped(before, j);
                    }
                    assert(as_map(after) =~= wanted);
                }
                Some(value)
            },
            None => None,
        }
    }

    /// Puts `value` under `name`, and hands back what was there before.
    pub fn insert(&mut self, name: &str, value: V) -> (replaced: Option<V>)
        requires
            old(self).wf(),
        ensures
            final(self).wf(),
            final(self)@ == old(self)@.insert(name@, value),
            match replaced {
                Some(previous) => old(self)@.contains_key(name@) && previous == old(self)@[name@],
                None => !old(self)@.contains_key(name@),
            },
    {
        let ghost before = self.entries@;
        let replaced = match self.position(name) {
            Some(i) => {
                proof {
                    lemma_entry_is_mapped(before, i as int);
                    lemma_remove_is_remove(before, i as int);
                }
                Some(self.entries.remove(i).value)
            },
            None => None,
        };
        let entry = Entry { name: name.to_owned(), value };
        proof {
            lemma_push_is_insert(self.entries@, entry);
            assert(as_map(before).remove(name@).insert(name@, value) =~= as_map(before).insert(
                name@,
                value,
            ));
        }
        self.entries.push(entry);
        replaced
    }

    /// Takes `name` out of the map, and hands back what was under it.
    pub fn remove(&mut self, name: &str) -> (removed: Option<V>)
        requires
            old(self).wf(),
        ensures
            final(self).wf(),
            final(self)@ == old(self)@.remove(name@),
            match removed {
                Some(value) => old(self)@.contains_key(name@) && value == old(self)@[name@],
                None => !old(self)@.contains_key(name@),
            },
    {
        match self.position(name) {
            Some(i) => {
                proof {
                    lemma_entry_is_mapped(self.entries@, i as int);
                    lemma_remove_is_remove(self.entries@, i as int);
                }
                Some(self.entries.remove(i).value)
            },
            None => {
                assert(self@.remove(name@) =~= self@);
                None
            },
        }
    }

    pub fn clear(&mut self)
        ensures
            final(self).wf(),
            final(self)@ == Map::<Seq<char>, V>::empty(),
    {
        self.entries.clear();
        assert(self@ =~= Map::<Seq<char>, V>::empty());
    }
}

} // verus!
