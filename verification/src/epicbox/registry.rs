//! Values under text keys, at most one for each key.

use vstd::prelude::*;

use crate::text::same_text;

verus! {

/// Values under text keys, at most one for each key.
pub struct Registry<V> {
    entries: Vec<(String, V)>,
}

impl<V> View for Registry<V> {
    type V = Map<Seq<char>, V>;

    closed spec fn view(&self) -> Map<Seq<char>, V> {
        Map::new(
            |key: Seq<char>| exists|i: int| self.holds_at(key, i),
            |key: Seq<char>| self.entries@[choose|i: int| self.holds_at(key, i)].1,
        )
    }
}

impl<V> Registry<V> {
    /// Whether the entry at `i` has this key.
    spec fn holds_at(&self, key: Seq<char>, i: int) -> bool {
        0 <= i < self.entries@.len() && self.entries@[i].0@ == key
    }

    /// Whether no key occurs twice.
    pub closed spec fn well_formed(&self) -> bool {
        forall|i: int, j: int|
            0 <= i < j < self.entries@.len() ==> self.entries@[i].0@ != self.entries@[j].0@
    }

    /// A key is in the view with the value of its one entry.
    proof fn lemma_view(&self, i: int)
        requires
            self.well_formed(),
            0 <= i < self.entries@.len(),
        ensures
            self@.contains_key(self.entries@[i].0@),
            self@[self.entries@[i].0@] == self.entries@[i].1,
    {
        let key = self.entries@[i].0@;
        assert(self.holds_at(key, i));
        let chosen = choose|j: int| self.holds_at(key, j);
        assert(self.holds_at(key, chosen));
        assert(chosen == i);
    }

    /// A registry without values.
    pub fn new() -> (res: Self)
        ensures
            res.well_formed(),
            res@ == Map::<Seq<char>, V>::empty(),
    {
        let res = Registry { entries: Vec::new() };
        assert(res@ =~= Map::<Seq<char>, V>::empty());
        res
    }

    /// Where the entry with this key stands.
    fn position(&self, key: &str) -> (res: Option<usize>)
        requires
            self.well_formed(),
        ensures
            match res {
                Some(i) => self.holds_at(key@, i as int) && self@.contains_key(key@) && self@[key@]
                    == self.entries@[i as int].1,
                None => !self@.contains_key(key@) && forall|i: int| !self.holds_at(key@, i),
            },
    {
        let mut i: usize = 0;
        while i < self.entries.len()
            invariant
                self.well_formed(),
                i <= self.entries@.len(),
                forall|j: int| 0 <= j < i ==> self.entries@[j].0@ != key@,
            decreases self.entries@.len() - i,
        {
            if same_text(self.entries[i].0.as_str(), key) {
                proof {
                    self.lemma_view(i as int);
                }
                return Some(i);
            }
            i = i + 1;
        }
        None
    }

    /// Takes the value under `key` out, if there is one.
    pub fn remove(&mut self, key: &str) -> (res: Option<V>)
        requires
            old(self).well_formed(),
        ensures
            final(self).well_formed(),
            final(self)@ == old(self)@.remove(key@),
            match res {
                Some(value) => old(self)@.contains_key(key@) && value == old(self)@[key@],
                None => !old(self)@.contains_key(key@),
            },
    {
        let ghost before = *self;
        match self.position(key) {
            Some(i) => {
                let entry = self.entries.remove(i);
                proof {
                    lemma_removed(before, *self, i as int);
                }
                Some(entry.1)
            },
            None => {
                assert(self@.remove(key@) =~= self@);
                None
            },
        }
    }

    /// Puts `value` under `key`, in the place of the value that was there.
    pub fn insert(&mut self, key: &str, value: V) -> (res: Option<V>)
        requires
            old(self).well_formed(),
        ensures
            final(self).well_formed(),
            final(self)@ == old(self)@.insert(key@, value),
            match res {
                Some(value) => old(self)@.contains_key(key@) && value == old(self)@[key@],
                None => !old(self)@.contains_key(key@),
            },
    {
        let previous = self.remove(key);
        let ghost before = *self;
        self.entries.push((String::from_str(key), value));
        proof {
            assert(self.entries@.drop_last() =~= before.entries@);
            lemma_added(before, *self, key@, value);
            assert(old(self)@.remove(key@).insert(key@, value) =~= old(self)@.insert(key@, value));
        }
        previous
    }

    /// The value under `key`, if there is one.
    pub fn get(&self, key: &str) -> (res: Option<&V>)
        requires
            self.well_formed(),
        ensures
            match res {
                Some(value) => self@.contains_key(key@) && *value == self@[key@],
                None => !self@.contains_key(key@),
            },
    {
        match self.position(key) {
            Some(i) => Some(&self.entries[i].1),
            None => None,
        }
    }
}

/// Removing the entry at `i` removes its key and nothing else.
proof fn lemma_removed<V>(before: Registry<V>, after: Registry<V>, i: int)
    requires
        before.well_formed(),
        0 <= i < before.entries@.len(),
        after.entries@ == before.entries@.remove(i),
    ensures
        after.well_formed(),
        after@ == before@.remove(before.entries@[i].0@),
{
    let gone = before.entries@[i].0@;
    assert forall|j: int, k: int| 0 <= j < k < after.entries@.len() implies after.entries@[j].0@
        != after.entries@[k].0@ by {
        let a = if j < i { j } else { j + 1 };
        let b = if k < i { k } else { k + 1 };
        assert(after.entries@[j] == before.entries@[a] && after.entries@[k] == before.entries@[b]);
    }
    assert forall|key: Seq<char>| after@.contains_key(key) <==> before@.remove(gone).contains_key(key) by {
        if after@.contains_key(key) {
            let j = choose|j: int| after.holds_at(key, j);
            let a = if j < i { j } else { j + 1 };
            assert(after.entries@[j] == before.entries@[a]);
            before.lemma_view(a);
            assert(key != gone);
        }
        if before@.contains_key(key) && key != gone {
            let a = choose|a: int| before.holds_at(key, a);
            let j = if a < i { a } else { a - 1 };
            assert(after.entries@[j] == before.entries@[a]);
            after.lemma_view(j);
        }
    }
    assert forall|key: Seq<char>| after@.contains_key(key) implies after@[key] == before@[key] by {
        let j = choose|j: int| after.holds_at(key, j);
        let a = if j < i { j } else { j + 1 };
        assert(after.entries@[j] == before.entries@[a]);
        before.lemma_view(a);
        after.lemma_view(j);
    }
    assert(after@ =~= before@.remove(gone));
}

/// Adding an entry with a new key adds that key and nothing else.
proof fn lemma_added<V>(before: Registry<V>, after: Registry<V>, key: Seq<char>, value: V)
    requires
        before.well_formed(),
        !before@.contains_key(key),
        after.entries@.len() == before.entries@.len() + 1,
        after.entries@.drop_last() == before.entries@,
        after.entries@.last().0@ == key,
        after.entries@.last().1 == value,
    ensures
        after.well_formed(),
        after@ == before@.insert(key, value),
{
    let last = before.entries@.len() as int;
    assert forall|j: int| 0 <= j < last implies #[trigger] before.entries@[j].0@ != key && after.entries@[j]
        == before.entries@[j] by {
        before.lemma_view(j);
        assert(after.entries@.drop_last()[j] == after.entries@[j]);
    }
    assert forall|i: int, j: int| 0 <= i < j < after.entries@.len() implies after.entries@[i].0@
        != after.entries@[j].0@ by {
        assert(after.entries@[i] == before.entries@[i]);
        if j < last {
            assert(after.entries@[j] == before.entries@[j]);
        } else {
            assert(before.entries@[i].0@ != key);
        }
    }
    assert forall|k: Seq<char>| after@.contains_key(k) <==> before@.insert(key, value).contains_key(k) by {
        if after@.contains_key(k) {
            let j = choose|j: int| after.holds_at(k, j);
            if j < last {
                before.lemma_view(j);
            }
        }
        if before@.contains_key(k) {
            let j = choose|j: int| before.holds_at(k, j);
            after.lemma_view(j);
        }
        after.lemma_view(last);
    }
    assert forall|k: Seq<char>| after@.contains_key(k) implies after@[k] == before@.insert(key, value)[k] by {
        let j = choose|j: int| after.holds_at(k, j);
        after.lemma_view(j);
        if j < last {
            before.lemma_view(j);
        }
    }
    assert(after@ =~= before@.insert(key, value));
}

} // verus!
