//! A small in-memory table keyed by strings, with a `Map` view.
//!
//! This models the shape shared by the tracking tables (one row per
//! migration id, primary key on the name column) and by the manager's
//! registry of already-executed sets: a list of rows with unique keys,
//! read and replaced by key.

use vstd::prelude::*;

verus! {

/// The map described by a row list: later rows win, though under
/// [`unique_keys`] at most one row carries any key.
pub open spec fn map_of<V>(rows: Seq<(String, V)>) -> Map<Seq<char>, V>
    decreases rows.len(),
{
    if rows.len() == 0 {
        Map::empty()
    } else {
        map_of(rows.drop_last()).insert(rows.last().0@, rows.last().1)
    }
}

/// No two rows carry the same key: the primary-key invariant.
pub open spec fn unique_keys<V>(rows: Seq<(String, V)>) -> bool {
    forall|i: int, j: int| 0 <= i < j < rows.len() ==> rows[i].0@ != rows[j].0@
}

proof fn lemma_unique_keys_drop_last<V>(rows: Seq<(String, V)>)
    requires
        unique_keys(rows),
        rows.len() > 0,
    ensures
        unique_keys(rows.drop_last()),
{
    assert forall|i: int, j: int|
        0 <= i < j < rows.drop_last().len() implies rows.drop_last()[i].0@
        != rows.drop_last()[j].0@ by {
        assert(rows[i].0@ != rows[j].0@);
    }
}

proof fn lemma_map_of_absent_key<V>(rows: Seq<(String, V)>, k: Seq<char>)
    requires
        forall|i: int| 0 <= i < rows.len() ==> rows[i].0@ != k,
    ensures
        !map_of(rows).contains_key(k),
    decreases rows.len(),
{
    if rows.len() > 0 {
        lemma_map_of_absent_key(rows.drop_last(), k);
        assert(rows[rows.len() - 1].0@ != k);
    }
}

proof fn lemma_map_of_row<V>(rows: Seq<(String, V)>, i: int)
    requires
        unique_keys(rows),
        0 <= i < rows.len(),
    ensures
        map_of(rows).contains_key(rows[i].0@),
        map_of(rows)[rows[i].0@] == rows[i].1,
    decreases rows.len(),
{
    if i == rows.len() - 1 {
    } else {
        lemma_unique_keys_drop_last(rows);
        assert(rows.drop_last()[i] == rows[i]);
        lemma_map_of_row(rows.drop_last(), i);
        assert(rows.last().0@ != rows[i].0@);
    }
}

proof fn lemma_map_of_update<V>(rows: Seq<(String, V)>, i: int, kv: (String, V))
    requires
        unique_keys(rows),
        0 <= i < rows.len(),
        kv.0@ == rows[i].0@,
    ensures
        unique_keys(rows.update(i, kv)),
        map_of(rows.update(i, kv)) == map_of(rows).insert(kv.0@, kv.1),
    decreases rows.len(),
{
    let updated = rows.update(i, kv);
    assert forall|p: int, q: int|
        0 <= p < q < updated.len() implies updated[p].0@ != updated[q].0@ by {
        assert(rows[p].0@ != rows[q].0@);
    }
    if i == rows.len() - 1 {
        assert(updated.drop_last() =~= rows.drop_last());
        assert(map_of(updated) =~= map_of(rows).insert(kv.0@, kv.1));
    } else {
        lemma_unique_keys_drop_last(rows);
        assert(rows.drop_last()[i] == rows[i]);
        lemma_map_of_update(rows.drop_last(), i, kv);
        assert(updated.drop_last() =~= rows.drop_last().update(i, kv));
        assert(updated.last() == rows.last());
        assert(rows.last().0@ != kv.0@);
        assert(map_of(updated) =~= map_of(rows).insert(kv.0@, kv.1));
    }
}

proof fn lemma_map_of_remove<V>(rows: Seq<(String, V)>, i: int)
    requires
        unique_keys(rows),
        0 <= i < rows.len(),
    ensures
        unique_keys(rows.remove(i)),
        map_of(rows.remove(i)) == map_of(rows).remove(rows[i].0@),
    decreases rows.len(),
{
    let removed = rows.remove(i);
    assert forall|p: int, q: int|
        0 <= p < q < removed.len() implies removed[p].0@ != removed[q].0@ by {
        let p0 = if p < i { p } else { p + 1 };
        let q0 = if q < i { q } else { q + 1 };
        assert(removed[p] == rows[p0]);
        assert(removed[q] == rows[q0]);
        assert(rows[p0].0@ != rows[q0].0@);
    }
    lemma_unique_keys_drop_last(rows);
    if i == rows.len() - 1 {
        assert(removed =~= rows.drop_last());
        assert forall|j: int| 0 <= j < rows.drop_last().len() implies rows.drop_last()[j].0@
            != rows[i].0@ by {
            assert(rows[j].0@ != rows[i].0@);
        }
        lemma_map_of_absent_key(rows.drop_last(), rows[i].0@);
        assert(map_of(removed) =~= map_of(rows).remove(rows[i].0@));
    } else {
        assert(rows.drop_last()[i] == rows[i]);
        lemma_map_of_remove(rows.drop_last(), i);
        assert(removed.drop_last() =~= rows.drop_last().remove(i));
        assert(removed.last() == rows.last());
        assert(rows.last().0@ != rows[i].0@);
        assert(map_of(removed) =~= map_of(rows).remove(rows[i].0@));
    }
}

/// An in-memory table of `(key, value)` rows with unique keys, viewed
/// as a map from key characters to values.
pub struct Table<V> {
    rows: Vec<(String, V)>,
}

impl<V> Table<V> {
    pub closed spec fn view(&self) -> Map<Seq<char>, V> {
        map_of(self.rows@)
    }

    /// The primary-key invariant: one row per key.
    pub closed spec fn wf(&self) -> bool {
        unique_keys(self.rows@)
    }

    /// An empty table.
    pub fn new() -> (t: Self)
        ensures
            t.wf(),
            t@ == Map::<Seq<char>, V>::empty(),
    {
        Table { rows: Vec::new() }
    }

    fn find_index(&self, key: &String) -> (r: Option<usize>)
        ensures
            match r {
                Some(i) => i < self.rows@.len() && self.rows@[i as int].0@ == key@,
                None => forall|j: int| 0 <= j < self.rows@.len() ==> self.rows@[j].0@ != key@,
            },
    {
        let mut i: usize = 0;
        while i < self.rows.len()
            invariant
                i <= self.rows@.len(),
                forall|j: int| 0 <= j < i ==> self.rows@[j].0@ != key@,
            decreases self.rows@.len() - i,
        {
            if self.rows[i].0 == *key {
                return Some(i);
            }
            i = i + 1;
        }
        None
    }

    /// Looks a key up, returning its value if a row carries it.
    pub fn get(&self, key: &String) -> (r: Option<&V>)
        requires
            self.wf(),
        ensures
            match r {
                Some(v) => self@.contains_key(key@) && *v == self@[key@],
                None => !self@.contains_key(key@),
            },
    {
        match self.find_index(key) {
            Some(i) => {
                proof {
                    lemma_map_of_row(self.rows@, i as int);
                }
                Some(&self.rows[i].1)
            },
            None => {
                proof {
                    lemma_map_of_absent_key(self.rows@, key@);
                }
                None
            },
        }
    }

    /// Writes a value for a key, replacing the row that carries the key
    /// if one exists: the upsert the tracking schema performs.
    pub fn set(&mut self, key: &String, value: V)
        requires
            old(self).wf(),
        ensures
            final(self).wf(),
            final(self)@ == old(self)@.insert(key@, value),
    {
        let new_key = key.clone();
        match self.find_index(key) {
            Some(i) => {
                proof {
                    lemma_map_of_update(self.rows@, i as int, (new_key, value));
                }
                self.rows.set(i, (new_key, value));
            },
            None => {
                proof {
                    let kv = (new_key, value);
                    let pushed = self.rows@.push(kv);
                    assert(pushed.drop_last() =~= self.rows@);
                    assert(pushed.last() == kv);
                    assert forall|p: int, q: int|
                        0 <= p < q < pushed.len() implies pushed[p].0@ != pushed[q].0@ by {
                        if q < pushed.len() - 1 {
                            assert(self.rows@[p].0@ != self.rows@[q].0@);
                        } else {
                            assert(self.rows@[p].0@ != key@);
                        }
                    }
                }
                self.rows.push((new_key, value));
            },
        }
    }

    /// Deletes the row that carries a key, if one exists.
    pub fn remove(&mut self, key: &String)
        requires
            old(self).wf(),
        ensures
            final(self).wf(),
            final(self)@ == old(self)@.remove(key@),
    {
        match self.find_index(key) {
            Some(i) => {
                proof {
                    lemma_map_of_remove(self.rows@, i as int);
                }
                self.rows.remove(i);
            },
            None => {
                proof {
                    lemma_map_of_absent_key(self.rows@, key@);
                    assert(map_of(self.rows@) =~= map_of(self.rows@).remove(key@));
                }
            },
        }
    }
}

} // verus!
