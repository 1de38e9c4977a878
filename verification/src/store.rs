//! In-memory record store with atomic single-row operations.
//!
//! One store holds the rows of one media kind, keyed by an auto-assigned
//! numeric id, each owned by one user. Its abstraction is a map from id to
//! the owner and the row's mathematical view.

use vstd::prelude::*;

verus! {

/// Map described by an ordered list of `(id, owner, row)` entries.
pub open spec fn spec_rows_map<R: View>(rows: Seq<(i64, i64, R)>) -> Map<i64, (i64, R::V)>
    decreases rows.len(),
{
    if rows.len() == 0 {
        Map::empty()
    } else {
        spec_rows_map(rows.drop_last()).insert(
            rows.last().0,
            (rows.last().1, rows.last().2@),
        )
    }
}

/// Ids strictly increase along the row list.
pub open spec fn rows_sorted<R: View>(rows: Seq<(i64, i64, R)>) -> bool {
    forall|i: int, j: int| 0 <= i < j < rows.len() ==> rows[i].0 < rows[j].0
}

proof fn lemma_rows_map_contains<R: View>(rows: Seq<(i64, i64, R)>, key: i64)
    ensures
        spec_rows_map(rows).contains_key(key) <==> exists|i: int|
            0 <= i < rows.len() && #[trigger] rows[i].0 == key,
    decreases rows.len(),
{
    if rows.len() > 0 {
        lemma_rows_map_contains(rows.drop_last(), key);
        if rows.last().0 == key {
            assert(rows[rows.len() - 1].0 == key);
        } else if spec_rows_map(rows).contains_key(key) {
            let i = choose|i: int| 0 <= i < rows.drop_last().len() && #[trigger] rows.drop_last()[i].0 == key;
            assert(rows[i].0 == key);
        } else {
            assert forall|i: int| 0 <= i < rows.len() && #[trigger] rows[i].0 == key implies false by {
                if i < rows.len() - 1 {
                    assert(rows.drop_last()[i].0 == key);
                }
            }
        }
    }
}

proof fn lemma_rows_map_index<R: View>(rows: Seq<(i64, i64, R)>, i: int)
    requires
        rows_sorted(rows),
        0 <= i < rows.len(),
    ensures
        spec_rows_map(rows).contains_key(rows[i].0),
        spec_rows_map(rows)[rows[i].0] == (rows[i].1, rows[i].2@),
    decreases rows.len(),
{
    lemma_rows_map_contains(rows, rows[i].0);
    if i < rows.len() - 1 {
        assert(rows[i].0 < rows.last().0);
        assert(rows.drop_last()[i] == rows[i]);
        lemma_rows_map_index(rows.drop_last(), i);
    }
}

proof fn lemma_rows_map_update<R: View>(rows: Seq<(i64, i64, R)>, i: int, row: (i64, i64, R))
    requires
        rows_sorted(rows),
        0 <= i < rows.len(),
        row.0 == rows[i].0,
    ensures
        spec_rows_map(rows.update(i, row)) == spec_rows_map(rows).insert(row.0, (row.1, row.2@)),
    decreases rows.len(),
{
    let updated = rows.update(i, row);
    if i == rows.len() - 1 {
        assert(updated.drop_last() =~= rows.drop_last());
        assert(spec_rows_map(updated) =~= spec_rows_map(rows).insert(row.0, (row.1, row.2@)));
    } else {
        assert(updated.drop_last() =~= rows.drop_last().update(i, row));
        assert(rows.drop_last()[i] == rows[i]);
        lemma_rows_map_update(rows.drop_last(), i, row);
        assert(rows[i].0 < rows.last().0);
        assert(updated.last() == rows.last());
        assert(spec_rows_map(updated) =~= spec_rows_map(rows).insert(row.0, (row.1, row.2@)));
    }
}

proof fn lemma_rows_map_remove<R: View>(rows: Seq<(i64, i64, R)>, i: int)
    requires
        rows_sorted(rows),
        0 <= i < rows.len(),
    ensures
        spec_rows_map(rows.remove(i)) == spec_rows_map(rows).remove(rows[i].0),
    decreases rows.len(),
{
    let shorter = rows.remove(i);
    if i == rows.len() - 1 {
        assert(shorter =~= rows.drop_last());
        lemma_rows_map_contains(rows.drop_last(), rows[i].0);
        assert forall|j: int| 0 <= j < rows.drop_last().len() implies #[trigger] rows.drop_last()[j].0
            != rows[i].0 by {
            assert(rows[j].0 < rows[i].0);
        }
        assert(!spec_rows_map(rows.drop_last()).contains_key(rows[i].0));
        assert(spec_rows_map(shorter) =~= spec_rows_map(rows).remove(rows[i].0));
    } else {
        assert(shorter.drop_last() =~= rows.drop_last().remove(i));
        assert(rows.drop_last()[i] == rows[i]);
        lemma_rows_map_remove(rows.drop_last(), i);
        assert(rows[i].0 < rows.last().0);
        assert(shorter.last() == rows.last());
        assert(spec_rows_map(shorter) =~= spec_rows_map(rows).remove(rows[i].0));
    }
}

pub struct Store<R: View> {
    rows: Vec<(i64, i64, R)>,
    next_id: i64,
}

impl<R: View> View for Store<R> {
    type V = Map<i64, (i64, R::V)>;

    closed spec fn view(&self) -> Map<i64, (i64, R::V)> {
        spec_rows_map(self.rows@)
    }
}

impl<R: View> Store<R> {
    /// Internal consistency: ids strictly increase and stay below the next
    /// id to be assigned.
    pub closed spec fn wf(&self) -> bool {
        &&& 1 <= self.next_id
        &&& rows_sorted(self.rows@)
        &&& forall|i: int| 0 <= i < self.rows@.len() ==> 1 <= #[trigger] self.rows@[i].0
            < self.next_id
    }

    /// The id the next insert will assign.
    pub closed spec fn next_id_spec(&self) -> i64 {
        self.next_id
    }

    proof fn lemma_fresh_key_absent(&self, key: i64)
        requires
            self.wf(),
            key >= self.next_id,
        ensures
            !self@.contains_key(key),
    {
        lemma_rows_map_contains(self.rows@, key);
    }

    pub fn new() -> (s: Store<R>)
        ensures
            s.wf(),
            s@ == Map::<i64, (i64, R::V)>::empty(),
            s.next_id_spec() == 1,
    {
        Store { rows: Vec::new(), next_id: 1 }
    }

    /// Add a new row and return its freshly assigned id.
    pub fn insert_row(&mut self, owner: i64, row: R) -> (id: i64)
        requires
            old(self).wf(),
            old(self).next_id_spec() < i64::MAX,
        ensures
            final(self).wf(),
            id == old(self).next_id_spec(),
            !old(self)@.contains_key(id),
            final(self)@ == old(self)@.insert(id, (owner, row@)),
            final(self).next_id_spec() == id + 1,
    {
        let id = self.next_id;
        proof {
            self.lemma_fresh_key_absent(id);
        }
        self.next_id = id + 1;
        self.rows.push((id, owner, row));
        proof {
            assert(self.rows@.drop_last() =~= old(self).rows@);
            assert(self@ =~= old(self)@.insert(id, (owner, row@)));
        }
        id
    }

    /// Look a row up by id.
    pub fn find_row(&self, id: i64) -> (r: Option<&R>)
        requires
            self.wf(),
        ensures
            match r {
                Some(row) => self@.contains_key(id) && row@ == self@[id].1,
                None => !self@.contains_key(id),
            },
    {
        let n = self.rows.len();
        let mut i: usize = 0;
        while i < n
            invariant
                self.wf(),
                n == self.rows@.len(),
                0 <= i <= n,
                forall|j: int| 0 <= j < i ==> #[trigger] self.rows@[j].0 != id,
            decreases n - i,
        {
            if self.rows[i].0 == id {
                proof {
                    lemma_rows_map_index(self.rows@, i as int);
                }
                return Some(&self.rows[i].2);
            }
            i += 1;
        }
        proof {
            lemma_rows_map_contains(self.rows@, id);
        }
        None
    }

    /// Replace the row with this id, keeping its owner; a miss changes
    /// nothing.
    pub fn replace_row(&mut self, id: i64, row: R) -> (found: bool)
        requires
            old(self).wf(),
        ensures
            final(self).wf(),
            final(self).next_id_spec() == old(self).next_id_spec(),
            found <==> old(self)@.contains_key(id),
            found ==> final(self)@ == old(self)@.insert(id, (old(self)@[id].0, row@)),
            !found ==> final(self)@ == old(self)@,
    {
        let n = self.rows.len();
        let mut i: usize = 0;
        while i < n
            invariant
                self.wf(),
                self == old(self),
                n == self.rows@.len(),
                0 <= i <= n,
                forall|j: int| 0 <= j < i ==> #[trigger] self.rows@[j].0 != id,
            decreases n - i,
        {
            if self.rows[i].0 == id {
                let owner = self.rows[i].1;
                proof {
                    lemma_rows_map_index(self.rows@, i as int);
                }
                self.rows[i] = (id, owner, row);
                proof {
                    lemma_rows_map_update(old(self).rows@, i as int, (id, owner, row));
                }
                return true;
            }
            i += 1;
        }
        proof {
            lemma_rows_map_contains(self.rows@, id);
        }
        false
    }

    /// Delete the row with this id; a miss changes nothing.
    pub fn remove_row(&mut self, id: i64) -> (found: bool)
        requires
            old(self).wf(),
        ensures
            final(self).wf(),
            final(self).next_id_spec() == old(self).next_id_spec(),
            found <==> old(self)@.contains_key(id),
            final(self)@ == old(self)@.remove(id),
    {
        let n = self.rows.len();
        let mut i: usize = 0;
        while i < n
            invariant
                self.wf(),
                self == old(self),
                n == self.rows@.len(),
                0 <= i <= n,
                forall|j: int| 0 <= j < i ==> #[trigger] self.rows@[j].0 != id,
            decreases n - i,
        {
            if self.rows[i].0 == id {
                proof {
                    lemma_rows_map_index(self.rows@, i as int);
                    lemma_rows_map_remove(self.rows@, i as int);
                }
                self.rows.remove(i);
                return true;
            }
            i += 1;
        }
        proof {
            lemma_rows_map_contains(self.rows@, id);
            assert(self@.remove(id) =~= self@);
        }
        false
    }
}

} // verus!
