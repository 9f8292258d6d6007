//! A keyed table of records: the storage behind one kind of contract entry.
//!
//! Rows are kept in a vector with no two rows under the same key; the table is
//! seen as the finite map from each row's key to the row.
use vstd::prelude::*;

verus! {

/// A record that is stored under a key which it carries itself.
pub trait Row: View + Sized {
    /// The executable form of the key.
    type Key;
    /// The mathematical form of the key.
    type KeyView;

    /// The mathematical form of an executable key.
    spec fn key_view(key: &Self::Key) -> Self::KeyView;

    /// The key under which a record with this view is stored.
    spec fn row_key(row: Self::V) -> Self::KeyView;

    /// Whether this record is stored under `key`.
    fn has_key(&self, key: &Self::Key) -> (b: bool)
        ensures
            b == (Self::row_key(self@) == Self::key_view(key)),
    ;
}

/// A table of rows, at most one per key.
pub struct Table<R> {
    rows: Vec<R>,
}

/// Whether some row of `rows` is stored under `k`.
pub open spec fn seq_has_key<R: Row>(rows: Seq<R>, k: R::KeyView) -> bool {
    exists|i: int| 0 <= i < rows.len() && R::row_key(#[trigger] rows[i]@) == k
}

/// The position of a row of `rows` stored under `k`, when there is one.
pub open spec fn seq_key_pos<R: Row>(rows: Seq<R>, k: R::KeyView) -> int {
    choose|i: int| 0 <= i < rows.len() && R::row_key(#[trigger] rows[i]@) == k
}

/// No two rows of `rows` share a key.
pub open spec fn seq_keys_distinct<R: Row>(rows: Seq<R>) -> bool {
    forall|i: int, j: int|
        0 <= i < rows.len() && 0 <= j < rows.len() && i != j ==> R::row_key(#[trigger] rows[i]@)
            != R::row_key(#[trigger] rows[j]@)
}

/// The map from key to row that a sequence of rows stands for.
pub open spec fn seq_map<R: Row>(rows: Seq<R>) -> Map<R::KeyView, R::V> {
    Map::new(|k: R::KeyView| seq_has_key(rows, k), |k: R::KeyView| rows[seq_key_pos(rows, k)]@)
}

/// With distinct keys, the row at position `i` is the one the map holds under its key.
pub proof fn lemma_seq_map_at<R: Row>(rows: Seq<R>, i: int)
    requires
        seq_keys_distinct(rows),
        0 <= i < rows.len(),
    ensures
        seq_map(rows).contains_key(R::row_key(rows[i]@)),
        seq_map(rows)[R::row_key(rows[i]@)] == rows[i]@,
{
    let k = R::row_key(rows[i]@);
    assert(seq_has_key(rows, k));
    let p = seq_key_pos(rows, k);
    assert(0 <= p < rows.len() && R::row_key(rows[p]@) == k);
    assert(p == i);
}

impl<R: Row> Table<R> {
    /// No two rows share a key.
    pub closed spec fn wf(&self) -> bool {
        seq_keys_distinct(self.rows@)
    }

    /// The map from key to row.
    pub closed spec fn contents(&self) -> Map<R::KeyView, R::V> {
        seq_map(self.rows@)
    }

    /// An empty table.
    pub fn new() -> (t: Self)
        ensures
            t.wf(),
            t.contents() == Map::<R::KeyView, R::V>::empty(),
    {
        let t = Table { rows: Vec::new() };
        assert(t.contents() =~= Map::<R::KeyView, R::V>::empty());
        t
    }

    /// The position of the row stored under `key`, if there is one.
    fn find(&self, key: &R::Key) -> (pos: Option<usize>)
        requires
            self.wf(),
        ensures
            match pos {
                Some(i) => i < self.rows@.len() && R::row_key(self.rows@[i as int]@) == R::key_view(
                    key,
                ),
                None => !self.contents().contains_key(R::key_view(key)),
            },
    {
        let mut i: usize = 0;
        while i < self.rows.len()
            invariant
                i <= self.rows@.len(),
                forall|j: int| 0 <= j < i ==> R::row_key(#[trigger] self.rows@[j]@) != R::key_view(key),
            decreases self.rows@.len() - i,
        {
            if self.rows[i].has_key(key) {
                return Some(i);
            }
            i = i + 1;
        }
        None
    }

    /// The row stored under `key`, if there is one.
    pub fn get(&self, key: &R::Key) -> (row: Option<&R>)
        requires
            self.wf(),
        ensures
            match row {
                Some(r) => self.contents().contains_key(R::key_view(key)) && self.contents()[R::key_view(key)] == r@
                    && R::row_key(r@) == R::key_view(key),
                None => !self.contents().contains_key(R::key_view(key)),
            },
    {
        match self.find(key) {
            Some(i) => {
                proof {
                    lemma_seq_map_at(self.rows@, i as int);
                }
                Some(&self.rows[i])
            },
            None => None,
        }
    }

    /// Whether a row is stored under `key`.
    pub fn contains(&self, key: &R::Key) -> (b: bool)
        requires
            self.wf(),
        ensures
            b == self.contents().contains_key(R::key_view(key)),
    {
        match self.find(key) {
            Some(i) => {
                proof {
                    lemma_seq_map_at(self.rows@, i as int);
                }
                true
            },
            None => false,
        }
    }

    /// Stores `row` under `key`, in place of any row stored there before.
    pub fn put(&mut self, key: &R::Key, row: R)
        requires
            old(self).wf(),
            R::row_key(row@) == R::key_view(key),
        ensures
            final(self).wf(),
            final(self).contents() == old(self).contents().insert(R::key_view(key), row@),
    {
        let ghost k = R::key_view(key);
        let ghost old_rows = self.rows@;
        match self.find(key) {
            Some(i) => {
                self.rows.set(i, row);
                proof {
                    let new_rows = self.rows@;
                    assert(seq_keys_distinct(new_rows)) by {
                        assert forall|a: int, b: int|
                            0 <= a < new_rows.len() && 0 <= b < new_rows.len() && a != b implies R::row_key(
                            #[trigger] new_rows[a]@,
                        ) != R::row_key(#[trigger] new_rows[b]@) by {
                            assert(R::row_key(old_rows[a]@) != R::row_key(old_rows[b]@));
                            assert(R::row_key(new_rows[a]@) == R::row_key(old_rows[a]@));
                            assert(R::row_key(new_rows[b]@) == R::row_key(old_rows[b]@));
                        }
                    }
                    let m_old = seq_map(old_rows);
                    let m_new = seq_map(new_rows);
                    assert forall|kk: R::KeyView| #[trigger]
                        m_new.contains_key(kk) == m_old.insert(k, row@).contains_key(kk) by {
                        if seq_has_key(new_rows, kk) {
                            let p = choose|p: int| 0 <= p < new_rows.len() && R::row_key(#[trigger] new_rows[p]@) == kk;
                            if p != i {
                                assert(old_rows[p] == new_rows[p]);
                            }
                        }
                        if seq_has_key(old_rows, kk) {
                            let p = choose|p: int| 0 <= p < old_rows.len() && R::row_key(#[trigger] old_rows[p]@) == kk;
                            assert(R::row_key(new_rows[p]@) == kk);
                        }
                        if kk == k {
                            assert(R::row_key(new_rows[i as int]@) == k);
                        }
                    }
                    assert forall|kk: R::KeyView| #[trigger] m_new.contains_key(kk) implies m_new[kk]
                        == m_old.insert(k, row@)[kk] by {
                        let p = choose|p: int| 0 <= p < new_rows.len() && R::row_key(#[trigger] new_rows[p]@) == kk;
                        lemma_seq_map_at(new_rows, p);
                        if p != i {
                            assert(old_rows[p] == new_rows[p]);
                            lemma_seq_map_at(old_rows, p);
                        }
                    }
                    assert(m_new =~= m_old.insert(k, row@));
                }
            },
            None => {
                self.rows.push(row);
                proof {
                    let new_rows = self.rows@;
                    let n = old_rows.len() as int;
                    assert(seq_keys_distinct(new_rows)) by {
                        assert forall|a: int, b: int|
                            0 <= a < new_rows.len() && 0 <= b < new_rows.len() && a != b implies R::row_key(
                            #[trigger] new_rows[a]@,
                        ) != R::row_key(#[trigger] new_rows[b]@) by {
                            if a < n && b < n {
                                assert(new_rows[a] == old_rows[a]);
                                assert(new_rows[b] == old_rows[b]);
                            } else if a < n {
                                assert(new_rows[a] == old_rows[a]);
                                assert(!seq_has_key(old_rows, k));
                            } else if b < n {
                                assert(new_rows[b] == old_rows[b]);
                                assert(!seq_has_key(old_rows, k));
                            }
                        }
                    }
                    let m_old = seq_map(old_rows);
                    let m_new = seq_map(new_rows);
                    assert forall|kk: R::KeyView| #[trigger]
                        m_new.contains_key(kk) == m_old.insert(k, row@).contains_key(kk) by {
                        if seq_has_key(new_rows, kk) {
                            let p = choose|p: int| 0 <= p < new_rows.len() && R::row_key(#[trigger] new_rows[p]@) == kk;
                            if p < n {
                                assert(old_rows[p] == new_rows[p]);
                            }
                        }
                        if seq_has_key(old_rows, kk) {
                            let p = choose|p: int| 0 <= p < old_rows.len() && R::row_key(#[trigger] old_rows[p]@) == kk;
                            assert(new_rows[p] == old_rows[p]);
                        }
                        if kk == k {
                            assert(R::row_key(new_rows[n]@) == k);
                        }
                    }
                    assert forall|kk: R::KeyView| #[trigger] m_new.contains_key(kk) implies m_new[kk]
                        == m_old.insert(k, row@)[kk] by {
                        let p = choose|p: int| 0 <= p < new_rows.len() && R::row_key(#[trigger] new_rows[p]@) == kk;
                        lemma_seq_map_at(new_rows, p);
                        if p < n {
                            assert(old_rows[p] == new_rows[p]);
                            lemma_seq_map_at(old_rows, p);
                        }
                    }
                    assert(m_new =~= m_old.insert(k, row@));
                }
            },
        }
    }

    /// Removes the row stored under `key`, if there is one.
    pub fn remove(&mut self, key: &R::Key)
        requires
            old(self).wf(),
        ensures
            final(self).wf(),
            final(self).contents() == old(self).contents().remove(R::key_view(key)),
    {
        let ghost k = R::key_view(key);
        let ghost old_rows = self.rows@;
        match self.find(key) {
            Some(i) => {
                self.rows.remove(i);
                proof {
                    let new_rows = self.rows@;
                    let ii = i as int;
                    assert forall|a: int| 0 <= a < new_rows.len() implies #[trigger] new_rows[a] == (if a
                        < ii {
                        old_rows[a]
                    } else {
                        old_rows[a + 1]
                    }) by {}
                    assert(seq_keys_distinct(new_rows)) by {
                        assert forall|a: int, b: int|
                            0 <= a < new_rows.len() && 0 <= b < new_rows.len() && a != b implies R::row_key(
                            #[trigger] new_rows[a]@,
                        ) != R::row_key(#[trigger] new_rows[b]@) by {
                            let oa = if a < ii { a } else { a + 1 };
                            let ob = if b < ii { b } else { b + 1 };
                            assert(R::row_key(old_rows[oa]@) != R::row_key(old_rows[ob]@));
                        }
                    }
                    let m_old = seq_map(old_rows);
                    let m_new = seq_map(new_rows);
                    assert forall|kk: R::KeyView| #[trigger]
                        m_new.contains_key(kk) == m_old.remove(k).contains_key(kk) by {
                        if seq_has_key(new_rows, kk) {
                            let p = choose|p: int| 0 <= p < new_rows.len() && R::row_key(#[trigger] new_rows[p]@) == kk;
                            let op = if p < ii { p } else { p + 1 };
                            assert(R::row_key(old_rows[op]@) == kk);
                            assert(op != ii);
                        }
                        if seq_has_key(old_rows, kk) && kk != k {
                            let p = choose|p: int| 0 <= p < old_rows.len() && R::row_key(#[trigger] old_rows[p]@) == kk;
                            assert(p != ii);
                            let np = if p < ii { p } else { p - 1 };
                            assert(R::row_key(new_rows[np]@) == kk);
                        }
                    }
                    assert forall|kk: R::KeyView| #[trigger] m_new.contains_key(kk) implies m_new[kk]
                        == m_old.remove(k)[kk] by {
                        let p = choose|p: int| 0 <= p < new_rows.len() && R::row_key(#[trigger] new_rows[p]@) == kk;
                        lemma_seq_map_at(new_rows, p);
                        let op = if p < ii { p } else { p + 1 };
                        lemma_seq_map_at(old_rows, op);
                    }
                    assert(m_new =~= m_old.remove(k));
                }
            },
            None => {
                assert(old(self).contents() =~= old(self).contents().remove(k));
            },
        }
    }
}

} // verus!
