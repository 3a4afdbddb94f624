//! A table of values under names, at most one under each.
use crate::text::same_text;
use vstd::prelude::*;

verus! {

/// Values under names.
#[derive(Debug)]
pub struct Table<T> {
    pub rows: Vec<(String, T)>,
}

/// The map that rows make, later rows first.
pub open spec fn rows_view<T>(rows: Seq<(String, T)>) -> Map<Seq<char>, T>
    decreases rows.len(),
{
    if rows.len() == 0 {
        Map::empty()
    } else {
        rows_view(rows.drop_last()).insert(rows.last().0@, rows.last().1)
    }
}

/// Whether no two rows share a name.
pub open spec fn distinct_rows<T>(rows: Seq<(String, T)>) -> bool {
    forall|i: int, j: int|
        0 <= i < j < rows.len() ==> #[trigger] rows[i].0@ != #[trigger] rows[j].0@
}

impl<T> View for Table<T> {
    type V = Map<Seq<char>, T>;

    open spec fn view(&self) -> Map<Seq<char>, T> {
        rows_view(self.rows@)
    }
}

/// Where the row of a name is.
pub open spec fn row_of<T>(rows: Seq<(String, T)>, name: Seq<char>, i: int) -> bool {
    0 <= i < rows.len() && rows[i].0@ == name
}

/// Rows with distinct names and the map they make.
pub proof fn lemma_rows<T>(rows: Seq<(String, T)>)
    requires
        distinct_rows(rows),
    ensures
        rows_view(rows).dom().finite(),
        rows_view(rows).len() == rows.len(),
        forall|i: int|
            0 <= i < rows.len() ==> rows_view(rows).contains_key((#[trigger] rows[i]).0@)
                && rows_view(rows)[rows[i].0@] == rows[i].1,
        forall|name: Seq<char>|
            #[trigger] rows_view(rows).contains_key(name) ==> exists|i: int| row_of(rows, name, i),
    decreases rows.len(),
{
    if rows.len() > 0 {
        let rest = rows.drop_last();
        assert forall|i: int, j: int| 0 <= i < j < rest.len() implies #[trigger] rest[i].0@
            != #[trigger] rest[j].0@ by {
            assert(rows[i].0@ != rows[j].0@);
        }
        lemma_rows(rest);
        let last = rows.last().0@;
        assert(!rows_view(rest).contains_key(last)) by {
            if rows_view(rest).contains_key(last) {
                let i = choose|i: int| row_of(rest, last, i);
                assert(rows[i].0@ != rows[rows.len() - 1].0@);
            }
        }
        assert forall|i: int| 0 <= i < rows.len() implies rows_view(rows).contains_key(
            (#[trigger] rows[i]).0@,
        ) && rows_view(rows)[rows[i].0@] == rows[i].1 by {
            if i < rest.len() {
                assert(rest[i] == rows[i]);
                assert(rows[i].0@ != rows[rows.len() - 1].0@);
            }
        }
        assert forall|name: Seq<char>| #[trigger] rows_view(rows).contains_key(name) implies exists|
            i: int,
        | row_of(rows, name, i) by {
            if name == last {
                assert(row_of(rows, name, rows.len() - 1));
            } else {
                assert(rows_view(rest).contains_key(name));
                let i = choose|i: int| row_of(rest, name, i);
                assert(row_of(rows, name, i));
            }
        }
    }
}

/// Rows are told by the map that they make.
pub proof fn lemma_same_rows<T>(rows: Seq<(String, T)>, m: Map<Seq<char>, T>)
    requires
        distinct_rows(rows),
        forall|i: int|
            0 <= i < rows.len() ==> m.contains_key((#[trigger] rows[i]).0@) && m[rows[i].0@]
                == rows[i].1,
        forall|name: Seq<char>|
            #[trigger] m.contains_key(name) ==> exists|i: int| row_of(rows, name, i),
    ensures
        rows_view(rows) == m,
{
    lemma_rows(rows);
    assert forall|name: Seq<char>| rows_view(rows).contains_key(name) == m.contains_key(name) by {
        if rows_view(rows).contains_key(name) {
            let i = choose|i: int| row_of(rows, name, i);
            assert(m.contains_key(rows[i].0@));
        }
        if m.contains_key(name) {
            let i = choose|i: int| row_of(rows, name, i);
            assert(rows_view(rows).contains_key(rows[i].0@));
        }
    }
    assert forall|name: Seq<char>| rows_view(rows).contains_key(name) implies rows_view(rows)[name]
        == m[name] by {
        let i = choose|i: int| row_of(rows, name, i);
        assert(rows_view(rows)[rows[i].0@] == rows[i].1);
        assert(m[rows[i].0@] == rows[i].1);
    }
    assert(rows_view(rows) =~= m);
}

impl<T> Table<T> {
    /// Whether no two rows share a name.
    pub open spec fn wf(&self) -> bool {
        distinct_rows(self.rows@)
    }

    /// An empty table.
    pub fn new() -> (r: Table<T>)
        ensures
            r.wf(),
            r@ == Map::<Seq<char>, T>::empty(),
    {
        Table { rows: Vec::new() }
    }

    /// How many values there are.
    pub fn len(&self) -> (r: usize)
        requires
            self.wf(),
        ensures
            r == self@.len(),
            self@.dom().finite(),
    {
        proof {
            lemma_rows(self.rows@);
        }
        self.rows.len()
    }

    /// Where the row of a name is.
    pub fn find(&self, name: &str) -> (r: Option<usize>)
        requires
            self.wf(),
        ensures
            match r {
                Some(i) => i < self.rows@.len() && self.rows@[i as int].0@ == name@
                    && self@.contains_key(name@) && self@[name@] == self.rows@[i as int].1,
                None => !self@.contains_key(name@),
            },
    {
        proof {
            lemma_rows(self.rows@);
        }
        for i in 0..self.rows.len()
            invariant
                self.wf(),
                forall|j: int| 0 <= j < i ==> (#[trigger] self.rows@[j]).0@ != name@,
        {
            if same_text(self.rows[i].0.as_str(), name) {
                proof {
                    lemma_rows(self.rows@);
                }
                return Some(i);
            }
        }
        proof {
            if self@.contains_key(name@) {
                let i = choose|i: int| row_of(self.rows@, name@, i);
                assert(self.rows@[i].0@ != name@);
            }
        }
        None
    }

    /// The value under a name.
    pub fn get(&self, name: &str) -> (r: Option<&T>)
        requires
            self.wf(),
        ensures
            match r {
                Some(value) => self@.contains_key(name@) && self@[name@] == *value,
                None => !self@.contains_key(name@),
            },
    {
        match self.find(name) {
            Some(i) => Some(&self.rows[i].1),
            None => None,
        }
    }

    /// Takes the value under a name out of the table.
    pub fn remove(&mut self, name: &str) -> (r: Option<T>)
        requires
            old(self).wf(),
        ensures
            final(self).wf(),
            final(self)@ == old(self)@.remove(name@),
            final(self)@.len() == (if old(self)@.contains_key(name@) {
                old(self)@.len() - 1
            } else {
                old(self)@.len() as int
            }),
            match r {
                Some(value) => old(self)@.contains_key(name@) && old(self)@[name@] == value,
                None => !old(self)@.contains_key(name@),
            },
    {
        let ghost before = self.rows@;
        proof {
            lemma_rows(before);
        }
        match self.find(name) {
            Some(i) => {
                let row = self.rows.remove(i);
                proof {
                    let rows = self.rows@;
                    lemma_rows(before);
                    assert(rows =~= before.remove(i as int));
                    assert forall|j: int, k: int| 0 <= j < k < rows.len() implies #[trigger] rows[j].0@
                        != #[trigger] rows[k].0@ by {
                        let j0 = if j < i { j } else { j + 1 };
                        let k0 = if k < i { k } else { k + 1 };
                        assert(before[j0].0@ != before[k0].0@);
                    }
                    let m = rows_view(before).remove(name@);
                    assert forall|j: int| 0 <= j < rows.len() implies m.contains_key(
                        (#[trigger] rows[j]).0@,
                    ) && m[rows[j].0@] == rows[j].1 by {
                        let j0 = if j < i { j } else { j + 1 };
                        assert(rows[j] == before[j0]);
                        if j0 < i {
                            assert(before[j0].0@ != before[i as int].0@);
                        } else {
                            assert(before[i as int].0@ != before[j0].0@);
                        }
                    }
                    assert forall|n: Seq<char>| #[trigger] m.contains_key(n) implies exists|j: int|
                        row_of(rows, n, j) by {
                        assert(rows_view(before).contains_key(n));
                        let j0 = choose|j: int| row_of(before, n, j);
                        let j = if j0 < i { j0 } else { j0 - 1 };
                        assert(row_of(rows, n, j));
                    }
                    lemma_same_rows(rows, m);
                }
                Some(row.1)
            },
            None => {
                assert(self@ =~= self@.remove(name@));
                None
            },
        }
    }

    /// Puts a value under a name; the one that was there is handed back.
    pub fn insert(&mut self, name: String, value: T) -> (r: Option<T>)
        requires
            old(self).wf(),
        ensures
            final(self).wf(),
            final(self)@ == old(self)@.insert(name@, value),
            final(self)@.len() == (if old(self)@.contains_key(name@) {
                old(self)@.len()
            } else {
                old(self)@.len() + 1
            }),
            match r {
                Some(previous) => old(self)@.contains_key(name@) && old(self)@[name@] == previous,
                None => !old(self)@.contains_key(name@),
            },
    {
        proof {
            lemma_rows(self.rows@);
        }
        let previous = self.remove(name.as_str());
        let ghost before = self.rows@;
        self.rows.push((name, value));
        proof {
            lemma_rows(before);
            assert(self.rows@.drop_last() =~= before);
            assert forall|i: int, j: int| 0 <= i < j < self.rows@.len() implies #[trigger] self.rows@[i].0@
                != #[trigger] self.rows@[j].0@ by {
                if j == before.len() {
                    assert(rows_view(before).contains_key(before[i].0@));
                } else {
                    assert(before[i].0@ != before[j].0@);
                }
            }
            assert(self@ =~= old(self)@.insert(name@, value));
        }
        previous
    }

    /// Takes all values out of the table.
    pub fn take_all(&mut self) -> (r: Vec<(String, T)>)
        ensures
            final(self).wf(),
            final(self)@ == Map::<Seq<char>, T>::empty(),
            r@ == old(self).rows@,
    {
        let mut rows: Vec<(String, T)> = Vec::new();
        std::mem::swap(&mut rows, &mut self.rows);
        rows
    }
}

} // verus!
