//! A row record: rendered cell values keyed by column name, kept in insertion order.

use vstd::prelude::*;

verus! {

/// The mathematical model of a row: its entries, each a column name with the rendered
/// value, in the order in which they were inserted.
pub type RowModel = Seq<(Seq<char>, Seq<char>)>;

/// Whether no column name occurs twice among `entries`.
pub open spec fn distinct_names(entries: RowModel) -> bool {
    forall|i: int, j: int|
        0 <= i < j < entries.len() ==> (#[trigger] entries[i]).0 != (#[trigger] entries[j]).0
}

/// Whether some entry of `entries` has the name `name`.
pub open spec fn has_name(entries: RowModel, name: Seq<char>) -> bool {
    exists|i: int| 0 <= i < entries.len() && (#[trigger] entries[i]).0 == name
}

/// The position of the first entry of `entries` named `name`, or the length of
/// `entries` where there is none.
pub open spec fn position_of(entries: RowModel, name: Seq<char>) -> int
    decreases entries.len(),
{
    if entries.len() == 0 {
        0
    } else if entries[0].0 == name {
        0
    } else {
        1 + position_of(entries.drop_first(), name)
    }
}

/// The value that `entries` holds under `name`, if any.
pub open spec fn lookup(entries: RowModel, name: Seq<char>) -> Option<Seq<char>> {
    let at = position_of(entries, name);
    if at < entries.len() {
        Some(entries[at].1)
    } else {
        None
    }
}

/// What inserting `name` with `value` makes of `entries`: the value under `name` is
/// replaced where the name is present, a new last entry is added where it is not.
pub open spec fn inserted(entries: RowModel, name: Seq<char>, value: Seq<char>) -> RowModel {
    let at = position_of(entries, name);
    if at < entries.len() {
        entries.update(at, (name, value))
    } else {
        entries.push((name, value))
    }
}

/// `position_of` finds the first entry with the name, and nothing before it has it.
pub proof fn lemma_position_of(entries: RowModel, name: Seq<char>)
    ensures
        0 <= position_of(entries, name) <= entries.len(),
        position_of(entries, name) < entries.len() ==> entries[position_of(entries, name)].0
            == name,
        forall|i: int| 0 <= i < position_of(entries, name) ==> (#[trigger] entries[i]).0 != name,
        has_name(entries, name) <==> position_of(entries, name) < entries.len(),
    decreases entries.len(),
{
    if entries.len() == 0 {
    } else if entries[0].0 == name {
    } else {
        let rest = entries.drop_first();
        lemma_position_of(rest, name);
        let at = position_of(entries, name);
        assert forall|i: int| 0 <= i < at implies (#[trigger] entries[i]).0 != name by {
            if i > 0 {
                assert(rest[i - 1] == entries[i]);
            }
        }
        if at < entries.len() {
            assert(rest[at - 1] == entries[at]);
        }
        if has_name(entries, name) {
            let k = choose|k: int| 0 <= k < entries.len() && (#[trigger] entries[k]).0 == name;
            assert(rest[k - 1] == entries[k]);
            assert(has_name(rest, name));
        }
    }
}

/// Inserting keeps the names distinct.
pub proof fn lemma_inserted_distinct(entries: RowModel, name: Seq<char>, value: Seq<char>)
    requires
        distinct_names(entries),
    ensures
        distinct_names(inserted(entries, name, value)),
{
    lemma_position_of(entries, name);
    let after = inserted(entries, name, value);
    let at = position_of(entries, name);
    assert forall|i: int, j: int| 0 <= i < j < after.len() implies (#[trigger] after[i]).0 != (
    #[trigger] after[j]).0 by {
        if at < entries.len() {
            assert(entries[i].0 != entries[j].0);
        } else if j < entries.len() {
            assert(entries[i].0 != entries[j].0);
        } else {
            assert(entries[i].0 != name);
        }
    }
}

/// One row of a result: for each column name the rendered value of the row's cell.
///
/// No name occurs twice, and entries stay in the order in which their names were first
/// inserted.
#[derive(Clone, Debug, PartialEq, Eq)]
pub struct Row {
    entries: Vec<(String, String)>,
}

impl View for Row {
    type V = RowModel;

    closed spec fn view(&self) -> RowModel {
        Seq::new(self.entries@.len(), |i: int| (self.entries@[i].0@, self.entries@[i].1@))
    }
}

impl Row {
    /// Well-formedness: no name occurs twice. Every row that this crate hands out is
    /// well formed, and `insert` keeps a row so.
    pub open spec fn wf(&self) -> bool {
        distinct_names(self@)
    }

    /// A row without entries.
    pub fn new() -> (row: Row)
        ensures
            row@ == RowModel::empty(),
            row.wf(),
    {
        let row = Row { entries: Vec::new() };
        assert(row@ =~= RowModel::empty());
        row
    }

    /// The number of entries.
    pub fn len(&self) -> (n: usize)
        ensures
            n == self@.len(),
    {
        self.entries.len()
    }

    /// The column name of the entry at position `index`.
    pub fn name_at(&self, index: usize) -> (name: &String)
        requires
            index < self@.len(),
        ensures
            name@ == self@[index as int].0,
    {
        &self.entries[index].0
    }

    /// The rendered value of the entry at position `index`.
    pub fn value_at(&self, index: usize) -> (value: &String)
        requires
            index < self@.len(),
        ensures
            value@ == self@[index as int].1,
    {
        &self.entries[index].1
    }

    /// The position of the entry named `name`, or `len()` where there is none.
    fn find(&self, name: &String) -> (at: usize)
        ensures
            at == position_of(self@, name@),
            at <= self@.len(),
    {
        let mut i: usize = 0;
        while i < self.entries.len()
            invariant
                i <= self.entries@.len(),
                forall|k: int| 0 <= k < i ==> (#[trigger] self@[k]).0 != name@,
            decreases self.entries@.len() - i,
        {
            if self.entries[i].0 == *name {
                proof {
                    lemma_position_of(self@, name@);
                    let p = position_of(self@, name@);
                    assert(self@[i as int].0 == name@);
                    assert(has_name(self@, name@));
                    if p < i {
                        assert(self@[p].0 != name@);
                    }
                }
                return i;
            }
            i = i + 1;
        }
        proof {
            lemma_position_of(self@, name@);
            let p = position_of(self@, name@);
            if p < self@.len() {
                assert(self@[p].0 != name@);
            }
        }
        i
    }

    /// The value held under `name`, or `None` where the row has no such entry.
    pub fn get(&self, name: &String) -> (value: Option<&String>)
        ensures
            match value {
                Some(v) => lookup(self@, name@) == Some(v@),
                None => lookup(self@, name@) is None,
            },
    {
        let at = self.find(name);
        if at < self.entries.len() {
            Some(&self.entries[at].1)
        } else {
            None
        }
    }

    /// Adds the entry of a name that the row does not have yet.
    pub(crate) fn push_new(&mut self, name: String, value: String)
        requires
            !has_name(old(self)@, name@),
        ensures
            final(self)@ == old(self)@.push((name@, value@)),
            final(self)@ == inserted(old(self)@, name@, value@),
            old(self).wf() ==> final(self).wf(),
    {
        proof {
            lemma_position_of(self@, name@);
            if old(self).wf() {
                lemma_inserted_distinct(self@, name@, value@);
            }
        }
        let ghost before = self@;
        self.entries.push((name, value));
        assert(self@ =~= before.push((name@, value@)));
    }

    /// Puts `value` under `name`: in place of the value that the name had, or as a new
    /// last entry where the row did not have the name.
    pub fn insert(&mut self, name: String, value: String)
        ensures
            final(self)@ == inserted(old(self)@, name@, value@),
            old(self).wf() ==> final(self).wf(),
    {
        proof {
            lemma_position_of(self@, name@);
        }
        let at = self.find(&name);
        let ghost before = self@;
        if at < self.entries.len() {
            self.entries.set(at, (name, value));
            assert(self@ =~= inserted(before, name@, value@));
        } else {
            self.entries.push((name, value));
            assert(self@ =~= inserted(before, name@, value@));
        }
        proof {
            if old(self).wf() {
                lemma_inserted_distinct(before, name@, value@);
            }
        }
    }
}

} // verus!
