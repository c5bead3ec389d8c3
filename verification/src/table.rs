//! The table of last updates: for each repository name, the instant at which
//! it was last updated.

use crate::instant::Instant;
use vstd::prelude::*;

verus! {

/// One row of the table: a repository name and the instant of its last
/// update.
#[derive(Clone, Debug)]
pub struct Entry {
    pub name: String,
    pub updated: Instant,
}

/// The mapping that a list of rows stands for when read front to back, a
/// later row replacing an earlier one of the same name.
pub open spec fn mapping_of(entries: Seq<Entry>) -> Map<Seq<char>, Instant>
    decreases entries.len(),
{
    if entries.len() == 0 {
        Map::empty()
    } else {
        mapping_of(entries.drop_last()).insert(entries.last().name@, entries.last().updated)
    }
}

/// No two rows carry the same name.
pub open spec fn distinct_names(entries: Seq<Entry>) -> bool {
    forall|i: int, j: int|
        0 <= i < j < entries.len() ==> (#[trigger] entries[i]).name@ != (#[trigger] entries[j]).name@
}

/// `entries` lists `table`: every row is a pair of the table, every pair of
/// the table has its row, and no name has two rows.
pub open spec fn lists(entries: Seq<Entry>, table: Map<Seq<char>, Instant>) -> bool {
    &&& distinct_names(entries)
    &&& forall|i: int|
        0 <= i < entries.len() ==> {
            &&& table.contains_key((#[trigger] entries[i]).name@)
            &&& table[entries[i].name@] == entries[i].updated
        }
    &&& forall|name: Seq<char>| #[trigger]
        table.contains_key(name) ==> exists|i: int|
            0 <= i < entries.len() && (#[trigger] entries[i]).name@ == name
}

/// Rows with distinct names list the mapping they stand for.
pub proof fn lemma_distinct_rows_list_their_mapping(entries: Seq<Entry>)
    requires
        distinct_names(entries),
    ensures
        lists(entries, mapping_of(entries)),
    decreases entries.len(),
{
    if entries.len() > 0 {
        let front = entries.drop_last();
        let last = entries.last();
        lemma_distinct_rows_list_their_mapping(front);
        let table = mapping_of(entries);
        assert forall|i: int| 0 <= i < entries.len() implies {
            &&& table.contains_key((#[trigger] entries[i]).name@)
            &&& table[entries[i].name@] == entries[i].updated
        } by {
            if i < entries.len() - 1 {
                assert(front[i] == entries[i]);
                assert(entries[i].name@ != entries[entries.len() - 1].name@);
            }
        }
        assert forall|name: Seq<char>| #[trigger] table.contains_key(name) implies exists|i: int|
            0 <= i < entries.len() && (#[trigger] entries[i]).name@ == name by {
            if name == last.name@ {
                assert(entries[entries.len() - 1].name@ == name);
            } else {
                assert(mapping_of(front).contains_key(name));
                let i = choose|i: int| 0 <= i < front.len() && (#[trigger] front[i]).name@ == name;
                assert(entries[i].name@ == name);
            }
        }
    }
}

/// A listing determines its table: reading the rows of a listing of `table`
/// front to back gives `table` again, with the same names and the same
/// instants.
pub proof fn lemma_listing_gives_table_back(entries: Seq<Entry>, table: Map<Seq<char>, Instant>)
    requires
        lists(entries, table),
    ensures
        mapping_of(entries) == table,
{
    lemma_distinct_rows_list_their_mapping(entries);
    let read = mapping_of(entries);
    assert forall|name: Seq<char>| read.contains_key(name) == table.contains_key(name) by {
        if read.contains_key(name) {
            let i = choose|i: int| 0 <= i < entries.len() && (#[trigger] entries[i]).name@ == name;
            assert(table.contains_key(entries[i].name@));
        }
        if table.contains_key(name) {
            let i = choose|i: int| 0 <= i < entries.len() && (#[trigger] entries[i]).name@ == name;
            assert(read.contains_key(entries[i].name@));
        }
    }
    assert forall|name: Seq<char>| read.contains_key(name) implies read[name] == table[name] by {
        let i = choose|i: int| 0 <= i < entries.len() && (#[trigger] entries[i]).name@ == name;
        assert(read[entries[i].name@] == entries[i].updated);
        assert(table[entries[i].name@] == entries[i].updated);
    }
    assert(read =~= table);
}

/// The table of last updates, keyed by repository name. A name has at most
/// one row.
#[derive(Debug)]
pub struct StateMapping {
    entries: Vec<Entry>,
}

impl View for StateMapping {
    type V = Map<Seq<char>, Instant>;

    closed spec fn view(&self) -> Map<Seq<char>, Instant> {
        mapping_of(self.entries@)
    }
}

impl StateMapping {
    #[verifier::type_invariant]
    spec fn one_row_per_name(self) -> bool {
        distinct_names(self.entries@)
    }

    /// The table without rows.
    pub fn new() -> (table: StateMapping)
        ensures
            table@ == Map::<Seq<char>, Instant>::empty(),
    {
        StateMapping { entries: Vec::new() }
    }

    /// The index of the row named `name`, if there is one.
    fn position(&self, name: &str) -> (found: Option<usize>)
        ensures
            match found {
                Some(i) => i < self.entries@.len() && self.entries@[i as int].name@ == name@,
                None => forall|i: int|
                    0 <= i < self.entries@.len() ==> (#[trigger] self.entries@[i]).name@ != name@,
            },
    {
        let wanted: String = name.to_owned();
        let mut i: usize = 0;
        while i < self.entries.len()
            invariant
                i <= self.entries@.len(),
                wanted@ == name@,
                forall|j: int| 0 <= j < i ==> (#[trigger] self.entries@[j]).name@ != name@,
            decreases self.entries@.len() - i,
        {
            if self.entries[i].name == wanted {
                return Some(i);
            }
            i += 1;
        }
        None
    }

    /// The instant recorded for `name`, or `None` where the table has no row
    /// for it.
    pub fn get(&self, name: &str) -> (updated: Option<Instant>)
        ensures
            updated == if self@.contains_key(name@) {
                Some(self@[name@])
            } else {
                None
            },
    {
        proof {
            use_type_invariant(self);
            lemma_distinct_rows_list_their_mapping(self.entries@);
        }
        match self.position(name) {
            Some(i) => Some(self.entries[i].updated),
            None => None,
        }
    }

    /// Records `updated` for `name`, in place of what was recorded for it
    /// before, if anything. The other rows stay as they are.
    pub fn insert(&mut self, name: String, updated: Instant)
        ensures
            final(self)@ == old(self)@.insert(name@, updated),
    {
        proof {
            use_type_invariant(&*self);
            lemma_distinct_rows_list_their_mapping(self.entries@);
        }
        let ghost before = self.entries@;
        let found = self.position(name.as_str());
        let mut entries: Vec<Entry> = Vec::new();
        std::mem::swap(&mut entries, &mut self.entries);
        let row = Entry { name, updated };
        match found {
            Some(i) => {
                entries.set(i, row);
                proof {
                    let after = entries@;
                    let table = mapping_of(before).insert(row.name@, updated);
                    assert forall|a: int, b: int| 0 <= a < b < after.len() implies (
                    #[trigger] after[a]).name@ != (#[trigger] after[b]).name@ by {
                        assert(after[a].name@ == before[a].name@);
                        assert(after[b].name@ == before[b].name@);
                    }
                    assert forall|j: int| 0 <= j < after.len() implies {
                        &&& table.contains_key((#[trigger] after[j]).name@)
                        &&& table[after[j].name@] == after[j].updated
                    } by {
                        if j != i {
                            assert(after[j] == before[j]);
                            assert(before[j].name@ != before[i as int].name@);
                        }
                    }
                    assert forall|key: Seq<char>| #[trigger] table.contains_key(key) implies exists|
                        j: int,
                    | 0 <= j < after.len() && (#[trigger] after[j]).name@ == key by {
                        if key == row.name@ {
                            assert(after[i as int].name@ == key);
                        } else {
                            assert(mapping_of(before).contains_key(key));
                            let j = choose|j: int|
                                0 <= j < before.len() && (#[trigger] before[j]).name@ == key;
                            assert(after[j] == before[j]);
                            assert(after[j].name@ == key);
                        }
                    }
                    lemma_listing_gives_table_back(after, table);
                }
            },
            None => {
                entries.push(row);
                proof {
                    let after = entries@;
                    assert(after.drop_last() =~= before);
                    assert forall|a: int, b: int| 0 <= a < b < after.len() implies (
                    #[trigger] after[a]).name@ != (#[trigger] after[b]).name@ by {
                        assert(after[a] == before[a]);
                        if b < before.len() {
                            assert(after[b] == before[b]);
                        }
                    }
                }
            },
        }
        self.entries = entries;
    }

    /// Builds the table that `entries` stand for when read front to back, a
    /// later row replacing an earlier one of the same name.
    pub fn from_entries(entries: Vec<Entry>) -> (table: StateMapping)
        ensures
            table@ == mapping_of(entries@),
    {
        let mut table = StateMapping::new();
        let mut i: usize = 0;
        while i < entries.len()
            invariant
                i <= entries@.len(),
                table@ == mapping_of(entries@.take(i as int)),
            decreases entries@.len() - i,
        {
            let name = entries[i].name.clone();
            proof {
                assert(entries@.take(i + 1).drop_last() =~= entries@.take(i as int));
            }
            table.insert(name, entries[i].updated);
            i += 1;
        }
        proof {
            assert(entries@.take(i as int) =~= entries@);
        }
        table
    }

    /// Hands the rows out, each name once, in no particular order.
    pub fn into_entries(self) -> (entries: Vec<Entry>)
        ensures
            lists(entries@, self@),
    {
        proof {
            use_type_invariant(&self);
            lemma_distinct_rows_list_their_mapping(self.entries@);
        }
        self.entries
    }
}

} // verus!
