//! Tables from numbers to places: where in a list the item of a given
//! number stands.

use vstd::prelude::*;

verus! {

/// A table from numbers to places. The table itself is a
/// `hashbrown::HashMap` and is only reached through the four functions
/// below.
#[verifier::external_body]
pub struct Index {
    map: hashbrown::HashMap<u32, usize>,
}

/// What an [`Index`] holds: the place that each number in it was inserted
/// with last.
pub uninterp spec fn places(index: &Index) -> Map<u32, usize>;

/// Calls `hashbrown::HashMap::new`, which makes an empty table.
#[verifier::external_body]
pub(crate) fn index_new() -> (index: Index)
    ensures
        places(&index).dom() == Set::<u32>::empty(),
{
    Index { map: hashbrown::HashMap::new() }
}

/// Calls `hashbrown::HashMap::get`, which returns the value stored for a
/// key, or `None` where the table does not hold the key.
#[verifier::external_body]
pub(crate) fn index_get(index: &Index, number: u32) -> (place: Option<usize>)
    ensures
        place == if places(index).contains_key(number) {
            Some(places(index)[number])
        } else {
            None
        },
{
    index.map.get(&number).copied()
}

/// Calls `hashbrown::HashMap::insert`, which stores the value for the key
/// and replaces the value the key had, if any. No other key is touched.
#[verifier::external_body]
pub(crate) fn index_insert(index: &mut Index, number: u32, place: usize)
    ensures
        places(final(index)) == places(old(index)).insert(number, place),
{
    index.map.insert(number, place);
}

/// Calls `hashbrown::HashMap::clear`, which removes every key.
#[verifier::external_body]
pub(crate) fn index_clear(index: &mut Index)
    ensures
        places(final(index)).dom() == Set::<u32>::empty(),
{
    index.map.clear();
}

/// The last place at which a number stands in a list of numbers.
pub open spec fn last_place(ids: Seq<u32>, id: u32) -> Option<int>
    decreases ids.len(),
{
    if ids.len() == 0 {
        None
    } else if ids.last() == id {
        Some(ids.len() - 1)
    } else {
        last_place(ids.drop_last(), id)
    }
}

/// The last place of a number is a place of the list, the number stands
/// there, and it stands at no later place. A number without a last place
/// stands nowhere.
pub proof fn lemma_last_place(ids: Seq<u32>, id: u32)
    ensures
        match last_place(ids, id) {
            Some(place) => 0 <= place < ids.len() && ids[place] == id && forall|j: int|
                place < j < ids.len() ==> #[trigger] ids[j] != id,
            None => forall|j: int| 0 <= j < ids.len() ==> #[trigger] ids[j] != id,
        },
    decreases ids.len(),
{
    if ids.len() > 0 && ids.last() != id {
        lemma_last_place(ids.drop_last(), id);
        match last_place(ids, id) {
            Some(place) => {
                assert(ids.drop_last()[place] == ids[place]);
                assert forall|j: int| place < j < ids.len() implies #[trigger] ids[j] != id by {
                    if j < ids.len() - 1 {
                        assert(ids.drop_last()[j] == ids[j]);
                    }
                }
            },
            None => {
                assert forall|j: int| 0 <= j < ids.len() implies #[trigger] ids[j] != id by {
                    if j < ids.len() - 1 {
                        assert(ids.drop_last()[j] == ids[j]);
                    }
                }
            },
        }
    }
}

/// The items of a list by their numbers: a number leads to the place of
/// the item that bears it. Of two items with the same number the later one
/// is found.
pub struct Directory {
    index: Index,
    ids: Ghost<Seq<u32>>,
}

impl Directory {
    /// The numbers of the items, in the order of the list.
    pub closed spec fn ids(&self) -> Seq<u32> {
        self.ids@
    }

    /// The table holds every number of the list with its last place, and
    /// nothing else.
    pub closed spec fn wf(&self) -> bool {
        forall|id: u32|
            last_place(self.ids@, id) == if #[trigger] places(&self.index).contains_key(id) {
                Some(places(&self.index)[id] as int)
            } else {
                None
            }
    }

    /// Makes the directory of a list of numbers.
    pub fn new(ids: &Vec<u32>) -> (directory: Directory)
        ensures
            directory.wf(),
            directory.ids() == ids@,
    {
        let mut index = index_new();
        let mut i: usize = 0;
        while i < ids.len()
            invariant
                0 <= i <= ids.len(),
                forall|id: u32|
                    last_place(ids@.take(i as int), id) == if #[trigger] places(
                        &index,
                    ).contains_key(id) {
                        Some(places(&index)[id] as int)
                    } else {
                        None
                    },
            decreases ids.len() - i,
        {
            proof {
                assert(ids@.take(i as int + 1).drop_last() =~= ids@.take(i as int));
                assert(ids@.take(i as int + 1).last() == ids@[i as int]);
            }
            index_insert(&mut index, ids[i], i);
            i = i + 1;
        }
        proof {
            assert(ids@.take(ids.len() as int) =~= ids@);
        }
        Directory { index, ids: Ghost(ids@) }
    }

    /// Finds the place of the item that bears a number.
    pub fn find(&self, id: u32) -> (place: Option<usize>)
        requires
            self.wf(),
        ensures
            match place {
                Some(p) => last_place(self.ids(), id) == Some(p as int) && p < self.ids().len(),
                None => last_place(self.ids(), id) is None,
            },
    {
        proof {
            lemma_last_place(self.ids@, id);
        }
        index_get(&self.index, id)
    }
}

} // verus!
