//! The holiday table: from the canonical key of a day to the name of the
//! holiday on it.

use vstd::prelude::*;

verus! {

/// The map that a list of (key, name) pairs describes. Where a key occurs
/// more than once, the last pair that holds it decides the name.
pub open spec fn map_of_pairs(pairs: Seq<(Seq<char>, Seq<char>)>) -> Map<Seq<char>, Seq<char>>
    decreases pairs.len(),
{
    if pairs.len() == 0 {
        Map::empty()
    } else {
        map_of_pairs(pairs.drop_last()).insert(pairs.last().0, pairs.last().1)
    }
}

/// No key occurs in two pairs.
pub open spec fn distinct_keys(pairs: Seq<(Seq<char>, Seq<char>)>) -> bool {
    forall|i: int, j: int| 0 <= i < j < pairs.len() ==> pairs[i].0 != pairs[j].0
}

/// The map of a list of pairs holds exactly the keys that occur in the list.
pub proof fn lemma_map_of_pairs_keys(pairs: Seq<(Seq<char>, Seq<char>)>, key: Seq<char>)
    ensures
        map_of_pairs(pairs).contains_key(key) <==> exists|i: int|
            0 <= i < pairs.len() && (#[trigger] pairs[i]).0 == key,
    decreases pairs.len(),
{
    if pairs.len() > 0 {
        let front = pairs.drop_last();
        lemma_map_of_pairs_keys(front, key);
        if map_of_pairs(pairs).contains_key(key) {
            if pairs.last().0 == key {
                assert(pairs[pairs.len() - 1].0 == key);
            } else {
                let i = choose|i: int| 0 <= i < front.len() && (#[trigger] front[i]).0 == key;
                assert(pairs[i].0 == key);
            }
        }
        if exists|i: int| 0 <= i < pairs.len() && (#[trigger] pairs[i]).0 == key {
            let i = choose|i: int| 0 <= i < pairs.len() && (#[trigger] pairs[i]).0 == key;
            if i < pairs.len() - 1 {
                assert(front[i].0 == key);
            }
        }
    }
}

/// The last pair that holds a key decides: the map of a list of pairs gives
/// a key the name of the pair at `index`, where no later pair holds the key.
pub proof fn lemma_map_of_pairs_last_wins(pairs: Seq<(Seq<char>, Seq<char>)>, index: int)
    requires
        0 <= index < pairs.len(),
        forall|later: int|
            index < later < pairs.len() ==> (#[trigger] pairs[later]).0 != pairs[index].0,
    ensures
        map_of_pairs(pairs).contains_key(pairs[index].0),
        map_of_pairs(pairs)[pairs[index].0] == pairs[index].1,
    decreases pairs.len(),
{
    if index < pairs.len() - 1 {
        let front = pairs.drop_last();
        assert(pairs[pairs.len() - 1].0 != pairs[index].0);
        assert forall|later: int| index < later < front.len() implies (#[trigger] front[later]).0
            != front[index].0 by {
            assert(pairs[later].0 != pairs[index].0);
        }
        lemma_map_of_pairs_last_wins(front, index);
    }
}

/// Where no key occurs twice, the map of a list of pairs holds as many keys
/// as the list has pairs.
pub proof fn lemma_map_of_pairs_len(pairs: Seq<(Seq<char>, Seq<char>)>)
    requires
        distinct_keys(pairs),
    ensures
        map_of_pairs(pairs).dom().finite(),
        map_of_pairs(pairs).len() == pairs.len(),
    decreases pairs.len(),
{
    if pairs.len() > 0 {
        let front = pairs.drop_last();
        let key = pairs.last().0;
        assert forall|i: int, j: int| 0 <= i < j < front.len() implies front[i].0
            != front[j].0 by {
            assert(pairs[i].0 != pairs[j].0);
        }
        lemma_map_of_pairs_len(front);
        lemma_map_of_pairs_keys(front, key);
        if map_of_pairs(front).contains_key(key) {
            let i = choose|i: int| 0 <= i < front.len() && (#[trigger] front[i]).0 == key;
            assert(pairs[i].0 != pairs[pairs.len() - 1].0);
        }
        assert(map_of_pairs(pairs).dom() =~= map_of_pairs(front).dom().insert(key));
    }
}

/// Replacing the name in the one pair that holds a key gives the map with
/// that key set to the new name.
proof fn lemma_replace_name(pairs: Seq<(Seq<char>, Seq<char>)>, index: int, name: Seq<char>)
    requires
        0 <= index < pairs.len(),
        distinct_keys(pairs),
    ensures
        distinct_keys(pairs.update(index, (pairs[index].0, name))),
        map_of_pairs(pairs.update(index, (pairs[index].0, name))) == map_of_pairs(pairs).insert(
            pairs[index].0,
            name,
        ),
{
    let key = pairs[index].0;
    let changed = pairs.update(index, (key, name));
    let expected = map_of_pairs(pairs).insert(key, name);
    assert forall|k: Seq<char>| map_of_pairs(changed).contains_key(k) == expected.contains_key(
        k,
    ) by {
        lemma_map_of_pairs_keys(changed, k);
        lemma_map_of_pairs_keys(pairs, k);
        if exists|i: int| 0 <= i < changed.len() && (#[trigger] changed[i]).0 == k {
            let i = choose|i: int| 0 <= i < changed.len() && (#[trigger] changed[i]).0 == k;
            assert(pairs[i].0 == k);
        }
        if exists|i: int| 0 <= i < pairs.len() && (#[trigger] pairs[i]).0 == k {
            let i = choose|i: int| 0 <= i < pairs.len() && (#[trigger] pairs[i]).0 == k;
            assert(changed[i].0 == k);
        }
        assert(changed[index].0 == key);
    }
    assert forall|k: Seq<char>| map_of_pairs(changed).contains_key(k) implies map_of_pairs(
        changed,
    )[k] == expected[k] by {
        lemma_map_of_pairs_keys(changed, k);
        let i = choose|i: int| 0 <= i < changed.len() && (#[trigger] changed[i]).0 == k;
        lemma_map_of_pairs_last_wins(changed, i);
        if i != index {
            assert(pairs[i].0 == k);
            lemma_map_of_pairs_last_wins(pairs, i);
        }
    }
    assert(map_of_pairs(changed) =~= expected);
}

/// The holiday table. It holds each key once.
#[derive(Debug)]
pub struct HolidayMap {
    entries: Vec<(String, String)>,
}

impl View for HolidayMap {
    type V = Map<Seq<char>, Seq<char>>;

    closed spec fn view(&self) -> Map<Seq<char>, Seq<char>> {
        map_of_pairs(self.entries.deep_view())
    }
}

impl HolidayMap {
    #[verifier::type_invariant]
    spec fn holds_each_key_once(self) -> bool {
        distinct_keys(self.entries.deep_view())
    }

    /// The table holds each key once. This is true of every table that the
    /// program can hold.
    pub closed spec fn is_well_formed(self) -> bool {
        distinct_keys(self.entries.deep_view())
    }

    /// The (key, name) pairs of the table, in the order in which
    /// [`HolidayMap::to_entries`] lists them.
    pub closed spec fn pairs(self) -> Seq<(Seq<char>, Seq<char>)> {
        self.entries.deep_view()
    }

    /// The empty table: it is well-formed, lists no entry and holds no key.
    pub fn new() -> (table: HolidayMap)
        ensures
            table.is_well_formed(),
            table.pairs() == Seq::<(Seq<char>, Seq<char>)>::empty(),
            table@ == Map::<Seq<char>, Seq<char>>::empty(),
    {
        let table = HolidayMap { entries: Vec::new() };
        assert(table.entries.deep_view() =~= Seq::empty());
        table
    }

    /// The number of holidays in the table.
    pub fn len(&self) -> (count: usize)
        ensures
            self@.dom().finite(),
            count == self@.len(),
            count == self.pairs().len(),
    {
        proof {
            use_type_invariant(self);
            lemma_map_of_pairs_len(self.pairs());
        }
        self.entries.len()
    }

    /// Whether the table holds no holiday.
    pub fn is_empty(&self) -> (empty: bool)
        ensures
            empty == (self@ == Map::<Seq<char>, Seq<char>>::empty()),
    {
        let empty = self.entries.len() == 0;
        proof {
            let pairs = self.entries.deep_view();
            if pairs.len() > 0 {
                lemma_map_of_pairs_keys(pairs, pairs[0].0);
                assert(self@.contains_key(pairs[0].0));
            } else {
                assert(self@ =~= Map::<Seq<char>, Seq<char>>::empty());
            }
        }
        empty
    }

    /// The place of `key` among the entries.
    fn position(&self, key: &String) -> (found: Option<usize>)
        ensures
            match found {
                Some(index) => index < self.pairs().len() && self.pairs()[index as int].0 == key@,
                None => forall|i: int| 0 <= i < self.pairs().len() ==> self.pairs()[i].0 != key@,
            },
    {
        let mut index: usize = 0;
        while index < self.entries.len()
            invariant
                index <= self.entries.len(),
                forall|i: int| 0 <= i < index ==> self.pairs()[i].0 != key@,
            decreases self.entries.len() - index,
        {
            if self.entries[index].0 == *key {
                return Some(index);
            }
            index = index + 1;
        }
        None
    }

    /// Whether the table holds a holiday under `key`.
    pub fn contains_key(&self, key: &str) -> (found: bool)
        ensures
            found == self@.contains_key(key@),
    {
        let owned = key.to_owned();
        let found = self.position(&owned).is_some();
        proof {
            lemma_map_of_pairs_keys(self.pairs(), key@);
        }
        found
    }

    /// The name of the holiday filed under `key`, if there is one.
    pub fn get(&self, key: &str) -> (name: Option<&String>)
        ensures
            match name {
                Some(n) => self@.contains_key(key@) && n@ == self@[key@],
                None => !self@.contains_key(key@),
            },
    {
        let owned = key.to_owned();
        proof {
            use_type_invariant(self);
            lemma_map_of_pairs_keys(self.pairs(), key@);
        }
        match self.position(&owned) {
            Some(index) => {
                proof {
                    lemma_map_of_pairs_last_wins(self.pairs(), index as int);
                }
                Some(&self.entries[index].1)
            },
            None => None,
        }
    }

    /// Files `name` under `key`. A name filed under `key` before is replaced.
    pub fn insert(&mut self, key: String, name: String)
        ensures
            final(self)@ == old(self)@.insert(key@, name@),
    {
        proof {
            use_type_invariant(&*self);
        }
        let ghost before = self.pairs();
        let found = self.position(&key);
        let mut entries: Vec<(String, String)> = Vec::new();
        assert(entries.deep_view() =~= Seq::empty());
        core::mem::swap(&mut entries, &mut self.entries);
        match found {
            Some(index) => {
                proof {
                    lemma_replace_name(before, index as int, name@);
                }
                entries.set(index, (key, name));
                assert(entries.deep_view() =~= before.update(
                    index as int,
                    (before[index as int].0, name@),
                ));
            },
            None => {
                entries.push((key, name));
                assert(entries.deep_view() =~= before.push((key@, name@)));
                assert(before.push((key@, name@)).drop_last() =~= before);
            },
        }
        core::mem::swap(&mut entries, &mut self.entries);
    }

    /// The table that a list of (key, name) pairs describes. Where a key
    /// occurs more than once, the last pair that holds it decides the name.
    pub fn from_entries(entries: Vec<(String, String)>) -> (table: HolidayMap)
        ensures
            table@ == map_of_pairs(entries.deep_view()),
    {
        let mut table = HolidayMap::new();
        let mut index: usize = 0;
        assert(entries.deep_view().take(0) =~= Seq::empty());
        while index < entries.len()
            invariant
                index <= entries.len(),
                table@ == map_of_pairs(entries.deep_view().take(index as int)),
            decreases entries.len() - index,
        {
            let key = entries[index].0.clone();
            let name = entries[index].1.clone();
            table.insert(key, name);
            proof {
                let all = entries.deep_view();
                assert(all.take(index + 1).drop_last() =~= all.take(index as int));
                assert(all.take(index + 1).last() == all[index as int]);
            }
            index = index + 1;
        }
        assert(entries.deep_view().take(entries.len() as int) =~= entries.deep_view());
        table
    }

    /// The (key, name) pairs of the table, each key once.
    pub fn to_entries(&self) -> (entries: Vec<(String, String)>)
        ensures
            entries.deep_view() == self.pairs(),
            distinct_keys(entries.deep_view()),
            map_of_pairs(entries.deep_view()) == self@,
    {
        proof {
            use_type_invariant(self);
        }
        let mut entries: Vec<(String, String)> = Vec::new();
        let mut index: usize = 0;
        while index < self.entries.len()
            invariant
                index <= self.entries.len(),
                entries.deep_view() =~= self.pairs().take(index as int),
            decreases self.entries.len() - index,
        {
            let key = self.entries[index].0.clone();
            let name = self.entries[index].1.clone();
            let ghost listed = entries.deep_view();
            entries.push((key, name));
            assert(entries.deep_view() =~= listed.push((key@, name@)));
            assert(self.pairs().take(index + 1) =~= self.pairs().take(index as int).push(
                self.pairs()[index as int],
            ));
            index = index + 1;
        }
        assert(self.pairs().take(self.entries.len() as int) =~= self.pairs());
        entries
    }
}

/// Listing the entries of a table and building a table from the list gives
/// the same table: the list holds each key once, the map of the list is the
/// table, and none of its entries is lost.
pub proof fn lemma_entries_round_trip(table: HolidayMap)
    requires
        table.is_well_formed(),
    ensures
        distinct_keys(table.pairs()),
        map_of_pairs(table.pairs()) == table@,
        table@.dom().finite(),
        table@.len() == table.pairs().len(),
{
    lemma_map_of_pairs_len(table.pairs());
}

} // verus!
