//! The parameter mapping of a request: query-parameter names and their wire
//! text, each name at most once.

use vstd::prelude::*;

verus! {

/// True when `key` names one of `pairs`.
pub open spec fn has_key(pairs: Seq<(Seq<char>, Seq<char>)>, key: Seq<char>) -> bool {
    exists|i: int| 0 <= i < pairs.len() && (#[trigger] pairs[i]).0 == key
}

/// No name occurs twice among `pairs`.
pub open spec fn distinct_keys(pairs: Seq<(Seq<char>, Seq<char>)>) -> bool {
    forall|i: int, j: int|
        0 <= i < j < pairs.len() ==> (#[trigger] pairs[i]).0 != (#[trigger] pairs[j]).0
}

/// A position at which `key` stands among `pairs`, if it stands anywhere.
pub open spec fn position(pairs: Seq<(Seq<char>, Seq<char>)>, key: Seq<char>) -> int {
    choose|i: int| 0 <= i < pairs.len() && (#[trigger] pairs[i]).0 == key
}

/// `pairs` after `value` was written under `key`: the pair of that name is
/// replaced where it stands, and a new name is added at the end.
pub open spec fn put(pairs: Seq<(Seq<char>, Seq<char>)>, key: Seq<char>, value: Seq<char>) -> Seq<
    (Seq<char>, Seq<char>),
> {
    if has_key(pairs, key) {
        pairs.update(position(pairs, key), (key, value))
    } else {
        pairs.push((key, value))
    }
}

/// The mapping reached from `start` by the writes of `writes`, first to
/// last: a later write to a name replaces an earlier one.
pub open spec fn apply_writes(
    start: Map<Seq<char>, Seq<char>>,
    writes: Seq<(Seq<char>, Seq<char>)>,
) -> Map<Seq<char>, Seq<char>>
    decreases writes.len(),
{
    if writes.len() == 0 {
        start
    } else {
        apply_writes(start, writes.drop_last()).insert(writes.last().0, writes.last().1)
    }
}

/// The mapping that `pairs` stands for.
pub open spec fn to_map(pairs: Seq<(Seq<char>, Seq<char>)>) -> Map<Seq<char>, Seq<char>> {
    apply_writes(Map::empty(), pairs)
}

/// The last position at which `key` is written in `writes`.
pub open spec fn last_write(writes: Seq<(Seq<char>, Seq<char>)>, key: Seq<char>) -> int
    decreases writes.len(),
{
    if writes.len() == 0 {
        -1
    } else if writes.last().0 == key {
        writes.len() - 1
    } else {
        last_write(writes.drop_last(), key)
    }
}

/// `last_write` finds a write to `key` exactly when there is one, and no
/// write to `key` follows the one it finds.
pub proof fn lemma_last_write(writes: Seq<(Seq<char>, Seq<char>)>, key: Seq<char>)
    ensures
        has_key(writes, key) <==> 0 <= last_write(writes, key) < writes.len(),
        !has_key(writes, key) <==> last_write(writes, key) == -1,
        has_key(writes, key) ==> writes[last_write(writes, key)].0 == key,
        forall|j: int|
            last_write(writes, key) < j < writes.len() ==> (#[trigger] writes[j]).0 != key,
    decreases writes.len(),
{
    if writes.len() > 0 {
        let front = writes.drop_last();
        lemma_last_write(front, key);
        if writes.last().0 == key {
            assert(writes[writes.len() - 1].0 == key);
        } else {
            if has_key(writes, key) {
                let i = position(writes, key);
                assert(front[i].0 == key);
            }
            if has_key(front, key) {
                let i = position(front, key);
                assert(writes[i].0 == key);
            }
            assert forall|j: int| last_write(writes, key) < j < writes.len() implies (
            #[trigger] writes[j]).0 != key by {
                if j < writes.len() - 1 {
                    assert(front[j].0 != key);
                }
            }
        }
    }
}

/// What a chain of writes leaves under one name: the name is held exactly
/// when it was held at the start or was written; if it was written it holds
/// the value of its last write, else what it held at the start.
pub proof fn lemma_setter_chain_at(
    start: Map<Seq<char>, Seq<char>>,
    writes: Seq<(Seq<char>, Seq<char>)>,
    key: Seq<char>,
)
    ensures
        apply_writes(start, writes).contains_key(key) <==> (start.contains_key(key) || has_key(
            writes,
            key,
        )),
        has_key(writes, key) ==> apply_writes(start, writes)[key]
            == writes[last_write(writes, key)].1,
        !has_key(writes, key) && start.contains_key(key) ==> apply_writes(start, writes)[key]
            == start[key],
    decreases writes.len(),
{
    lemma_last_write(writes, key);
    if writes.len() > 0 {
        let front = writes.drop_last();
        lemma_setter_chain_at(start, front, key);
        lemma_last_write(front, key);
        assert(apply_writes(start, writes) == apply_writes(start, front).insert(
            writes.last().0,
            writes.last().1,
        ));
        if writes.last().0 != key {
            assert(last_write(writes, key) == last_write(front, key));
            if has_key(front, key) {
                assert(writes[last_write(front, key)] == front[last_write(front, key)]);
            }
        }
    }
}

/// Last write wins. Every setter of a request performs one write, so a chain
/// of setters takes the mapping from `start` to `apply_writes(start, writes)`.
/// After any such chain the mapping holds exactly the names it started with
/// and the names written; each name written holds the value of its last
/// write, and every other name holds what it held at the start.
pub proof fn lemma_setter_chain(
    start: Map<Seq<char>, Seq<char>>,
    writes: Seq<(Seq<char>, Seq<char>)>,
)
    ensures
        forall|k: Seq<char>|
            (#[trigger] apply_writes(start, writes).contains_key(k)) <==> (start.contains_key(k)
                || has_key(writes, k)),
        forall|k: Seq<char>|
            has_key(writes, k) ==> (#[trigger] apply_writes(start, writes)[k])
                == writes[last_write(writes, k)].1,
        forall|k: Seq<char>|
            !has_key(writes, k) && start.contains_key(k) ==> (#[trigger] apply_writes(
                start,
                writes,
            )[k]) == start[k],
{
    let after = apply_writes(start, writes);
    assert forall|k: Seq<char>|
        (#[trigger] after.contains_key(k)) <==> (start.contains_key(k) || has_key(writes, k)) by {
        lemma_setter_chain_at(start, writes, k);
    }
    assert forall|k: Seq<char>| has_key(writes, k) implies (#[trigger] after[k])
        == writes[last_write(writes, k)].1 by {
        lemma_setter_chain_at(start, writes, k);
    }
    assert forall|k: Seq<char>| !has_key(writes, k) && start.contains_key(k) implies (
    #[trigger] after[k]) == start[k] by {
        lemma_setter_chain_at(start, writes, k);
    }
}

/// What `to_map` holds under one name of a list without repeated names:
/// the name is held exactly when it stands in the list, and then with the
/// value that stands beside it.
pub proof fn lemma_to_map_at(pairs: Seq<(Seq<char>, Seq<char>)>, key: Seq<char>)
    requires
        distinct_keys(pairs),
    ensures
        to_map(pairs).contains_key(key) <==> has_key(pairs, key),
        forall|i: int|
            0 <= i < pairs.len() && (#[trigger] pairs[i]).0 == key ==> to_map(pairs)[key]
                == pairs[i].1,
{
    lemma_setter_chain_at(Map::empty(), pairs, key);
    lemma_last_write(pairs, key);
}

/// Writing into a list without repeated names leaves none repeated, and
/// the mapping it stands for is the old one with the new value under the
/// name.
pub proof fn lemma_put(pairs: Seq<(Seq<char>, Seq<char>)>, key: Seq<char>, value: Seq<char>)
    requires
        distinct_keys(pairs),
    ensures
        distinct_keys(put(pairs, key, value)),
        to_map(put(pairs, key, value)) == to_map(pairs).insert(key, value),
{
    let after = put(pairs, key, value);
    if has_key(pairs, key) {
        assert forall|i: int, j: int| 0 <= i < j < after.len() implies (#[trigger] after[i]).0 != (
        #[trigger] after[j]).0 by {
            assert(after[i].0 == pairs[i].0);
            assert(after[j].0 == pairs[j].0);
        }
    } else {
        assert forall|i: int, j: int| 0 <= i < j < after.len() implies (#[trigger] after[i]).0 != (
        #[trigger] after[j]).0 by {
            assert(after[i] == pairs[i]);
            if j < pairs.len() {
                assert(after[j] == pairs[j]);
            }
        }
    }
    assert forall|k: Seq<char>|
        to_map(after).contains_key(k) <==> #[trigger] to_map(pairs).insert(
            key,
            value,
        ).contains_key(k) by {
        lemma_to_map_at(after, k);
        lemma_to_map_at(pairs, k);
        if has_key(after, k) {
            let i = position(after, k);
            if k != key {
                assert(pairs[i].0 == k);
            }
        }
        if has_key(pairs, k) {
            let i = position(pairs, k);
            assert(after[i].0 == k);
        }
        if k == key {
            if has_key(pairs, key) {
                assert(after[position(pairs, key)].0 == key);
            } else {
                assert(after[pairs.len() as int].0 == key);
            }
        }
    }
    assert forall|k: Seq<char>| to_map(after).contains_key(k) implies #[trigger] to_map(after)[k]
        == to_map(pairs).insert(key, value)[k] by {
        lemma_to_map_at(after, k);
        lemma_to_map_at(pairs, k);
        let i = position(after, k);
        if k == key {
            if has_key(pairs, key) {
                assert(after[position(pairs, key)].0 == key);
            } else {
                assert(after[pairs.len() as int].0 == key);
            }
        } else {
            assert(pairs[i].0 == k);
            assert(after[i] == pairs[i]);
        }
    }
    assert(to_map(after) =~= to_map(pairs).insert(key, value));
}

/// A list without repeated names stands for a finite mapping of as many
/// names as the list is long.
pub proof fn lemma_to_map_len(pairs: Seq<(Seq<char>, Seq<char>)>)
    requires
        distinct_keys(pairs),
    ensures
        to_map(pairs).dom().finite(),
        to_map(pairs).dom().len() == pairs.len(),
    decreases pairs.len(),
{
    if pairs.len() == 0 {
        assert(to_map(pairs).dom() =~= Set::empty());
    } else {
        let front = pairs.drop_last();
        assert forall|i: int, j: int| 0 <= i < j < front.len() implies (#[trigger] front[i]).0 != (
        #[trigger] front[j]).0 by {
            assert(front[i] == pairs[i]);
            assert(front[j] == pairs[j]);
        }
        lemma_to_map_len(front);
        lemma_to_map_at(front, pairs.last().0);
        if has_key(front, pairs.last().0) {
            let i = position(front, pairs.last().0);
            assert(pairs[i].0 == pairs[pairs.len() - 1].0);
        }
        assert(to_map(pairs).dom() =~= to_map(front).dom().insert(pairs.last().0));
    }
}

/// The parameter mapping of one request.
///
/// The pairs are kept in the order in which their names were first written;
/// no name is kept twice.
#[derive(Debug)]
pub struct Parameters {
    entries: Vec<(String, String)>,
}

impl View for Parameters {
    type V = Map<Seq<char>, Seq<char>>;

    /// The mapping from each name to its wire text.
    open spec fn view(&self) -> Map<Seq<char>, Seq<char>> {
        to_map(self.pairs())
    }
}

impl Parameters {
    /// The pairs in the order in which they are kept.
    pub closed spec fn pairs(&self) -> Seq<(Seq<char>, Seq<char>)> {
        Seq::new(self.entries@.len(), |i: int| (self.entries@[i].0@, self.entries@[i].1@))
    }

    /// No name is kept twice.
    #[verifier::type_invariant]
    pub open spec fn well_formed(&self) -> bool {
        distinct_keys(self.pairs())
    }

    /// The empty mapping.
    pub fn new() -> (r: Parameters)
        ensures
            r.pairs() == Seq::<(Seq<char>, Seq<char>)>::empty(),
            r@ == Map::<Seq<char>, Seq<char>>::empty(),
    {
        let r = Parameters { entries: Vec::new() };
        assert(r.pairs() =~= Seq::empty());
        r
    }

    /// The number of names held.
    pub fn len(&self) -> (n: usize)
        ensures
            n == self.pairs().len(),
            n == self@.dom().len(),
    {
        proof {
            use_type_invariant(self);
            lemma_to_map_len(self.pairs());
        }
        self.entries.len()
    }

    /// True when no name is held.
    pub fn is_empty(&self) -> (b: bool)
        ensures
            b == (self.pairs().len() == 0),
            b == (self@ == Map::<Seq<char>, Seq<char>>::empty()),
    {
        proof {
            use_type_invariant(self);
            lemma_to_map_len(self.pairs());
            if self.pairs().len() == 0 {
                assert(self@ =~= Map::empty());
            }
        }
        self.entries.len() == 0
    }

    /// Where `key` stands, if it is held.
    fn find(&self, key: &String) -> (r: Option<usize>)
        ensures
            r is Some <==> has_key(self.pairs(), key@),
            r matches Some(i) ==> i < self.pairs().len() && self.pairs()[i as int].0 == key@,
    {
        let mut i: usize = 0;
        while i < self.entries.len()
            invariant
                i <= self.entries@.len(),
                forall|j: int| 0 <= j < i ==> (#[trigger] self.pairs()[j]).0 != key@,
            decreases self.entries@.len() - i,
        {
            if self.entries[i].0 == *key {
                assert(self.pairs()[i as int].0 == key@);
                return Some(i);
            }
            i += 1;
        }
        None
    }

    /// Writes `value` under `key` and returns what `key` held before. A
    /// name that is already held keeps its place; a new name goes last.
    pub fn insert(&mut self, key: String, value: String) -> (previous: Option<String>)
        ensures
            final(self).pairs() == put(old(self).pairs(), key@, value@),
            final(self)@ == old(self)@.insert(key@, value@),
            previous is Some <==> old(self)@.contains_key(key@),
            previous matches Some(p) ==> p@ == old(self)@[key@],
    {
        proof {
            use_type_invariant(&*self);
            lemma_put(self.pairs(), key@, value@);
            lemma_to_map_at(self.pairs(), key@);
        }
        let found = self.find(&key);
        let mut entries: Vec<(String, String)> = Vec::new();
        core::mem::swap(&mut self.entries, &mut entries);
        let previous = match found {
            Some(i) => {
                let previous = entries[i].1.clone();
                proof {
                    let p = position(old(self).pairs(), key@);
                    assert(old(self).pairs()[i as int].0 == old(self).pairs()[p].0);
                    assert(p == i);
                }
                entries.set(i, (key, value));
                Some(previous)
            },
            None => {
                entries.push((key, value));
                None
            },
        };
        proof {
            let after = Seq::new(entries@.len(), |i: int| (entries@[i].0@, entries@[i].1@));
            assert(after =~= put(old(self).pairs(), key@, value@));
        }
        core::mem::swap(&mut self.entries, &mut entries);
        assert(self.pairs() =~= put(old(self).pairs(), key@, value@));
        previous
    }

    /// True when `key` is held.
    pub fn contains_key(&self, key: &str) -> (b: bool)
        ensures
            b == self@.contains_key(key@),
    {
        proof {
            use_type_invariant(self);
            lemma_to_map_at(self.pairs(), key@);
        }
        let key = key.to_owned();
        self.find(&key).is_some()
    }

    /// The wire text held under `key`.
    pub fn get(&self, key: &str) -> (r: Option<&String>)
        ensures
            r is Some <==> self@.contains_key(key@),
            r matches Some(v) ==> v@ == self@[key@],
    {
        proof {
            use_type_invariant(self);
            lemma_to_map_at(self.pairs(), key@);
        }
        let key = key.to_owned();
        match self.find(&key) {
            Some(i) => Some(&self.entries[i].1),
            None => None,
        }
    }

    /// The pairs held, in the order in which they are kept.
    pub fn to_vec(&self) -> (r: Vec<(&String, &String)>)
        ensures
            pairs_of(r@) == self.pairs(),
    {
        let mut r: Vec<(&String, &String)> = Vec::new();
        let mut i: usize = 0;
        while i < self.entries.len()
            invariant
                i <= self.entries@.len(),
                r@.len() == i,
                forall|j: int|
                    0 <= j < i ==> (#[trigger] r@[j]).0@ == self.entries@[j].0@ && r@[j].1@
                        == self.entries@[j].1@,
            decreases self.entries@.len() - i,
        {
            let entry = &self.entries[i];
            r.push((&entry.0, &entry.1));
            i += 1;
        }
        assert(pairs_of(r@) =~= self.pairs());
        r
    }
}

/// The names and values that a list of borrowed pairs shows.
pub open spec fn pairs_of(refs: Seq<(&String, &String)>) -> Seq<(Seq<char>, Seq<char>)> {
    Seq::new(refs.len(), |i: int| (refs[i].0@, refs[i].1@))
}

} // verus!
