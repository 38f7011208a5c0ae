//! A map from strings to strings, and a set of strings, held in vectors
//! whose keys never repeat.
use vstd::prelude::*;
use crate::text::str_eq;

verus! {

/// The views of a vector of key/value pairs.
pub open spec fn pairs_view(v: Seq<(String, String)>) -> Seq<(Seq<char>, Seq<char>)> {
    v.map_values(|p: (String, String)| (p.0@, p.1@))
}

/// No key occurs twice.
pub open spec fn keys_distinct(p: Seq<(Seq<char>, Seq<char>)>) -> bool {
    forall|i: int, j: int| 0 <= i < p.len() && 0 <= j < p.len() && i != j ==> p[i].0 != p[j].0
}

/// The map that a sequence of pairs with distinct keys stands for.
pub open spec fn map_of(p: Seq<(Seq<char>, Seq<char>)>) -> Map<Seq<char>, Seq<char>> {
    Map::new(
        |k: Seq<char>| exists|i: int| 0 <= i < p.len() && p[i].0 == k,
        |k: Seq<char>| p[choose|i: int| 0 <= i < p.len() && p[i].0 == k].1,
    )
}

/// A map from strings to strings. Its keys are distinct.
#[derive(Debug)]
pub struct StringMap {
    entries: Vec<(String, String)>,
}

impl View for StringMap {
    type V = Map<Seq<char>, Seq<char>>;

    closed spec fn view(&self) -> Map<Seq<char>, Seq<char>> {
        map_of(pairs_view(self.entries@))
    }
}

proof fn lemma_map_of_at(p: Seq<(Seq<char>, Seq<char>)>, i: int)
    requires
        keys_distinct(p),
        0 <= i < p.len(),
    ensures
        map_of(p).dom().contains(p[i].0),
        map_of(p)[p[i].0] == p[i].1,
{
    let k = p[i].0;
    assert(exists|j: int| 0 <= j < p.len() && p[j].0 == k);
    let j = choose|j: int| 0 <= j < p.len() && p[j].0 == k;
    assert(j == i);
}

impl StringMap {
    #[verifier::type_invariant]
    closed spec fn inv(self) -> bool {
        keys_distinct(pairs_view(self.entries@))
    }

    /// The empty map.
    pub fn new() -> (m: StringMap)
        ensures
            m@ == Map::<Seq<char>, Seq<char>>::empty(),
    {
        let m = StringMap { entries: Vec::new() };
        assert(m@ =~= Map::<Seq<char>, Seq<char>>::empty());
        m
    }

    /// Position of `key` among the entries, if it is there.
    fn position(&self, key: &str) -> (r: Option<usize>)
        ensures
            match r {
                Some(i) => i < self.entries@.len() && self.entries@[i as int].0@ == key@,
                None => forall|i: int|
                    0 <= i < self.entries@.len() ==> self.entries@[i].0@ != key@,
            },
    {
        let mut i: usize = 0;
        while i < self.entries.len()
            invariant
                i <= self.entries@.len(),
                forall|j: int| 0 <= j < i ==> self.entries@[j].0@ != key@,
            decreases self.entries@.len() - i,
        {
            if str_eq(self.entries[i].0.as_str(), key) {
                return Some(i);
            }
            i = i + 1;
        }
        None
    }

    /// Whether `key` is in the map.
    pub fn contains_key(&self, key: &str) -> (b: bool)
        ensures
            b == self@.dom().contains(key@),
    {
        proof {
            use_type_invariant(self);
        }
        match self.position(key) {
            Some(i) => {
                proof {
                    lemma_map_of_at(pairs_view(self.entries@), i as int);
                }
                true
            },
            None => {
                assert(!self@.dom().contains(key@)) by {
                    let p = pairs_view(self.entries@);
                    if exists|j: int| 0 <= j < p.len() && p[j].0 == key@ {
                        let j = choose|j: int| 0 <= j < p.len() && p[j].0 == key@;
                        assert(self.entries@[j].0@ == key@);
                    }
                }
                false
            },
        }
    }

    /// The value stored under `key`.
    pub fn get(&self, key: &str) -> (r: Option<&String>)
        ensures
            match r {
                Some(v) => self@.dom().contains(key@) && self@[key@] == v@,
                None => !self@.dom().contains(key@),
            },
    {
        proof {
            use_type_invariant(self);
        }
        match self.position(key) {
            Some(i) => {
                proof {
                    lemma_map_of_at(pairs_view(self.entries@), i as int);
                }
                Some(&self.entries[i].1)
            },
            None => {
                assert(!self@.dom().contains(key@)) by {
                    let p = pairs_view(self.entries@);
                    if exists|j: int| 0 <= j < p.len() && p[j].0 == key@ {
                        let j = choose|j: int| 0 <= j < p.len() && p[j].0 == key@;
                        assert(self.entries@[j].0@ == key@);
                    }
                }
                None
            },
        }
    }

    /// Stores `value` under `key`, replacing what was there.
    pub fn insert(&mut self, key: String, value: String)
        ensures
            final(self)@ == old(self)@.insert(key@, value@),
    {
        proof {
            use_type_invariant(&*self);
        }
        let ghost old_p = pairs_view(self.entries@);
        let ghost k = key@;
        let ghost v = value@;
        match self.position(key.as_str()) {
            Some(i) => {
                assert(old_p[i as int].0 == k);
                let mut entries: Vec<(String, String)> = Vec::new();
                std::mem::swap(&mut entries, &mut self.entries);
                entries.set(i, (key, value));
                let ghost new_p = pairs_view(entries@);
                assert(new_p =~= old_p.update(i as int, (k, v)));
                assert forall|a: int, b: int|
                    0 <= a < new_p.len() && 0 <= b < new_p.len() && a != b implies new_p[a].0
                    != new_p[b].0 by {
                    assert(old_p[a].0 != old_p[b].0);
                }
                assert(map_of(new_p) =~= map_of(old_p).insert(k, v)) by {
                    assert forall|q: Seq<char>| #[trigger]
                        map_of(new_p).dom().contains(q) == map_of(old_p).insert(
                            k,
                            v,
                        ).dom().contains(q) by {
                        if q == k {
                            lemma_map_of_at(new_p, i as int);
                            lemma_map_of_at(old_p, i as int);
                        } else if map_of(old_p).dom().contains(q) {
                            let j = choose|j: int| 0 <= j < old_p.len() && old_p[j].0 == q;
                            assert(new_p[j].0 == q);
                        } else if map_of(new_p).dom().contains(q) {
                            let j = choose|j: int| 0 <= j < new_p.len() && new_p[j].0 == q;
                            assert(old_p[j].0 == q);
                        }
                    }
                    assert forall|q: Seq<char>| #[trigger]
                        map_of(new_p).dom().contains(q) implies map_of(new_p)[q] == map_of(
                        old_p,
                    ).insert(k, v)[q] by {
                        let j = choose|j: int| 0 <= j < new_p.len() && new_p[j].0 == q;
                        lemma_map_of_at(new_p, j);
                        if q != k {
                            lemma_map_of_at(old_p, j);
                        }
                    }
                }
                self.entries = entries;
            },
            None => {
                let mut entries: Vec<(String, String)> = Vec::new();
                std::mem::swap(&mut entries, &mut self.entries);
                entries.push((key, value));
                let ghost new_p = pairs_view(entries@);
                assert(new_p =~= old_p.push((k, v)));
                assert(keys_distinct(new_p));
                assert(map_of(new_p) =~= map_of(old_p).insert(k, v)) by {
                    let n = old_p.len() as int;
                    assert forall|q: Seq<char>| #[trigger]
                        map_of(new_p).dom().contains(q) == map_of(old_p).insert(
                            k,
                            v,
                        ).dom().contains(q) by {
                        if q == k {
                            lemma_map_of_at(new_p, n);
                        } else if map_of(old_p).dom().contains(q) {
                            let j = choose|j: int| 0 <= j < old_p.len() && old_p[j].0 == q;
                            assert(new_p[j].0 == q);
                        } else if map_of(new_p).dom().contains(q) {
                            let j = choose|j: int| 0 <= j < new_p.len() && new_p[j].0 == q;
                            assert(old_p[j].0 == q);
                        }
                    }
                    assert forall|q: Seq<char>| #[trigger]
                        map_of(new_p).dom().contains(q) implies map_of(new_p)[q] == map_of(
                        old_p,
                    ).insert(k, v)[q] by {
                        let j = choose|j: int| 0 <= j < new_p.len() && new_p[j].0 == q;
                        lemma_map_of_at(new_p, j);
                        if q != k {
                            lemma_map_of_at(old_p, j);
                        }
                    }
                }
                self.entries = entries;
            },
        }
    }

    /// The entries, each key once.
    pub fn pairs(&self) -> (r: &Vec<(String, String)>)
        ensures
            keys_distinct(pairs_view(r@)),
            map_of(pairs_view(r@)) == self@,
    {
        proof {
            use_type_invariant(self);
        }
        &self.entries
    }
}

/// The views of a vector of strings.
pub open spec fn strings_view(v: Seq<String>) -> Seq<Seq<char>> {
    v.map_values(|s: String| s@)
}

/// A set of strings. Its elements are held once each.
#[derive(Debug)]
pub struct StringSet {
    items: Vec<String>,
}

impl View for StringSet {
    type V = Set<Seq<char>>;

    closed spec fn view(&self) -> Set<Seq<char>> {
        strings_view(self.items@).to_set()
    }
}

impl StringSet {
    #[verifier::type_invariant]
    closed spec fn inv(self) -> bool {
        strings_view(self.items@).no_duplicates()
    }

    /// The empty set.
    pub fn new() -> (s: StringSet)
        ensures
            s@ == Set::<Seq<char>>::empty(),
    {
        let s = StringSet { items: Vec::new() };
        assert(s@ =~= Set::<Seq<char>>::empty());
        s
    }

    /// Whether `item` is in the set.
    pub fn contains(&self, item: &str) -> (b: bool)
        ensures
            b == self@.contains(item@),
    {
        let mut i: usize = 0;
        while i < self.items.len()
            invariant
                i <= self.items@.len(),
                forall|j: int| 0 <= j < i ==> self.items@[j]@ != item@,
            decreases self.items@.len() - i,
        {
            if str_eq(self.items[i].as_str(), item) {
                assert(strings_view(self.items@)[i as int] == item@);
                return true;
            }
            i = i + 1;
        }
        assert(!strings_view(self.items@).contains(item@));
        false
    }

    /// Whether the set has no element.
    pub fn is_empty(&self) -> (b: bool)
        ensures
            b == (self@ == Set::<Seq<char>>::empty()),
    {
        if self.items.len() == 0 {
            assert(self@ =~= Set::<Seq<char>>::empty());
            true
        } else {
            assert(self@.contains(strings_view(self.items@)[0]));
            false
        }
    }

    /// Adds `item` to the set.
    pub fn insert(&mut self, item: String)
        ensures
            final(self)@ == old(self)@.insert(item@),
    {
        proof {
            use_type_invariant(&*self);
        }
        if self.contains(item.as_str()) {
            assert(old(self)@.insert(item@) =~= old(self)@);
        } else {
            let ghost old_v = strings_view(self.items@);
            let ghost x = item@;
            let mut items: Vec<String> = Vec::new();
            std::mem::swap(&mut items, &mut self.items);
            items.push(item);
            assert(strings_view(items@) =~= old_v.push(x));
            let ghost new_v = strings_view(items@);
            assert forall|q: Seq<char>|
                new_v.to_set().contains(q) <==> #[trigger] old_v.to_set().insert(x).contains(q) by {
                broadcast use vstd::seq_lib::group_seq_properties;

                if new_v.contains(q) {
                    let j = choose|j: int| 0 <= j < new_v.len() && new_v[j] == q;
                    if j < old_v.len() {
                        assert(old_v[j] == q);
                    }
                }
                if old_v.contains(q) {
                    let j = choose|j: int| 0 <= j < old_v.len() && old_v[j] == q;
                    assert(new_v[j] == q);
                }
                if q == x {
                    assert(new_v[old_v.len() as int] == x);
                }
            }
            assert(new_v.to_set() =~= old_v.to_set().insert(x));
            self.items = items;
        }
    }

    /// The elements, each once.
    pub fn items(&self) -> (r: &Vec<String>)
        ensures
            strings_view(r@).no_duplicates(),
            strings_view(r@).to_set() == self@,
    {
        proof {
            use_type_invariant(self);
        }
        &self.items
    }
}

impl Clone for StringMap {
    fn clone(&self) -> (r: StringMap)
        ensures
            r@ == self@,
    {
        proof {
            use_type_invariant(self);
        }
        let mut entries: Vec<(String, String)> = Vec::new();
        let mut i: usize = 0;
        while i < self.entries.len()
            invariant
                i <= self.entries@.len(),
                entries@.len() == i,
                forall|j: int|
                    0 <= j < i ==> #[trigger] entries@[j].0@ == self.entries@[j].0@
                        && entries@[j].1@ == self.entries@[j].1@,
            decreases self.entries@.len() - i,
        {
            let k = self.entries[i].0.clone();
            let v = self.entries[i].1.clone();
            let ghost prev = entries@;
            entries.push((k, v));
            assert(forall|j: int| 0 <= j < i ==> entries@[j] == prev[j]);
            i = i + 1;
        }
        assert(pairs_view(entries@) =~= pairs_view(self.entries@));
        StringMap { entries }
    }
}

impl Clone for StringSet {
    fn clone(&self) -> (r: StringSet)
        ensures
            r@ == self@,
    {
        proof {
            use_type_invariant(self);
        }
        let mut items: Vec<String> = Vec::new();
        let mut i: usize = 0;
        while i < self.items.len()
            invariant
                i <= self.items@.len(),
                items@.len() == i,
                forall|j: int| 0 <= j < i ==> #[trigger] items@[j]@ == self.items@[j]@,
            decreases self.items@.len() - i,
        {
            items.push(self.items[i].clone());
            i = i + 1;
        }
        assert(strings_view(items@) =~= strings_view(self.items@));
        StringSet { items }
    }
}

} // verus!
