use vstd::prelude::*;
use crate::text::strings_equal;

verus! {

/// No key occurs twice in the entry list.
pub open spec fn distinct_keys(s: Seq<(String, String)>) -> bool {
    forall|i: int, j: int| 0 <= i < j < s.len() ==> s[i].0@ != s[j].0@
}

/// The map that an entry list denotes; later entries win.
pub open spec fn entries_map(s: Seq<(String, String)>) -> Map<Seq<char>, Seq<char>>
    decreases s.len(),
{
    if s.len() == 0 {
        Map::empty()
    } else {
        entries_map(s.drop_last()).insert(s.last().0@, s.last().1@)
    }
}

/// A string-keyed map of string values, such as a set of query parameters or
/// the dimension qualifiers of a fact.
#[derive(Debug, Clone)]
pub struct StringMap {
    entries: Vec<(String, String)>,
}

impl View for StringMap {
    type V = Map<Seq<char>, Seq<char>>;

    closed spec fn view(&self) -> Map<Seq<char>, Seq<char>> {
        entries_map(self.entries@)
    }
}

proof fn lemma_entries_map_contains(s: Seq<(String, String)>, k: Seq<char>)
    ensures
        entries_map(s).contains_key(k) <==> exists|i: int| 0 <= i < s.len() && s[i].0@ == k,
    decreases s.len(),
{
    if s.len() > 0 {
        lemma_entries_map_contains(s.drop_last(), k);
        if s.last().0@ == k {
            assert(s[s.len() - 1].0@ == k);
        } else {
            if entries_map(s).contains_key(k) {
                let i = choose|i: int| 0 <= i < s.drop_last().len() && s.drop_last()[i].0@ == k;
                assert(s[i].0@ == k);
            }
            if exists|i: int| 0 <= i < s.len() && s[i].0@ == k {
                let i = choose|i: int| 0 <= i < s.len() && s[i].0@ == k;
                assert(s.drop_last()[i].0@ == k);
            }
        }
    }
}

proof fn lemma_entries_map_value(s: Seq<(String, String)>, i: int)
    requires
        distinct_keys(s),
        0 <= i < s.len(),
    ensures
        entries_map(s).contains_key(s[i].0@),
        entries_map(s)[s[i].0@] == s[i].1@,
    decreases s.len(),
{
    if i == s.len() - 1 {
    } else {
        assert(distinct_keys(s.drop_last()));
        assert(s.drop_last()[i] == s[i]);
        lemma_entries_map_value(s.drop_last(), i);
        assert(s[i].0@ != s.last().0@);
    }
}

proof fn lemma_entries_map_dom_len(s: Seq<(String, String)>)
    requires
        distinct_keys(s),
    ensures
        entries_map(s).dom().finite(),
        entries_map(s).dom().len() == s.len(),
    decreases s.len(),
{
    if s.len() > 0 {
        assert(distinct_keys(s.drop_last()));
        lemma_entries_map_dom_len(s.drop_last());
        lemma_entries_map_contains(s.drop_last(), s.last().0@);
        assert(!entries_map(s.drop_last()).contains_key(s.last().0@));
        assert(entries_map(s).dom() =~= entries_map(s.drop_last()).dom().insert(s.last().0@));
    }
}

impl StringMap {
    /// The entry list holds each key at most once.
    pub closed spec fn wf(&self) -> bool {
        distinct_keys(self.entries@)
    }

    /// An empty map.
    pub fn new() -> (r: StringMap)
        ensures
            r.wf(),
            r@ == Map::<Seq<char>, Seq<char>>::empty(),
    {
        StringMap { entries: Vec::new() }
    }

    /// How many keys the map holds.
    pub fn len(&self) -> (r: usize)
        requires
            self.wf(),
        ensures
            r as nat == self@.dom().len(),
    {
        proof {
            lemma_entries_map_dom_len(self.entries@);
        }
        self.entries.len()
    }

    /// Bind a key to a value, replacing any earlier binding of the same key.
    pub fn insert(&mut self, key: String, value: String)
        requires
            old(self).wf(),
        ensures
            final(self).wf(),
            final(self)@ == old(self)@.insert(key@, value@),
    {
        let ghost s = self.entries@;
        let mut i: usize = 0;
        while i < self.entries.len()
            invariant
                self.entries@ == s,
                s == old(self).entries@,
                distinct_keys(s),
                0 <= i <= s.len(),
                forall|j: int| 0 <= j < i ==> s[j].0@ != key@,
            decreases s.len() - i,
        {
            if strings_equal(self.entries[i].0.as_str(), key.as_str()) {
                proof {
                    assert(s[i as int].0@ == key@);
                }
                self.entries.set(i, (key, value));
                proof {
                    let u = self.entries@;
                    assert(u == s.update(i as int, (key, value)));
                    assert forall|m: int| 0 <= m < u.len() implies u[m].0@ == s[m].0@ by {
                        if m != i {
                            assert(u[m] == s[m]);
                        }
                    }
                    assert forall|a: int, b: int| 0 <= a < b < u.len() implies u[a].0@ != u[b].0@ by {
                        assert(u[a].0@ == s[a].0@);
                        assert(u[b].0@ == s[b].0@);
                        assert(s[a].0@ != s[b].0@);
                    }
                    assert(distinct_keys(u));
                    assert forall|k: Seq<char>|
                        entries_map(u).contains_key(k) == entries_map(s).insert(
                            key@,
                            value@,
                        ).contains_key(k) by {
                        lemma_entries_map_contains(u, k);
                        lemma_entries_map_contains(s, k);
                        if entries_map(u).contains_key(k) {
                            let a = choose|a: int| 0 <= a < u.len() && u[a].0@ == k;
                            assert(s[a].0@ == k);
                        }
                        if entries_map(s).contains_key(k) {
                            let a = choose|a: int| 0 <= a < s.len() && s[a].0@ == k;
                            assert(u[a].0@ == k);
                        }
                        if k == key@ {
                            assert(u[i as int].0@ == k);
                        }
                    }
                    assert forall|k: Seq<char>| entries_map(u).contains_key(k) implies entries_map(
                        u,
                    )[k] == entries_map(s).insert(key@, value@)[k] by {
                        lemma_entries_map_contains(u, k);
                        let j = choose|j: int| 0 <= j < u.len() && u[j].0@ == k;
                        lemma_entries_map_value(u, j);
                        if k == key@ {
                            assert(j == i);
                        } else {
                            assert(u[j] == s[j]);
                            lemma_entries_map_value(s, j);
                        }
                    }
                    assert(entries_map(u) =~= entries_map(s).insert(key@, value@));
                }
                return ;
            }
            i += 1;
        }
        self.entries.push((key, value));
        proof {
            let u = self.entries@;
            assert(u.drop_last() =~= s);
            assert(distinct_keys(u));
        }
    }

    /// The value bound to a key, if any.
    pub fn get(&self, key: &str) -> (r: Option<&String>)
        requires
            self.wf(),
        ensures
            match r {
                Some(v) => self@.contains_key(key@) && v@ == self@[key@],
                None => !self@.contains_key(key@),
            },
    {
        let ghost s = self.entries@;
        let mut i: usize = 0;
        while i < self.entries.len()
            invariant
                self.entries@ == s,
                distinct_keys(s),
                0 <= i <= s.len(),
                forall|j: int| 0 <= j < i ==> s[j].0@ != key@,
            decreases s.len() - i,
        {
            if strings_equal(self.entries[i].0.as_str(), key) {
                proof {
                    lemma_entries_map_value(s, i as int);
                }
                return Some(&self.entries[i].1);
            }
            i += 1;
        }
        proof {
            lemma_entries_map_contains(s, key@);
        }
        None
    }

    /// Whether the map holds a binding for the key.
    pub fn contains_key(&self, key: &str) -> (r: bool)
        requires
            self.wf(),
        ensures
            r == self@.contains_key(key@),
    {
        match self.get(key) {
            Some(_) => true,
            None => false,
        }
    }
}

} // verus!
