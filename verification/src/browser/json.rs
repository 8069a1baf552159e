//! JSON values and the WebDriver capability maps built from them.
use vstd::prelude::*;

use crate::keyed::{distinct_keys, lemma_pairs_absent, lemma_pairs_domain, lemma_pairs_index, lemma_pairs_push, lemma_pairs_update, pairs_map};

verus! {

/// A JSON value. An integer is a `Number` when it fits in an `i64` and an
/// `Unsigned` above that; any other number is a `Float`, kept as its JSON
/// text.
#[derive(Debug)]
pub enum Json {
    Null,
    Bool(bool),
    Number(i64),
    Unsigned(u64),
    Float(String),
    Text(String),
    Array(Vec<Json>),
    Object(Vec<(String, Json)>),
}

/// Two JSON values hold the same data.
pub open spec fn same_json(a: Json, b: Json) -> bool
    decreases a,
{
    match (a, b) {
        (Json::Null, Json::Null) => true,
        (Json::Bool(x), Json::Bool(y)) => x == y,
        (Json::Number(x), Json::Number(y)) => x == y,
        (Json::Unsigned(x), Json::Unsigned(y)) => x == y,
        (Json::Float(x), Json::Float(y)) => x@ == y@,
        (Json::Text(x), Json::Text(y)) => x@ == y@,
        (Json::Array(x), Json::Array(y)) => x@.len() == y@.len() && forall|i: int|
            0 <= i < x@.len() ==> same_json(#[trigger] x@[i], y@[i]),
        (Json::Object(x), Json::Object(y)) => x@.len() == y@.len() && forall|i: int|
            0 <= i < x@.len() ==> (#[trigger] x@[i]).0@ == y@[i].0@ && same_json(x@[i].1, y@[i].1),
        _ => false,
    }
}

/// The data a JSON value holds, with objects as their entries in order;
/// integers as integers, other numbers as their JSON text.
pub enum JsonData {
    Null,
    Bool(bool),
    Number(int),
    Float(Seq<char>),
    Text(Seq<char>),
    Array(Seq<JsonData>),
    Object(Seq<(Seq<char>, JsonData)>),
}

/// `j` holds the data `d`.
pub open spec fn json_is(j: Json, d: JsonData) -> bool
    decreases j,
{
    match (j, d) {
        (Json::Null, JsonData::Null) => true,
        (Json::Bool(x), JsonData::Bool(y)) => x == y,
        (Json::Number(x), JsonData::Number(y)) => x == y,
        (Json::Unsigned(x), JsonData::Number(y)) => x == y,
        (Json::Float(x), JsonData::Float(y)) => x@ == y,
        (Json::Text(x), JsonData::Text(y)) => x@ == y,
        (Json::Array(x), JsonData::Array(y)) => x@.len() == y.len() && forall|i: int|
            0 <= i < x@.len() ==> json_is(#[trigger] x@[i], y[i]),
        (Json::Object(x), JsonData::Object(y)) => x@.len() == y.len() && forall|i: int|
            0 <= i < x@.len() ==> (#[trigger] x@[i]).0@ == y[i].0 && json_is(x@[i].1, y[i].1),
        _ => false,
    }
}

/// The characters of each string.
pub open spec fn strs(items: Seq<&str>) -> Seq<Seq<char>> {
    items.map_values(|s: &str| s@)
}

/// Texts holding the strings `ss`, in order.
pub open spec fn text_data(ss: Seq<Seq<char>>) -> Seq<JsonData> {
    ss.map_values(|s: Seq<char>| JsonData::Text(s))
}

/// Each value of `c` holds the data under the same key in `d`, and both
/// have the same keys.
pub open spec fn holds_data(c: Map<Seq<char>, Json>, d: Map<Seq<char>, JsonData>) -> bool {
    &&& c.dom() == d.dom()
    &&& forall|k: Seq<char>| #[trigger] d.contains_key(k) ==> json_is(c[k], d[k])
}

impl Json {
    /// A text value.
    pub fn text(s: &str) -> (j: Json)
        ensures
            json_is(j, JsonData::Text(s@)),
    {
        Json::Text(String::from_str(s))
    }

    /// An array of the texts `items`, followed by the texts `more`.
    pub fn texts(items: &[&str], more: &[&str]) -> (j: Json)
        ensures
            json_is(j, JsonData::Array(text_data(strs(items@) + strs(more@)))),
    {
        let ghost all = strs(items@) + strs(more@);
        let mut v: Vec<Json> = Vec::new();
        for i in 0..items.len()
            invariant
                all == strs(items@) + strs(more@),
                v@.len() == i,
                forall|k: int| 0 <= k < i ==> json_is(#[trigger] v@[k], JsonData::Text(all[k])),
        {
            v.push(Json::text(items[i]));
        }
        for i in 0..more.len()
            invariant
                all == strs(items@) + strs(more@),
                v@.len() == items@.len() + i,
                forall|k: int| 0 <= k < items@.len() + i ==> json_is(#[trigger] v@[k], JsonData::Text(all[k])),
        {
            v.push(Json::text(more[i]));
        }
        let j = Json::Array(v);
        assert(json_is(j, JsonData::Array(text_data(all))));
        j
    }

    /// An entry of an object.
    pub fn entry(key: &str, value: Json) -> (e: (String, Json))
        ensures
            e.0@ == key@,
            e.1 == value,
    {
        (String::from_str(key), value)
    }

    /// A copy of this value.
    pub fn duplicate(&self) -> (j: Json)
        ensures
            same_json(j, *self),
        decreases self,
    {
        broadcast use vstd::std_specs::vec::axiom_vec_decreases_to_view;
        match self {
            Json::Null => Json::Null,
            Json::Bool(b) => Json::Bool(*b),
            Json::Number(n) => Json::Number(*n),
            Json::Unsigned(n) => Json::Unsigned(*n),
            Json::Float(t) => Json::Float(t.clone()),
            Json::Text(s) => Json::Text(s.clone()),
            Json::Array(v) => {
                let mut out: Vec<Json> = Vec::new();
                for i in 0..v.len()
                    invariant
                        *self == Json::Array(*v),
                        out@.len() == i,
                        forall|k: int| 0 <= k < i ==> same_json(#[trigger] out@[k], v@[k]),
                {
                    assert(decreases_to!(*self => (*self)->Array_0));
                    assert(decreases_to!(*v => v@));
                    assert(decreases_to!(v@ => v@[i as int]));
                    assert(decreases_to!(*self => v@[i as int]));
                    out.push(v[i].duplicate());
                }
                Json::Array(out)
            },
            Json::Object(v) => {
                let mut out: Vec<(String, Json)> = Vec::new();
                for i in 0..v.len()
                    invariant
                        *self == Json::Object(*v),
                        out@.len() == i,
                        forall|k: int| 0 <= k < i ==> (#[trigger] out@[k]).0@ == v@[k].0@ && same_json(out@[k].1, v@[k].1),
                {
                    assert(decreases_to!(*v => v@));
                    assert(decreases_to!(v@ => v@[i as int]));
                    assert(decreases_to!(v@[i as int] => v@[i as int].1));
                    assert(decreases_to!(*self => (*self)->Object_0));
                    assert(decreases_to!(*self => v@[i as int].1));
                    out.push((v[i].0.clone(), v[i].1.duplicate()));
                }
                Json::Object(out)
            },
        }
    }
}

impl Clone for Json {
    fn clone(&self) -> (j: Json)
        ensures
            same_json(j, *self),
    {
        self.duplicate()
    }
}

/// The key-value pairs of a capability map, keys by their characters.
pub open spec fn capability_pairs(s: Seq<(String, Json)>) -> Seq<(Seq<char>, Json)> {
    s.map_values(|e: (String, Json)| (e.0@, e.1))
}

/// WebDriver capabilities: a map from capability names to JSON values.
#[derive(Debug)]
pub struct Capabilities {
    entries: Vec<(String, Json)>,
}

impl View for Capabilities {
    type V = Map<Seq<char>, Json>;

    closed spec fn view(&self) -> Map<Seq<char>, Json> {
        pairs_map(capability_pairs(self.entries@))
    }
}

impl Capabilities {
    #[verifier::type_invariant]
    spec fn unique(self) -> bool {
        distinct_keys(capability_pairs(self.entries@))
    }

    /// An empty map.
    pub fn new() -> (c: Capabilities)
        ensures
            c@ == Map::<Seq<char>, Json>::empty(),
    {
        let c = Capabilities { entries: Vec::new() };
        assert(capability_pairs(c.entries@) =~= Seq::<(Seq<char>, Json)>::empty());
        c
    }

    /// The position of `key`, if present.
    fn position(&self, key: &str) -> (p: Option<usize>)
        ensures
            match p {
                Some(i) => i < self.entries@.len() && self.entries@[i as int].0@ == key@,
                None => forall|i: int| 0 <= i < self.entries@.len() ==> self.entries@[i].0@ != key@,
            },
    {
        for i in 0..self.entries.len()
            invariant
                forall|j: int| 0 <= j < i ==> self.entries@[j].0@ != key@,
        {
            if crate::text::str_eq(self.entries[i].0.as_str(), key) {
                return Some(i);
            }
        }
        None
    }

    /// The value of `key`, if present.
    pub fn get(&self, key: &str) -> (v: Option<&Json>)
        ensures
            match v {
                Some(x) => self@.contains_key(key@) && self@[key@] == *x,
                None => !self@.contains_key(key@),
            },
    {
        proof {
            use_type_invariant(self);
        }
        let ghost s = capability_pairs(self.entries@);
        match self.position(key) {
            Some(i) => {
                proof {
                    lemma_pairs_index(s, i as int);
                }
                Some(&self.entries[i].1)
            },
            None => {
                proof {
                    assert forall|i: int| 0 <= i < s.len() implies s[i].0 != key@ by {
                        assert(self.entries@[i].0@ != key@);
                    }
                    lemma_pairs_absent(s, key@);
                }
                None
            },
        }
    }

    /// Whether `key` is present.
    pub fn contains_key(&self, key: &str) -> (r: bool)
        ensures
            r == self@.contains_key(key@),
    {
        self.get(key).is_some()
    }

    /// The number of entries.
    pub fn len(&self) -> (n: usize)
        ensures
            n == self@.len(),
    {
        proof {
            use_type_invariant(self);
            lemma_unique_len(capability_pairs(self.entries@));
        }
        self.entries.len()
    }

    /// The entries, in insertion order.
    pub fn entries(&self) -> (e: &Vec<(String, Json)>)
        ensures
            pairs_map(capability_pairs(e@)) == self@,
            distinct_keys(capability_pairs(e@)),
    {
        proof {
            use_type_invariant(self);
        }
        &self.entries
    }

    /// Sets `key` to `value`, replacing an earlier value.
    pub fn insert(&mut self, key: String, value: Json)
        ensures
            final(self)@ == old(self)@.insert(key@, value),
    {
        proof {
            use_type_invariant(&*self);
        }
        let ghost s = capability_pairs(self.entries@);
        let ghost kv = key@;
        let ghost vv = value;
        match self.position(key.as_str()) {
            Some(i) => {
                let mut entries = Vec::new();
                std::mem::swap(&mut entries, &mut self.entries);
                entries.set(i, (key, value));
                proof {
                    assert(capability_pairs(entries@) =~= s.update(i as int, (s[i as int].0, vv)));
                    lemma_pairs_update(s, i as int, vv);
                }
                self.entries = entries;
            },
            None => {
                proof {
                    assert forall|i: int| 0 <= i < s.len() implies s[i].0 != kv by {
                        assert(self.entries@[i].0@ != kv);
                    }
                    lemma_pairs_push(s, kv, vv);
                }
                let mut entries = Vec::new();
                std::mem::swap(&mut entries, &mut self.entries);
                entries.push((key, value));
                proof {
                    assert(capability_pairs(entries@) =~= s.push((kv, vv)));
                }
                self.entries = entries;
            },
        }
    }

    /// Sets each of `other`'s keys to its value there, replacing earlier values.
    pub fn extend(&mut self, other: Capabilities)
        ensures
            final(self)@ == old(self)@.union_prefer_right(other@),
    {
        proof {
            use_type_invariant(&other);
        }
        let Capabilities { entries } = other;
        let mut rest = entries;
        let ghost s = capability_pairs(rest@);
        let ghost all = rest@;
        let ghost start = self@;
        let mut i: usize = 0;
        assert(all.len() == rest.len());
        while rest.len() > 0
            invariant
                all.len() <= usize::MAX,
                s == capability_pairs(all),
                i <= all.len(),
                rest@ == all.skip(i as int),
                self@ == start.union_prefer_right(pairs_map(s.take(i as int))),
            decreases rest.len(),
        {
            let (k, v) = rest.remove(0);
            self.insert(k, v);
            assert(s.take(i + 1).drop_last() == s.take(i as int));
            assert(self@ =~= start.union_prefer_right(pairs_map(s.take(i + 1))));
            i = i + 1;
        }
        assert(s.take(i as int) == s);
    }

    /// A copy of this map: the same keys, each with the same data.
    pub fn duplicate(&self) -> (c: Capabilities)
        ensures
            c@.dom() == self@.dom(),
            forall|k: Seq<char>| #[trigger] self@.contains_key(k) ==> same_json(c@[k], self@[k]),
    {
        proof {
            use_type_invariant(self);
        }
        let ghost s = capability_pairs(self.entries@);
        let mut out: Vec<(String, Json)> = Vec::new();
        for i in 0..self.entries.len()
            invariant
                s == capability_pairs(self.entries@),
                distinct_keys(s),
                out@.len() == i,
                forall|k: int| 0 <= k < i ==> (#[trigger] out@[k]).0@ == self.entries@[k].0@
                    && same_json(out@[k].1, self.entries@[k].1),
        {
            out.push((self.entries[i].0.clone(), self.entries[i].1.duplicate()));
        }
        let ghost t = capability_pairs(out@);
        assert forall|a: int, b: int| 0 <= a < t.len() && 0 <= b < t.len() && a != b implies t[a].0 != t[b].0 by {
            assert(t[a].0 == s[a].0 && t[b].0 == s[b].0);
        }
        assert forall|k: Seq<char>| #[trigger] self@.contains_key(k) implies pairs_map(t).contains_key(k) && same_json(pairs_map(t)[k], self@[k]) by {
            lemma_pairs_domain(s, k);
            let i = choose|i: int| 0 <= i < s.len() && s[i].0 == k;
            lemma_pairs_index(s, i);
            lemma_pairs_index(t, i);
        }
        assert forall|k: Seq<char>| pairs_map(t).contains_key(k) implies #[trigger] self@.contains_key(k) by {
            lemma_pairs_domain(t, k);
            let i = choose|i: int| 0 <= i < t.len() && t[i].0 == k;
            lemma_pairs_index(s, i);
        }
        assert(pairs_map(t).dom() =~= self@.dom());
        Capabilities { entries: out }
    }
}

/// With distinct keys, the map has as many keys as there are pairs.
proof fn lemma_unique_len<K, V>(s: Seq<(K, V)>)
    requires
        distinct_keys(s),
    ensures
        pairs_map(s).len() == s.len(),
        pairs_map(s).dom().finite(),
    decreases s.len(),
{
    if s.len() > 0 {
        let t = s.drop_last();
        assert(distinct_keys(t));
        lemma_unique_len(t);
        assert forall|i: int| 0 <= i < t.len() implies t[i].0 != s.last().0 by {
            assert(s[i].0 != s[s.len() - 1].0);
        }
        lemma_pairs_absent(t, s.last().0);
    }
}

} // verus!
