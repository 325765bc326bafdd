//! Object metadata, owner references and string maps.

use vstd::prelude::*;

verus! {

/// A type whose values can be copied into an equal value.
pub trait Duplicate: Sized {
    fn duplicate(&self) -> (r: Self)
        ensures
            r == *self,
    ;
}

/// A copy of a list whose elements can be copied.
pub fn duplicate_all<T: Duplicate>(v: &Vec<T>) -> (r: Vec<T>)
    ensures
        r@ == v@,
{
    let mut r: Vec<T> = Vec::new();
    let mut i: usize = 0;
    while i < v.len()
        invariant
            i <= v.len(),
            r@ == v@.subrange(0, i as int),
        decreases v.len() - i,
    {
        r.push(v[i].duplicate());
        i = i + 1;
    }
    r
}

/// A copy of an optional value.
pub fn duplicate_opt<T: Duplicate>(o: &Option<T>) -> (r: Option<T>)
    ensures
        r == *o,
{
    match o {
        Some(x) => Some(x.duplicate()),
        None => None,
    }
}

/// The view of an optional string.
pub open spec fn opt_view(o: Option<String>) -> Option<Seq<char>> {
    match o {
        Some(s) => Some(s@),
        None => None,
    }
}

/// The views of a sequence of strings.
pub open spec fn strs_view(v: Seq<String>) -> Seq<Seq<char>> {
    v.map_values(|s: String| s@)
}

/// The views of an optional list of strings.
pub open spec fn opt_strs_view(o: Option<Vec<String>>) -> Option<Seq<Seq<char>>> {
    match o {
        Some(v) => Some(strs_view(v@)),
        None => None,
    }
}

/// A copy of an optional string.
pub fn copy_opt_string(o: &Option<String>) -> (r: Option<String>)
    ensures
        r == *o,
{
    match o {
        Some(s) => Some(s.clone()),
        None => None,
    }
}

/// A copy of a list of strings.
pub fn copy_strings(v: &Vec<String>) -> (r: Vec<String>)
    ensures
        r@ == v@,
{
    let mut r: Vec<String> = Vec::new();
    let mut i: usize = 0;
    while i < v.len()
        invariant
            i <= v.len(),
            r@ == v@.subrange(0, i as int),
        decreases v.len() - i,
    {
        r.push(v[i].clone());
        i = i + 1;
    }
    r
}

/// A copy of an optional list of strings.
pub fn copy_opt_strings(o: &Option<Vec<String>>) -> (r: Option<Vec<String>>)
    ensures
        opt_strs_view(r) == opt_strs_view(*o),
        r.is_some() == o.is_some(),
        r.is_some() ==> r->0@ == o->0@,
{
    match o {
        Some(v) => Some(copy_strings(v)),
        None => None,
    }
}

/// The view of a key/value entry.
pub open spec fn entry_view(e: (String, String)) -> (Seq<char>, Seq<char>) {
    (e.0@, e.1@)
}

/// `a` sorts strictly before `b`, telling at index `i`: they agree before
/// it, and there `a` ends while `b` goes on, or `a` holds the lower code
/// point. This is the order of strings as UTF-8 bytes.
pub open spec fn key_lt_at(a: Seq<char>, b: Seq<char>, i: int) -> bool {
    &&& 0 <= i <= a.len()
    &&& i <= b.len()
    &&& a.take(i) == b.take(i)
    &&& ((i == a.len() && i < b.len()) || (i < a.len() && i < b.len() && (a[i] as u32) < (
    b[i] as u32)))
}

/// `a` sorts strictly before `b`.
pub open spec fn key_lt(a: Seq<char>, b: Seq<char>) -> bool {
    exists|i: int| key_lt_at(a, b, i)
}

/// The keys strictly increase, so no key occurs twice: the entries of a
/// map as the API serialises it.
pub open spec fn keys_increasing(kv: Seq<(Seq<char>, Seq<char>)>) -> bool {
    forall|i: int, j: int| 0 <= i < j < kv.len() ==> #[trigger] key_lt(kv[i].0, kv[j].0)
}

/// A key never sorts before itself, so increasing keys are distinct.
pub proof fn lemma_increasing_keys_distinct(kv: Seq<(Seq<char>, Seq<char>)>)
    requires
        keys_increasing(kv),
    ensures
        forall|i: int, j: int| 0 <= i < j < kv.len() ==> kv[i].0 != kv[j].0,
{
    assert forall|i: int, j: int| 0 <= i < j < kv.len() implies kv[i].0 != kv[j].0 by {
        assert(key_lt(kv[i].0, kv[j].0));
    }
}

/// A string-to-string map kept as its list of entries (labels, config
/// data, resource quantities); a key maps to the value of its first entry.
/// The maps the controller builds are well formed (`wf`): their keys
/// strictly increase, as in a map keyed in order.
#[derive(Clone, Debug)]
pub struct StringMap {
    pub entries: Vec<(String, String)>,
}

impl StringMap {
    /// The entries, as views.
    pub open spec fn entries_view(&self) -> Seq<(Seq<char>, Seq<char>)> {
        self.entries@.map_values(|e: (String, String)| entry_view(e))
    }

    /// The keys strictly increase.
    pub open spec fn wf(&self) -> bool {
        keys_increasing(self.entries_view())
    }

    /// The value stored under `key`, the first entry with that key.
    pub open spec fn lookup(&self, key: Seq<char>) -> Option<Seq<char>> {
        lookup_entries(self.entries_view(), key)
    }

    /// The value stored under `key`.
    pub fn get(&self, key: &str) -> (r: Option<&String>)
        ensures
            opt_ref_view(r) == self.lookup(key@),
    {
        let mut i: usize = 0;
        assert(self.entries_view().subrange(0, self.entries_view().len() as int)
            =~= self.entries_view());
        while i < self.entries.len()
            invariant
                i <= self.entries@.len(),
                lookup_entries(self.entries_view(), key@) == lookup_entries(
                    self.entries_view().subrange(i as int, self.entries_view().len() as int),
                    key@,
                ),
            decreases self.entries.len() - i,
        {
            let ghost rest = self.entries_view().subrange(i as int, self.entries_view().len() as int);
            assert(rest.drop_first() =~= self.entries_view().subrange(
                i + 1,
                self.entries_view().len() as int,
            ));
            let k: String = key.to_owned();
            if self.entries[i].0 == k {
                return Some(&self.entries[i].1);
            }
            i = i + 1;
        }
        None
    }

    /// A copy of the map.
    pub fn duplicate(&self) -> (r: StringMap)
        ensures
            r.entries@ == self.entries@,
    {
        let mut out: Vec<(String, String)> = Vec::new();
        let mut i: usize = 0;
        while i < self.entries.len()
            invariant
                i <= self.entries@.len(),
                out@ == self.entries@.subrange(0, i as int),
            decreases self.entries.len() - i,
        {
            let k = self.entries[i].0.clone();
            let v = self.entries[i].1.clone();
            out.push((k, v));
            i = i + 1;
        }
        StringMap { entries: out }
    }
}

/// The view of an optional borrowed string.
pub open spec fn opt_ref_view(o: Option<&String>) -> Option<Seq<char>> {
    match o {
        Some(s) => Some(s@),
        None => None,
    }
}

/// The value of the first entry whose key is `key`.
pub open spec fn lookup_entries(es: Seq<(Seq<char>, Seq<char>)>, key: Seq<char>) -> Option<
    Seq<char>,
>
    decreases es.len(),
{
    if es.len() == 0 {
        None
    } else if es[0].0 == key {
        Some(es[0].1)
    } else {
        lookup_entries(es.drop_first(), key)
    }
}

/// A reference from a child object to the object that owns it.
#[derive(Clone, Debug)]
pub struct OwnerReference {
    pub api_version: String,
    pub kind: String,
    pub name: String,
    pub uid: String,
    pub controller: Option<bool>,
    pub block_owner_deletion: Option<bool>,
}

/// Standard object metadata: the fields that the controller reads on an
/// AgentJob and writes on the objects it owns.
#[derive(Clone, Debug)]
pub struct ObjectMeta {
    pub name: Option<String>,
    pub generate_name: Option<String>,
    pub namespace: Option<String>,
    pub uid: Option<String>,
    pub generation: Option<i64>,
    pub finalizers: Option<Vec<String>>,
    /// RFC 3339 time at which deletion was requested.
    pub deletion_timestamp: Option<String>,
    pub labels: Option<StringMap>,
    pub owner_references: Option<Vec<OwnerReference>>,
}

impl ObjectMeta {
    /// Metadata with every field unset.
    pub fn empty() -> (m: ObjectMeta)
        ensures
            m.is_empty(),
    {
        ObjectMeta {
            name: None,
            generate_name: None,
            namespace: None,
            uid: None,
            generation: None,
            finalizers: None,
            deletion_timestamp: None,
            labels: None,
            owner_references: None,
        }
    }

    /// Every field is unset.
    pub open spec fn is_empty(&self) -> bool {
        &&& self.name is None
        &&& self.generate_name is None
        &&& self.namespace is None
        &&& self.uid is None
        &&& self.generation is None
        &&& self.finalizers is None
        &&& self.deletion_timestamp is None
        &&& self.labels is None
        &&& self.owner_references is None
    }

    /// The name, else the generate-name prefix, else the empty string.
    pub open spec fn name_any_view(&self) -> Seq<char> {
        match self.name {
            Some(n) => n@,
            None => match self.generate_name {
                Some(g) => g@,
                None => Seq::empty(),
            },
        }
    }

    /// The name, else the generate-name prefix, else the empty string.
    pub fn name_any(&self) -> (s: String)
        ensures
            s@ == self.name_any_view(),
            self.name matches Some(n) ==> s@ == n@,
            self.name is None ==> s@ == match self.generate_name {
                Some(g) => g@,
                None => Seq::<char>::empty(),
            },
    {
        proof {
            lemma_name_any_prefers_name(*self);
        }
        match &self.name {
            Some(n) => n.clone(),
            None => match &self.generate_name {
                Some(g) => g.clone(),
                None => String::new(),
            },
        }
    }
}

/// An object's name, when it has one, is what `name_any` gives, whatever
/// its generate-name; only a nameless object falls back to the
/// generate-name, and one with neither to the empty string.
pub proof fn lemma_name_any_prefers_name(m: ObjectMeta)
    ensures
        m.name matches Some(n) ==> m.name_any_view() == n@,
        m.name is None ==> (m.generate_name matches Some(g) ==> m.name_any_view() == g@),
        m.name is None && m.generate_name is None ==> m.name_any_view().len() == 0,
{
}

} // verus!
