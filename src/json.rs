//! The loose JSON tree the API speaks, and the lookups its decoders share.

use vstd::prelude::*;

use crate::text::same_text;

verus! {

/// A JSON value. A number keeps the text it was written with, so that no
/// precision is lost and integers of any width can be read from it.
#[derive(Debug)]
pub enum Json {
    Null,
    Bool(bool),
    Number(String),
    Str(String),
    Array(Vec<Json>),
    Object(Vec<(String, Json)>),
}

/// The value under the first occurrence of `key` among an object's entries.
pub open spec fn lookup(e: Seq<(String, Json)>, key: Seq<char>) -> Option<Json>
    decreases e.len(),
{
    if e.len() == 0 {
        None
    } else if e[0].0@ == key {
        Some(e[0].1)
    } else {
        lookup(e.drop_first(), key)
    }
}

/// Whether `key` occurs among an object's entries.
pub open spec fn has_key(e: Seq<(String, Json)>, key: Seq<char>) -> bool {
    lookup(e, key) is Some
}

/// Whether a key is one of the given names.
pub open spec fn is_one_of(key: Seq<char>, names: Seq<&str>) -> bool {
    exists|i: int| 0 <= i < names.len() && #[trigger] names[i]@ == key
}

/// Whether every key of an object is one of the given names.
pub open spec fn keys_within(e: Seq<(String, Json)>, names: Seq<&str>) -> bool {
    forall|i: int| 0 <= i < e.len() ==> is_one_of(#[trigger] e[i].0@, names)
}

proof fn lemma_lookup_suffix(e: Seq<(String, Json)>, i: int, key: Seq<char>)
    requires
        0 <= i < e.len(),
        e[i].0@ != key,
    ensures
        lookup(e.subrange(i, e.len() as int), key) == lookup(e.subrange(i + 1, e.len() as int), key),
{
    assert(e.subrange(i, e.len() as int).drop_first() =~= e.subrange(i + 1, e.len() as int));
}

proof fn lemma_lookup_index(e: Seq<(String, Json)>, key: Seq<char>)
    ensures
        lookup(e, key) matches Some(v) ==> exists|k: int| 0 <= k < e.len() && #[trigger] e[k].1 == v,
    decreases e.len(),
{
    if e.len() > 0 && e[0].0@ != key {
        lemma_lookup_index(e.drop_first(), key);
        if lookup(e, key) is Some {
            let v = lookup(e, key)->Some_0;
            let k = choose|k: int| 0 <= k < e.drop_first().len() && #[trigger] e.drop_first()[k].1 == v;
            assert(e[k + 1].1 == v);
        }
    } else if e.len() > 0 {
        assert(e[0].1 == lookup(e, key)->Some_0);
    }
}

/// A value found under a key of an object is smaller than the object.
pub proof fn lemma_lookup_decreases(j: Json, key: Seq<char>)
    requires
        j is Object,
    ensures
        lookup(j->Object_0@, key) matches Some(v) ==> decreases_to!(j => v),
{
    let o = j->Object_0;
    lemma_lookup_index(o@, key);
    if lookup(o@, key) is Some {
        let v = lookup(o@, key)->Some_0;
        let k = choose|k: int| 0 <= k < o@.len() && #[trigger] o@[k].1 == v;
        assert(decreases_to!(j => j->Object_0));
        assert(decreases_to!(o => o[k]));
        assert(decreases_to!(o[k] => o[k].1));
    }
}

/// The value under `key`, as [`lookup`] defines it.
pub fn get_field<'a>(e: &'a Vec<(String, Json)>, key: &str) -> (r: Option<&'a Json>)
    ensures
        match r {
            Some(j) => lookup(e@, key@) == Some(*j),
            None => lookup(e@, key@) is None,
        },
{
    let mut i: usize = 0;
    proof {
        assert(e@.subrange(0, e@.len() as int) =~= e@);
    }
    while i < e.len()
        invariant
            i <= e@.len(),
            lookup(e@, key@) == lookup(e@.subrange(i as int, e@.len() as int), key@),
        decreases e@.len() - i,
    {
        if same_text(e[i].0.as_str(), key) {
            return Some(&e[i].1);
        }
        proof {
            lemma_lookup_suffix(e@, i as int, key@);
        }
        i = i + 1;
    }
    None
}

/// Whether `key` is one of `names`.
pub fn key_is_one_of(key: &str, names: &Vec<&str>) -> (r: bool)
    ensures
        r == is_one_of(key@, names@),
{
    let mut i: usize = 0;
    while i < names.len()
        invariant
            i <= names@.len(),
            forall|j: int| 0 <= j < i ==> #[trigger] names@[j]@ != key@,
        decreases names@.len() - i,
    {
        if same_text(names[i], key) {
            return true;
        }
        i = i + 1;
    }
    false
}

/// The first key of an object that is not one of `names`, if there is one.
pub fn first_unknown_key(e: &Vec<(String, Json)>, names: &Vec<&str>) -> (r: Option<usize>)
    ensures
        r is None <==> keys_within(e@, names@),
        r matches Some(i) ==> i < e@.len() && !is_one_of(e@[i as int].0@, names@),
{
    let mut i: usize = 0;
    while i < e.len()
        invariant
            i <= e@.len(),
            forall|j: int| 0 <= j < i ==> is_one_of(#[trigger] e@[j].0@, names@),
        decreases e@.len() - i,
    {
        if !key_is_one_of(e[i].0.as_str(), names) {
            return Some(i);
        }
        i = i + 1;
    }
    None
}

} // verus!
