//! References between resources, relation links and resource links.

use vstd::prelude::*;

use crate::codec::{error_at, error_at_index, error_within, field_str, field_str_u64, json_str_u64, DecodeCause, DecodeError};
use crate::json::{first_unknown_key, get_field, is_one_of, keys_within, lookup, Json};
use crate::kind::{kind_of_name, lemma_names_round_trip, plural_name, unique_name, NanoKind};
use crate::text::{decimal_text, lemma_decimal_round_trip, same_text, u64_text};

verus! {

/// A pointer to a resource by kind and id; it owns none of its data.
#[derive(Clone, Copy, Debug, PartialEq, Eq, Hash, Structural)]
pub struct ObjectRef {
    pub id: u64,
    pub kind: NanoKind,
}

/// The kind that a `type` value names, plural or singular.
pub open spec fn json_kind_name(j: Json) -> Option<NanoKind> {
    match j {
        Json::Str(t) => kind_of_name(t@),
        _ => None,
    }
}

/// The reference a wire object denotes: exactly the keys `id` (a numeral in
/// a string) and `type` (a kind's name).
pub open spec fn object_ref_of(j: Json) -> Option<ObjectRef> {
    match j {
        Json::Object(e) => match (lookup(e@, "id"@), lookup(e@, "type"@)) {
            (Some(i), Some(t)) => match (json_str_u64(i), json_kind_name(t)) {
                (Some(id), Some(kind)) => if keys_within(e@, seq!["id", "type"]) {
                    Some(ObjectRef { id, kind })
                } else {
                    None
                },
                _ => None,
            },
            _ => None,
        },
        _ => None,
    }
}

/// Reads the `type` field of an object as a kind's name.
pub fn field_kind(o: &Vec<(String, Json)>, key: &str) -> (r: Result<NanoKind, DecodeError>)
    ensures
        match r {
            Ok(k) => lookup(o@, key@) matches Some(j) && json_kind_name(j) == Some(k),
            Err(_) => !(lookup(o@, key@) matches Some(j) && json_kind_name(j) is Some),
        },
{
    match get_field(o, key) {
        Some(Json::Str(t)) => match NanoKind::from_name(t.as_str()) {
            Ok(k) => Ok(k),
            Err(_) => Err(error_at(key, DecodeCause::UnknownKind)),
        },
        Some(_) => Err(error_at(key, DecodeCause::Invalid("a kind name"))),
        None => Err(error_at(key, DecodeCause::MissingField)),
    }
}

/// An error for the first unknown key of an object, if it has one.
pub fn check_keys(o: &Vec<(String, Json)>, names: &Vec<&str>) -> (r: Result<(), DecodeError>)
    ensures
        r is Ok <==> keys_within(o@, names@),
        r matches Err(e) ==> e.path@.len() == 1 && !is_one_of(e.path@[0]@, names@) && e.cause
            == DecodeCause::UnknownField,
{
    match first_unknown_key(o, names) {
        Some(i) => Err(error_at(o[i].0.as_str(), DecodeCause::UnknownField)),
        None => Ok(()),
    }
}

/// The error for a value that should have been an object.
pub fn not_an_object() -> (r: DecodeError)
    ensures
        r.path@.len() == 0,
{
    DecodeError { path: Vec::new(), cause: DecodeCause::Invalid("an object") }
}

impl ObjectRef {
    /// Reads a reference; the numeral must be in a string, as the API writes ids.
    pub fn from_json(j: &Json) -> (r: Result<ObjectRef, DecodeError>)
        ensures
            match r {
                Ok(x) => object_ref_of(*j) == Some(x),
                Err(_) => object_ref_of(*j) is None,
            },
    {
        match j {
            Json::Object(o) => {
                check_keys(o, &vec!["id", "type"])?;
                let id = field_str_u64(o, "id")?;
                let kind = field_kind(o, "type")?;
                Ok(ObjectRef { id, kind })
            },
            _ => Err(not_an_object()),
        }
    }

    /// Writes a reference: the id as a numeral in a string, the kind by its plural name.
    pub fn to_json(&self) -> (r: Json)
        ensures
            r matches Json::Object(e) && e@.len() == 2 && e@[0].0@ == "id"@ && (e@[0].1 matches Json::Str(s)
                && s@ == decimal_text(self.id as nat)) && e@[1].0@ == "type"@ && (e@[1].1 matches Json::Str(t)
                && t@ == plural_name(self.kind)),
            object_ref_of(r) == Some(*self),
            writes_ref(r, *self),
    {
        let mut e = Vec::new();
        e.push((String::from_str("id"), Json::Str(u64_text(self.id))));
        e.push((String::from_str("type"), Json::Str(String::from_str(self.kind.api_name()))));
        proof {
            lemma_decimal_round_trip(self.id);
            lemma_names_round_trip(self.kind);
            reveal_strlit("id");
            reveal_strlit("type");
            assert("id"@.len() == 2);
            assert("type"@.len() == 4);
            let s = e@;
            assert(s.drop_first()[0] == s[1]);
            assert(lookup(s, "id"@) == Some(s[0].1));
            assert("id"@ != "type"@);
            assert(s.drop_first().len() == 1);
            assert(lookup(s.drop_first(), "type"@) == Some(s[1].1));
            assert(lookup(s, "type"@) == Some(s[1].1));
            let names: Seq<&str> = seq!["id", "type"];
            assert forall|i: int| 0 <= i < s.len() implies is_one_of(#[trigger] s[i].0@, names) by {
                if i == 0 {
                    assert(names[0]@ == s[i].0@);
                } else {
                    assert(names[1]@ == s[i].0@);
                }
            }
        }
        Json::Object(e)
    }
}

/// The two links of a relation: to the relation itself and to the related resources.
#[derive(Clone, Debug, PartialEq, Eq)]
pub struct RelationLink {
    pub this: String,
    pub related: String,
}

/// The two links a wire object denotes: exactly the keys `self` and
/// `related`, both strings.
pub open spec fn relation_link_of(j: Json) -> Option<(Seq<char>, Seq<char>)> {
    match j {
        Json::Object(e) => match (lookup(e@, "self"@), lookup(e@, "related"@)) {
            (Some(Json::Str(s)), Some(Json::Str(t))) => if keys_within(e@, seq!["self", "related"]) {
                Some((s@, t@))
            } else {
                None
            },
            _ => None,
        },
        _ => None,
    }
}

impl RelationLink {
    /// Reads exactly the keys `self` and `related`, both strings.
    pub fn from_json(j: &Json) -> (r: Result<RelationLink, DecodeError>)
        ensures
            match r {
                Ok(l) => relation_link_of(*j) == Some((l.this@, l.related@)),
                Err(_) => relation_link_of(*j) is None,
            },
    {
        match j {
            Json::Object(o) => {
                let names: Vec<&str> = vec!["self", "related"];
                assert(names@ =~= seq!["self", "related"]);
                check_keys(o, &names)?;
                let this = field_str(o, "self")?;
                let related = field_str(o, "related")?;
                Ok(RelationLink { this, related })
            },
            _ => Err(not_an_object()),
        }
    }

    /// Writes the keys `self` and `related`.
    pub fn to_json(&self) -> (r: Json)
        ensures
            r matches Json::Object(e) && e@.len() == 2,
    {
        let mut e = Vec::new();
        e.push((String::from_str("self"), Json::Str(self.this.clone())));
        e.push((String::from_str("related"), Json::Str(self.related.clone())));
        Json::Object(e)
    }

    /// Whether the related end of this link looks like a collection: its
    /// address ends in the plural `s`. The rule is a heuristic and can be wrong.
    pub fn is_many(&self) -> (r: bool)
        ensures
            r == (self.related@.len() > 0 && self.related@.last() == 's'),
    {
        let n = self.related.as_str().unicode_len();
        n > 0 && self.related.as_str().get_char(n - 1) == 's'
    }
}

/// Whether a wire object is a readable link set: a `self` string, and every
/// other value a string too.
pub open spec fn link_info_ok(j: Json) -> bool {
    match j {
        Json::Object(e) => (lookup(e@, "self"@) matches Some(Json::Str(_))) && forall|i: int|
            0 <= i < e@.len() && e@[i].0@ != "self"@ ==> (#[trigger] e@[i]).1 is Str,
        _ => false,
    }
}

/// The links other than `self` among an object's entries, in order, as
/// pairs of name and address; entries whose value is no string are skipped.
pub open spec fn other_links_of(e: Seq<(String, Json)>) -> Seq<(Seq<char>, Seq<char>)>
    decreases e.len(),
{
    if e.len() == 0 {
        Seq::empty()
    } else {
        match e.last().1 {
            Json::Str(v) => if e.last().0@ != "self"@ {
                other_links_of(e.drop_last()).push((e.last().0@, v@))
            } else {
                other_links_of(e.drop_last())
            },
            _ => other_links_of(e.drop_last()),
        }
    }
}

/// Named links as plain text pairs.
pub open spec fn links_view(v: Seq<(String, String)>) -> Seq<(Seq<char>, Seq<char>)> {
    v.map_values(|p: (String, String)| (p.0@, p.1@))
}

/// Whether a link set holds what the wire entries say: the `self` address
/// and, in order, every other named link.
pub open spec fn link_info_read(e: Seq<(String, Json)>, this: String, others: Seq<(String, String)>) -> bool {
    (lookup(e, "self"@) matches Some(Json::Str(s)) && s@ == this@) && links_view(others) == other_links_of(e)
}

/// Reads an object whose values are all strings, except for one `self` key.
fn string_entries(o: &Vec<(String, Json)>) -> (r: Result<(String, Vec<(String, String)>), DecodeError>)
    ensures
        link_info_ok(Json::Object(*o)) <==> r is Ok,
        r matches Ok((this, others)) ==> link_info_read(o@, this, others@),
{
    let this = field_str(o, "self")?;
    let mut others: Vec<(String, String)> = Vec::new();
    let mut i: usize = 0;
    proof {
        assert(o@.subrange(0, 0) =~= Seq::<(String, Json)>::empty());
        assert(links_view(others@) =~= Seq::<(Seq<char>, Seq<char>)>::empty());
    }
    while i < o.len()
        invariant
            i <= o@.len(),
            links_view(others@) == other_links_of(o@.subrange(0, i as int)),
            lookup(o@, "self"@) matches Some(Json::Str(s)) && s@ == this@,
            link_info_ok(Json::Object(*o)) ==> forall|a: int|
                0 <= a < o@.len() && o@[a].0@ != "self"@ ==> (#[trigger] o@[a]).1 is Str,
            forall|a: int| 0 <= a < i && o@[a].0@ != "self"@ ==> (#[trigger] o@[a]).1 is Str,
            lookup(o@, "self"@) matches Some(Json::Str(_)),
        decreases o@.len() - i,
    {
        let key = &o[i].0;
        let ghost before = others@;
        proof {
            let next = o@.subrange(0, i + 1);
            assert(next.drop_last() =~= o@.subrange(0, i as int));
            assert(next.last() == o@[i as int]);
        }
        if !same_text(key.as_str(), "self") {
            match &o[i].1 {
                Json::Str(v) => {
                    others.push((key.clone(), v.clone()));
                    proof {
                        assert(links_view(others@) =~= links_view(before).push((key@, v@)));
                    }
                },
                _ => {
                    return Err(error_at(key.as_str(), DecodeCause::Invalid("a string")));
                },
            }
        }
        i = i + 1;
    }
    proof {
        assert(o@.subrange(0, o@.len() as int) =~= o@);
    }
    Ok((this, others))
}

/// Writes a `self` link followed by the other named links.
fn string_entries_json(this: &String, others: &Vec<(String, String)>) -> (r: Json)
    ensures
        r matches Json::Object(e) && e@.len() == others@.len() + 1,
{
    let mut e = Vec::new();
    e.push((String::from_str("self"), Json::Str(this.clone())));
    let mut i: usize = 0;
    while i < others.len()
        invariant
            i <= others@.len(),
            e@.len() == i + 1,
        decreases others@.len() - i,
    {
        e.push((others[i].0.clone(), Json::Str(others[i].1.clone())));
        i = i + 1;
    }
    Json::Object(e)
}

/// The links of a resource: always one to itself, and any others by name.
#[derive(Clone, Debug, PartialEq, Eq)]
pub struct LinkInfo {
    pub this: String,
    pub others: Vec<(String, String)>,
}

impl LinkInfo {
    /// Reads a required `self` string and any other keys with string values.
    pub fn from_json(j: &Json) -> (r: Result<LinkInfo, DecodeError>)
        ensures
            link_info_ok(*j) <==> r is Ok,
            r matches Ok(l) ==> (j matches Json::Object(e) && link_info_read(e@, l.this, l.others@)),
    {
        match j {
            Json::Object(o) => {
                let (this, others) = string_entries(o)?;
                Ok(LinkInfo { this, others })
            },
            _ => Err(not_an_object()),
        }
    }

    /// Writes `self` first, then the other links.
    pub fn to_json(&self) -> (r: Json)
        ensures
            r matches Json::Object(e) && e@.len() == self.others@.len() + 1,
    {
        string_entries_json(&self.this, &self.others)
    }
}

/// A link set of the same shape as [`LinkInfo`], with its extra links.
#[derive(Clone, Debug, PartialEq, Eq)]
pub struct LinkData {
    pub this: String,
    pub extra: Vec<(String, String)>,
}

impl LinkData {
    /// Reads a required `self` string and any other keys with string values.
    pub fn from_json(j: &Json) -> (r: Result<LinkData, DecodeError>)
        ensures
            link_info_ok(*j) <==> r is Ok,
            r matches Ok(l) ==> (j matches Json::Object(e) && link_info_read(e@, l.this, l.extra@)),
    {
        match j {
            Json::Object(o) => {
                let (this, extra) = string_entries(o)?;
                Ok(LinkData { this, extra })
            },
            _ => Err(not_an_object()),
        }
    }

    /// Writes `self` first, then the extra links.
    pub fn to_json(&self) -> (r: Json)
        ensures
            r matches Json::Object(e) && e@.len() == self.extra@.len() + 1,
    {
        string_entries_json(&self.this, &self.extra)
    }
}

/// Whether no kind occurs twice among the keys of an association list.
pub open spec fn kinds_unique<T>(s: Seq<(NanoKind, T)>) -> bool {
    forall|i: int, j: int| 0 <= i < j < s.len() ==> #[trigger] s[i].0 != #[trigger] s[j].0
}

/// The references an array of wire references denotes, if each is one.
pub open spec fn refs_of_items(items: Seq<Json>) -> Option<Seq<ObjectRef>>
    decreases items.len(),
{
    if items.len() == 0 {
        Some(Seq::empty())
    } else {
        match (refs_of_items(items.drop_last()), object_ref_of(items.last())) {
            (Some(s), Some(x)) => Some(s.push(x)),
            _ => None,
        }
    }
}

/// What the `data` of a relation denotes: no references when it is absent or
/// null, one for a single wire reference, a list for an array; `None` when
/// it is none of these.
pub open spec fn data_refs_of(d: Option<Json>) -> Option<Option<Seq<ObjectRef>>> {
    match d {
        None => Some(None),
        Some(Json::Null) => Some(None),
        Some(Json::Array(items)) => match refs_of_items(items@) {
            Some(s) => Some(Some(s)),
            None => None,
        },
        Some(Json::Object(e)) => match object_ref_of(Json::Object(e)) {
            Some(x) => Some(Some(seq![x])),
            None => None,
        },
        _ => None,
    }
}

/// The kind a relation key names.
pub open spec fn entry_kind(p: (String, Json)) -> Option<NanoKind> {
    kind_of_name(p.0@)
}

/// The links of a relation entry.
pub open spec fn entry_link(p: (String, Json)) -> Option<(Seq<char>, Seq<char>)> {
    match p.1 {
        Json::Object(r) => match lookup(r@, "links"@) {
            Some(l) => relation_link_of(l),
            None => None,
        },
        _ => None,
    }
}

/// The references of a relation entry.
pub open spec fn entry_refs(p: (String, Json)) -> Option<Option<Seq<ObjectRef>>> {
    match p.1 {
        Json::Object(r) => data_refs_of(lookup(r@, "data"@)),
        _ => None,
    }
}

/// Whether a relation entry can be read: its key names a kind, its value
/// holds a `links` pair and readable `data`.
pub open spec fn entry_ok(p: (String, Json)) -> bool {
    entry_kind(p) is Some && entry_link(p) is Some && entry_refs(p) is Some
}

/// Whether a `relationships` object can be read: every entry can, and no two
/// keys name the same kind.
pub open spec fn relations_ok(e: Seq<(String, Json)>) -> bool {
    &&& forall|i: int| 0 <= i < e.len() ==> entry_ok(#[trigger] e[i])
    &&& forall|i: int, k: int| 0 <= i < k < e.len() ==> #[trigger] entry_kind(e[i]) != #[trigger] entry_kind(e[k])
}

/// The reference lists of the entries whose `data` holds references, in order.
pub open spec fn included_of(e: Seq<(String, Json)>) -> Seq<(NanoKind, Seq<ObjectRef>)>
    decreases e.len(),
{
    if e.len() == 0 {
        Seq::empty()
    } else {
        match entry_refs(e.last()) {
            Some(Some(refs)) => included_of(e.drop_last()).push((entry_kind(e.last())->Some_0, refs)),
            _ => included_of(e.drop_last()),
        }
    }
}

/// The reference lists of a [`RelationInfo`], as plain sequences.
pub open spec fn included_view(v: Seq<(NanoKind, Vec<ObjectRef>)>) -> Seq<(NanoKind, Seq<ObjectRef>)> {
    v.map_values(|p: (NanoKind, Vec<ObjectRef>)| (p.0, p.1@))
}

/// What the wire form of one reference list is: `{"data": ref}` for one
/// reference, `{"data": [refs]}` otherwise.
pub open spec fn writes_refs(j: Json, refs: Seq<ObjectRef>) -> bool {
    j matches Json::Object(w) && w@.len() == 1 && w@[0].0@ == "data"@ && if refs.len() == 1 {
        writes_ref(w@[0].1, refs[0])
    } else {
        w@[0].1 matches Json::Array(items) && items@.len() == refs.len() && forall|k: int|
            0 <= k < refs.len() ==> writes_ref(#[trigger] items@[k], refs[k])
    }
}

/// The wire form of one reference: exactly `{"id": <decimal text of the id>,
/// "type": <plural name of the kind>}`, in that order.
pub open spec fn writes_ref(j: Json, x: ObjectRef) -> bool {
    match j {
        Json::Object(e) => {
            &&& e@.len() == 2
            &&& e@[0].0@ == "id"@
            &&& (e@[0].1 matches Json::Str(s) && s@ == decimal_text(x.id as nat))
            &&& e@[1].0@ == "type"@
            &&& (e@[1].1 matches Json::Str(t) && t@ == plural_name(x.kind))
        },
        _ => false,
    }
}

/// Whether `info` holds what a readable relationships object says: the
/// reference lists of [`included_of`], and for each key in order its kind and
/// its pair of links.
pub open spec fn relation_info_read(e: Seq<(String, Json)>, info: RelationInfo) -> bool {
    &&& included_view(info.included@) == included_of(e)
    &&& info.relations@.len() == e.len()
    &&& forall|i: int| 0 <= i < e.len() ==> {
        &&& #[trigger] info.relations@[i].0 == entry_kind(e[i])->Some_0
        &&& entry_link(e[i]) == Some((info.relations@[i].1.this@, info.relations@[i].1.related@))
    }
}

/// Whether `r` is the wire form of the reference lists of `info`: one key
/// per list in order, the singular name for one reference and the plural
/// otherwise, each holding its references as [`writes_refs`] says.
pub open spec fn relations_written(r: Json, info: RelationInfo) -> bool {
    r matches Json::Object(e) && e@.len() == info.included@.len() && forall|i: int|
        0 <= i < e@.len() ==> {
            &&& #[trigger] e@[i].0@ == (if info.included@[i].1@.len() == 1 {
                unique_name(info.included@[i].0)
            } else {
                plural_name(info.included@[i].0)
            })
            &&& writes_refs(e@[i].1, info.included@[i].1@)
        }
}

proof fn lemma_refs_prefix(items: Seq<Json>, n: int)
    requires
        0 <= n <= items.len(),
        refs_of_items(items.subrange(0, n)) is None,
    ensures
        refs_of_items(items) is None,
    decreases items.len() - n,
{
    if n < items.len() {
        let next = items.subrange(0, n + 1);
        assert(next.drop_last() =~= items.subrange(0, n));
        lemma_refs_prefix(items, n + 1);
    } else {
        assert(items.subrange(0, n) =~= items);
    }
}

/// The relationships of a resource: references to the side-loaded resources of
/// each related kind, and the pair of links for each relation. Both are
/// association lists keyed by kind, in wire order, with no kind twice
/// ([`RelationInfo::wf`]), so that what each entry holds can be stated.
#[derive(Clone, Debug, PartialEq, Eq)]
pub struct RelationInfo {
    pub included: Vec<(NanoKind, Vec<ObjectRef>)>,
    pub relations: Vec<(NanoKind, RelationLink)>,
}

impl RelationInfo {
    /// Each kind has at most one entry in each list.
    pub open spec fn wf(&self) -> bool {
        kinds_unique(self.included@) && kinds_unique(self.relations@)
    }

    /// Reads the references under `data`: an array of them, a single one, or none.
    fn data_refs(rel: &Vec<(String, Json)>) -> (r: Result<Option<Vec<ObjectRef>>, DecodeError>)
        ensures
            match r {
                Ok(None) => data_refs_of(lookup(rel@, "data"@)) == Some(None::<Seq<ObjectRef>>),
                Ok(Some(v)) => data_refs_of(lookup(rel@, "data"@)) == Some(Some(v@)),
                Err(_) => data_refs_of(lookup(rel@, "data"@)) is None,
            },
    {
        match get_field(rel, "data") {
            None => Ok(None),
            Some(Json::Null) => Ok(None),
            Some(Json::Array(items)) => {
                let mut refs: Vec<ObjectRef> = Vec::new();
                let mut i: usize = 0;
                proof {
                    assert(items@.subrange(0, 0) =~= Seq::<Json>::empty());
                }
                while i < items.len()
                    invariant
                        i <= items@.len(),
                        lookup(rel@, "data"@) == Some(Json::Array(*items)),
                        refs_of_items(items@.subrange(0, i as int)) == Some(refs@),
                    decreases items@.len() - i,
                {
                    let ghost before = refs@;
                    proof {
                        let next = items@.subrange(0, i + 1);
                        assert(next.drop_last() =~= items@.subrange(0, i as int));
                        assert(next.last() == items@[i as int]);
                    }
                    match ObjectRef::from_json(&items[i]) {
                        Ok(x) => refs.push(x),
                        Err(e) => {
                            proof {
                                lemma_refs_prefix(items@, i + 1);
                            }
                            return Err(error_within("data", error_at_index(i, e)));
                        },
                    }
                    i = i + 1;
                }
                proof {
                    assert(items@.subrange(0, items@.len() as int) =~= items@);
                }
                Ok(Some(refs))
            },
            Some(one) => match one {
                Json::Object(_) => match ObjectRef::from_json(one) {
                    Ok(x) => {
                        let v = vec![x];
                        assert(v@ =~= seq![x]);
                        Ok(Some(v))
                    },
                    Err(e) => Err(error_within("data", e)),
                },
                _ => Err(error_at("data", DecodeCause::Invalid("a reference or an array of them"))),
            },
        }
    }

    /// Whether a kind already has a relation entry.
    fn has_kind(relations: &Vec<(NanoKind, RelationLink)>, k: NanoKind) -> (r: bool)
        ensures
            r == exists|i: int| 0 <= i < relations@.len() && #[trigger] relations@[i].0 == k,
    {
        let mut i: usize = 0;
        while i < relations.len()
            invariant
                i <= relations@.len(),
                forall|a: int| 0 <= a < i ==> (#[trigger] relations@[a]).0 != k,
            decreases relations@.len() - i,
        {
            if relations[i].0 == k {
                return true;
            }
            i = i + 1;
        }
        false
    }

    /// Reads a `relationships` object. Each key names a kind (plural or
    /// singular), and no two keys the same kind; each value holds a required
    /// `links` pair and optional `data` references: absent or null, one
    /// reference, or an array of them.
    pub fn from_json(j: &Json) -> (r: Result<RelationInfo, DecodeError>)
        ensures
            r is Ok <==> (j matches Json::Object(e) && relations_ok(e@)),
            r matches Ok(info) ==> info.wf(),
            r matches Ok(info) ==> (j matches Json::Object(e) && relation_info_read(e@, info)),
    {
        let o = match j {
            Json::Object(o) => o,
            _ => {
                return Err(not_an_object());
            },
        };
        let mut included: Vec<(NanoKind, Vec<ObjectRef>)> = Vec::new();
        let mut relations: Vec<(NanoKind, RelationLink)> = Vec::new();
        let mut i: usize = 0;
        proof {
            assert(o@.subrange(0, 0) =~= Seq::<(String, Json)>::empty());
            assert(included_view(included@) =~= Seq::<(NanoKind, Seq<ObjectRef>)>::empty());
        }
        while i < o.len()
            invariant
                *j == Json::Object(*o),
                i <= o@.len(),
                relations@.len() == i,
                forall|a: int| 0 <= a < i ==> entry_ok(#[trigger] o@[a]),
                forall|a: int, b: int| 0 <= a < b < i ==> #[trigger] entry_kind(o@[a]) != #[trigger] entry_kind(o@[b]),
                forall|a: int| 0 <= a < i ==> {
                    &&& #[trigger] relations@[a].0 == entry_kind(o@[a])->Some_0
                    &&& entry_link(o@[a]) == Some((relations@[a].1.this@, relations@[a].1.related@))
                },
                included_view(included@) == included_of(o@.subrange(0, i as int)),
                forall|a: int| 0 <= a < included@.len() ==> exists|b: int| 0 <= b < i && #[trigger] included@[a].0 == relations@[b].0,
                kinds_unique(included@),
                kinds_unique(relations@),
            decreases o@.len() - i,
        {
            let key = o[i].0.as_str();
            let kind = match NanoKind::from_name(key) {
                Ok(k) => k,
                Err(_) => {
                    return Err(error_at(key, DecodeCause::UnknownKind));
                },
            };
            if RelationInfo::has_kind(&relations, kind) {
                proof {
                    let b = choose|b: int| 0 <= b < relations@.len() && #[trigger] relations@[b].0 == kind;
                    assert(entry_kind(o@[b]) == entry_kind(o@[i as int]));
                }
                return Err(error_at(key, DecodeCause::DuplicateKind));
            }
            let rel = match &o[i].1 {
                Json::Object(rel) => rel,
                _ => {
                    return Err(error_at(key, DecodeCause::Invalid("an object")));
                },
            };
            let link = match get_field(rel, "links") {
                Some(l) => match RelationLink::from_json(l) {
                    Ok(x) => x,
                    Err(e) => {
                        return Err(error_within(key, error_within("links", e)));
                    },
                },
                None => {
                    return Err(error_within(key, error_at("links", DecodeCause::MissingField)));
                },
            };
            let refs = match RelationInfo::data_refs(rel) {
                Ok(x) => x,
                Err(e) => {
                    return Err(error_within(key, e));
                },
            };
            let ghost inc_before = included@;
            let ghost rel_before = relations@;
            proof {
                let next = o@.subrange(0, i + 1);
                assert(next.drop_last() =~= o@.subrange(0, i as int));
                assert(next.last() == o@[i as int]);
            }
            match refs {
                Some(v) => {
                    included.push((kind, v));
                    proof {
                        assert(included_view(included@) =~= included_view(inc_before).push((kind, v@)));
                    }
                },
                None => {},
            }
            relations.push((kind, link));
            proof {
                assert forall|a: int, b: int| 0 <= a < b < included@.len() implies #[trigger] included@[a].0
                    != #[trigger] included@[b].0 by {
                    if b == included@.len() - 1 && included@.len() > inc_before.len() {
                        assert(included@[a] == inc_before[a]);
                        let c = choose|c: int| 0 <= c < i && #[trigger] inc_before[a].0 == rel_before[c].0;
                        assert(rel_before[c].0 == entry_kind(o@[c])->Some_0);
                    } else {
                        assert(included@[a] == inc_before[a]);
                        assert(included@[b] == inc_before[b]);
                    }
                }
                assert forall|a: int, b: int| 0 <= a < b < relations@.len() implies #[trigger] relations@[a].0
                    != #[trigger] relations@[b].0 by {
                    if b < i {
                        assert(relations@[a] == rel_before[a]);
                        assert(relations@[b] == rel_before[b]);
                    } else {
                        assert(relations@[a] == rel_before[a]);
                    }
                }
                assert forall|a: int| 0 <= a < included@.len() implies exists|b: int| 0 <= b < i + 1
                    && #[trigger] included@[a].0 == relations@[b].0 by {
                    if a < inc_before.len() {
                        assert(included@[a] == inc_before[a]);
                        let c = choose|c: int| 0 <= c < i && #[trigger] inc_before[a].0 == rel_before[c].0;
                        assert(relations@[c] == rel_before[c]);
                    } else {
                        assert(relations@[i as int].0 == kind);
                    }
                }
                assert forall|a: int| 0 <= a < i + 1 implies {
                    &&& #[trigger] relations@[a].0 == entry_kind(o@[a])->Some_0
                    &&& entry_link(o@[a]) == Some((relations@[a].1.this@, relations@[a].1.related@))
                } by {
                    if a < i {
                        assert(relations@[a] == rel_before[a]);
                    }
                }
                assert forall|a: int, b: int| 0 <= a < b < i + 1 implies #[trigger] entry_kind(o@[a])
                    != #[trigger] entry_kind(o@[b]) by {
                    if b == i {
                        assert(relations@[a] == rel_before[a]);
                        assert(rel_before[a].0 != kind);
                    }
                }
            }
            i = i + 1;
        }
        proof {
            assert(o@.subrange(0, o@.len() as int) =~= o@);
        }
        Ok(RelationInfo { included, relations })
    }

    /// Writes one reference list: `{"data": ref}` for one reference,
    /// `{"data": [refs]}` otherwise.
    fn refs_json(refs: &Vec<ObjectRef>) -> (r: Json)
        ensures
            writes_refs(r, refs@),
    {
        let mut wrap: Vec<(String, Json)> = Vec::new();
        if refs.len() == 1 {
            wrap.push((String::from_str("data"), refs[0].to_json()));
        } else {
            let mut items: Vec<Json> = Vec::new();
            let mut k: usize = 0;
            while k < refs.len()
                invariant
                    k <= refs@.len(),
                    items@.len() == k,
                    forall|c: int| 0 <= c < k ==> writes_ref(#[trigger] items@[c], refs@[c]),
                decreases refs@.len() - k,
            {
                items.push(refs[k].to_json());
                k = k + 1;
            }
            wrap.push((String::from_str("data"), Json::Array(items)));
        }
        Json::Object(wrap)
    }

    /// Writes the reference lists only, in their order, as an outbound
    /// resource carries them: a kind with one reference under its singular
    /// name as `{"data": ref}`, any other under its plural name as
    /// `{"data": [refs]}`. Relation links are the server's to give and are not
    /// written.
    pub fn to_json(&self) -> (r: Json)
        ensures
            relations_written(r, *self),
    {
        let mut e: Vec<(String, Json)> = Vec::new();
        let mut i: usize = 0;
        while i < self.included.len()
            invariant
                i <= self.included@.len(),
                e@.len() == i,
                forall|a: int| 0 <= a < i ==> {
                    &&& #[trigger] e@[a].0@ == (if self.included@[a].1@.len() == 1 {
                        unique_name(self.included@[a].0)
                    } else {
                        plural_name(self.included@[a].0)
                    })
                    &&& writes_refs(e@[a].1, self.included@[a].1@)
                },
            decreases self.included@.len() - i,
        {
            let kind = self.included[i].0;
            let refs = &self.included[i].1;
            let key = if refs.len() == 1 {
                String::from_str(kind.api_unique_name())
            } else {
                String::from_str(kind.api_name())
            };
            let item = RelationInfo::refs_json(refs);
            let ghost before = e@;
            e.push((key, item));
            proof {
                assert forall|a: int| 0 <= a < i + 1 implies {
                    &&& #[trigger] e@[a].0@ == (if self.included@[a].1@.len() == 1 {
                        unique_name(self.included@[a].0)
                    } else {
                        plural_name(self.included@[a].0)
                    })
                    &&& writes_refs(e@[a].1, self.included@[a].1@)
                } by {
                    if a < i {
                        assert(e@[a] == before[a]);
                    }
                }
            }
            i = i + 1;
        }
        Json::Object(e)
    }
}

} // verus!
