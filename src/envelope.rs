//! Response envelopes: primary data, side-loaded resources, post context, and
//! the lookup of a reference among the side-loaded resources.

use vstd::prelude::*;

use crate::codec::{error_at, error_at_index, error_within, DecodeCause, DecodeError};
use crate::json::{get_field, has_key, is_one_of, keys_within, lemma_lookup_decreases, lookup, Json};
use crate::objects::{wire_id, Object, ObjectInfo, PostObject};
use crate::relation::{check_keys, not_an_object, ObjectRef};

verus! {

/// Whether a resource is the one a reference points to.
pub open spec fn refers_to(o: Object, r: ObjectRef) -> bool {
    o.spec_id() == r.id && o.spec_kind() == r.kind
}

/// The position of the first resource from `i` on in `s` that `r` points to.
pub open spec fn scan_from(s: Seq<Object>, r: ObjectRef, i: int) -> Option<int>
    decreases s.len() - i,
{
    if i < 0 || i >= s.len() {
        None
    } else if refers_to(s[i], r) {
        Some(i)
    } else {
        scan_from(s, r, i + 1)
    }
}

/// The first side-loaded resource that `r` points to, if there is one.
pub open spec fn resolve(included: Option<Vec<Object>>, r: ObjectRef) -> Option<Object> {
    match included {
        Some(v) => match scan_from(v@, r, 0) {
            Some(i) => Some(v@[i]),
            None => None,
        },
        None => None,
    }
}

/// The first side-loaded resource that `r` points to: a linear scan, first
/// match wins, no network call. `None` means the resource was not
/// side-loaded, not that it does not exist.
pub fn find_ref<'a>(included: &'a Option<Vec<Object>>, r: &ObjectRef) -> (res: Option<&'a Object>)
    ensures
        match res {
            Some(o) => resolve(*included, *r) == Some(*o),
            None => resolve(*included, *r) is None,
        },
{
    match included {
        Some(v) => {
            let mut i: usize = 0;
            while i < v.len()
                invariant
                    i <= v@.len(),
                    *included == Some(*v),
                    scan_from(v@, *r, 0) == scan_from(v@, *r, i as int),
                decreases v@.len() - i,
            {
                if v[i].id() == r.id && v[i].kind() == r.kind {
                    return Some(&v[i]);
                }
                i = i + 1;
            }
            None
        },
        None => None,
    }
}

/// Whether the `included` of an envelope can be read: absent, null, or an
/// array of readable resources.
pub open spec fn included_ok(e: Seq<(String, Json)>) -> bool {
    match lookup(e, "included"@) {
        None => true,
        Some(Json::Null) => true,
        Some(Json::Array(items)) => all_wire_ok::<Object>(items@),
        _ => false,
    }
}

/// Whether every wire resource of a list is one that `D` reads.
pub open spec fn all_wire_ok<D: ObjectInfo>(items: Seq<Json>) -> bool {
    forall|i: int| 0 <= i < items.len() ==> #[trigger] D::wire_ok(items[i])
}

/// Whether a wire envelope is a readable one-resource response of type `D`:
/// only envelope keys, no post context, a readable `data` resource and
/// readable side-loaded resources.
pub open spec fn item_ok<D: ObjectInfo>(j: Json) -> bool {
    match j {
        Json::Object(e) => {
            &&& keys_within(e@, envelope_keys())
            &&& !has_post_keys(e@)
            &&& (lookup(e@, "data"@) matches Some(d) && D::wire_ok(d))
            &&& included_ok(e@)
        },
        _ => false,
    }
}

/// Whether a wire envelope is a readable many-resource response of type `D`:
/// as [`item_ok`], with `data` an array of readable resources.
pub open spec fn collection_ok<D: ObjectInfo>(j: Json) -> bool {
    match j {
        Json::Object(e) => {
            &&& keys_within(e@, envelope_keys())
            &&& !has_post_keys(e@)
            &&& (lookup(e@, "data"@) matches Some(Json::Array(items)) && all_wire_ok::<D>(items@))
            &&& included_ok(e@)
        },
        _ => false,
    }
}

/// Whether a decoded resource is what its wire form says: its kind, its id,
/// and the rest as [`ObjectInfo::read_from`] says.
pub open spec fn resource_read<D: ObjectInfo>(j: Json, x: D) -> bool {
    tag_kind_is(j, x.spec_kind()) && wire_id(j) == Some(x.spec_id()) && D::read_from(j, x)
}

/// Whether each decoded resource is read from the wire item at its position.
pub open spec fn all_read<D: ObjectInfo>(a: Seq<Json>, v: Seq<D>) -> bool {
    a.len() == v.len() && forall|i: int| 0 <= i < a.len() ==> resource_read(#[trigger] a[i], v[i])
}

/// Whether the side-loaded resources are what the entries hold: none for an
/// absent or null `included`, else one per wire item, each read from it.
pub open spec fn included_read(e: Seq<(String, Json)>, inc: Option<Vec<Object>>) -> bool {
    match inc {
        None => lookup(e, "included"@) is None || lookup(e, "included"@) == Some(Json::Null),
        Some(v) => lookup(e, "included"@) matches Some(Json::Array(a)) && all_read(a@, v@),
    }
}

/// Whether a decoded one-resource envelope is what its wire form says: the
/// data resource read from `data`, the side-loaded ones from `included`.
pub open spec fn envelope_read<D: ObjectInfo>(j: Json, x: ItemResponse<D>) -> bool {
    match j {
        Json::Object(e) => (lookup(e@, "data"@) matches Some(d) && resource_read(d, x.data)) && included_read(
            e@,
            x.included,
        ),
        _ => false,
    }
}

/// Whether a wire envelope is one a read of type `D` accepts: only envelope
/// keys, a readable `data` resource, readable side-loaded resources; post
/// context may be present.
pub open spec fn item_readable<D: ObjectInfo>(j: Json) -> bool {
    match j {
        Json::Object(e) => {
            &&& keys_within(e@, envelope_keys())
            &&& (lookup(e@, "data"@) matches Some(d) && D::wire_ok(d))
            &&& included_ok(e@)
        },
        _ => false,
    }
}

/// As [`item_readable`], with `data` an array of readable resources.
pub open spec fn collection_readable<D: ObjectInfo>(j: Json) -> bool {
    match j {
        Json::Object(e) => {
            &&& keys_within(e@, envelope_keys())
            &&& (lookup(e@, "data"@) matches Some(Json::Array(items)) && all_wire_ok::<D>(items@))
            &&& included_ok(e@)
        },
        _ => false,
    }
}

/// Whether `p` is a path a failed read of a one-resource envelope of type
/// `D` may name: an unknown key; `data` when it is absent, or a path under
/// `data` that `D` names for it; a path under `included` when that cannot be
/// read; a path under a key of post context.
pub open spec fn item_failed_at<D: ObjectInfo>(j: Json, p: Seq<String>) -> bool {
    match j {
        Json::Object(e) => {
            ||| (p.len() == 1 && !keys_within(e@, envelope_keys()) && !is_one_of(p[0]@, envelope_keys()))
            ||| (p.len() == 1 && p[0]@ == "data"@ && lookup(e@, "data"@) is None)
            ||| (p.len() >= 1 && p[0]@ == "data"@ && (lookup(e@, "data"@) matches Some(d) && D::failed_at(
                d,
                p.subrange(1, p.len() as int),
            )))
            ||| (p.len() >= 1 && p[0]@ == "included"@ && !included_ok(e@))
            ||| (p.len() >= 1 && has_post_keys(e@) && (p[0]@ == "after_posts"@ || p[0]@ == "author_cards"@
                || p[0]@ == "before_posts"@))
        },
        _ => p.len() == 0,
    }
}

/// Whether `p` is a path a failed read of a many-resource envelope may name:
/// an unknown key, a path under `data`, under `included` when that cannot be
/// read, or under a key of post context.
pub open spec fn collection_failed_at(j: Json, p: Seq<String>) -> bool {
    match j {
        Json::Object(e) => {
            ||| (p.len() == 1 && !keys_within(e@, envelope_keys()) && !is_one_of(p[0]@, envelope_keys()))
            ||| (p.len() >= 1 && p[0]@ == "data"@)
            ||| (p.len() >= 1 && p[0]@ == "included"@ && !included_ok(e@))
            ||| (p.len() >= 1 && has_post_keys(e@) && (p[0]@ == "after_posts"@ || p[0]@ == "author_cards"@
                || p[0]@ == "before_posts"@))
        },
        _ => p.len() == 0,
    }
}

/// Reads an optional `included` array of resources of any kind.
fn opt_included(o: &Vec<(String, Json)>) -> (r: Result<Option<Vec<Object>>, DecodeError>)
    ensures
        r matches Err(e) ==> e.path@.len() >= 1 && e.path@[0]@ == "included"@,
        included_ok(o@) <==> r is Ok,
        r matches Ok(inc) ==> included_read(o@, inc),
{
    match get_field(o, "included") {
        None => Ok(None),
        Some(Json::Null) => Ok(None),
        Some(Json::Array(items)) => {
            let mut out: Vec<Object> = Vec::new();
            let mut i: usize = 0;
            while i < items.len()
                invariant
                    i <= items@.len(),
                    out@.len() == i,
                    lookup(o@, "included"@) == Some(Json::Array(*items)),
                    forall|k: int| 0 <= k < i ==> Object::wire_ok(#[trigger] items@[k]),
                    forall|k: int| 0 <= k < i ==> resource_read(#[trigger] items@[k], out@[k]),
                decreases items@.len() - i,
            {
                match Object::from_json(&items[i]) {
                    Ok(x) => out.push(x),
                    Err(e) => {
                        assert(!Object::wire_ok(items@[i as int]));
                        assert(lookup(o@, "included"@) == Some(Json::Array(*items)));
                        assert(!all_wire_ok::<Object>(items@));
                        return Err(error_within("included", error_at_index(i, e)));
                    },
                }
                i = i + 1;
            }
            assert(all_wire_ok::<Object>(items@));
            assert(all_read(items@, out@));
            Ok(Some(out))
        },
        Some(_) => Err(error_at("included", DecodeCause::Invalid("an array of resources"))),
    }
}

/// Writes the side-loaded resources.
fn included_json(v: &Vec<Object>) -> (r: Json)
    ensures
        r matches Json::Array(a) && a@.len() == v@.len(),
{
    let mut a: Vec<Json> = Vec::new();
    let mut i: usize = 0;
    while i < v.len()
        invariant
            i <= v@.len(),
            a@.len() == i,
        decreases v@.len() - i,
    {
        a.push(v[i].to_json());
        i = i + 1;
    }
    Json::Array(a)
}

/// A response holding one resource, of type `D`: the generic [`Object`], or
/// one kind's struct, which refuses every other kind.
#[derive(Debug)]
pub struct ItemResponse<D: ObjectInfo> {
    pub data: D,
    pub included: Option<Vec<Object>>,
    pub post_info: Option<Box<PostInfo>>,
}

/// A response holding a list of resources of type `D`.
#[derive(Debug)]
pub struct CollectionResponse<D: ObjectInfo> {
    pub data: Vec<D>,
    pub included: Option<Vec<Object>>,
    pub post_info: Option<Box<PostInfo>>,
}

/// The context around a post or page, flattened among the envelope's keys.
#[derive(Debug)]
pub struct PostInfo {
    pub after_posts: Vec<ItemResponse<PostObject>>,
    pub author_cards: CollectionResponse<PostObject>,
    pub before_posts: Vec<ItemResponse<PostObject>>,
}

/// Whether any of the keys of post context occurs among an envelope's entries.
pub open spec fn has_post_keys(e: Seq<(String, Json)>) -> bool {
    has_key(e, "after_posts"@) || has_key(e, "author_cards"@) || has_key(e, "before_posts"@)
}

/// The keys an envelope may hold.
pub open spec fn envelope_keys() -> Seq<&'static str> {
    seq!["data", "included", "after_posts", "author_cards", "before_posts"]
}

fn envelope_key_list() -> (r: Vec<&'static str>)
    ensures
        r@ == envelope_keys(),
{
    vec!["data", "included", "after_posts", "author_cards", "before_posts"]
}

/// Reads the array of posts under `key` of an envelope `j`.
fn post_items(j: &Json, key: &str) -> (r: Result<Vec<ItemResponse<PostObject>>, DecodeError>)
    ensures
        r is Ok ==> (j matches Json::Object(e) && has_key(e@, key@)),
        r matches Err(e) ==> (j is Object ==> e.path@.len() >= 1 && e.path@[0]@ == key@),
    decreases j, 0nat,
{
    match j {
        Json::Object(o) => match get_field(o, key) {
            Some(Json::Array(items)) => {
                proof {
                    lemma_lookup_decreases(*j, key@);
                }
                let mut out: Vec<ItemResponse<PostObject>> = Vec::new();
                let mut i: usize = 0;
                while i < items.len()
                    invariant
                        i <= items@.len(),
                        decreases_to!(*j => Json::Array(*items)),
                    decreases items@.len() - i,
                {
                    proof {
                        let a = Json::Array(*items);
                        assert(decreases_to!(a => a->Array_0));
                        assert(decreases_to!(*items => items[i as int]));
                    }
                    match ItemResponse::<PostObject>::from_json(&items[i]) {
                        Ok(x) => out.push(x),
                        Err(e) => {
                            return Err(error_within(key, error_at_index(i, e)));
                        },
                    }
                    i = i + 1;
                }
                Ok(out)
            },
            Some(_) => Err(error_at(key, DecodeCause::Invalid("an array of posts"))),
            None => Err(error_at(key, DecodeCause::MissingField)),
        },
        _ => Err(not_an_object()),
    }
}

impl PostInfo {
    /// Reads the post context among the keys of an envelope `j`: all three
    /// keys, or none.
    fn from_entries(j: &Json) -> (r: Result<Option<Box<PostInfo>>, DecodeError>)
        ensures
            j matches Json::Object(e) ==> (r matches Ok(None) ==> !has_post_keys(e@)),
            j matches Json::Object(e) ==> (!has_post_keys(e@) ==> r matches Ok(None)),
            r matches Err(e) ==> (j is Object ==> e.path@.len() >= 1 && (e.path@[0]@ == "after_posts"@
                || e.path@[0]@ == "author_cards"@ || e.path@[0]@ == "before_posts"@)),
            j matches Json::Object(e) ==> (r matches Ok(Some(_)) ==> has_key(e@, "after_posts"@) && has_key(
                e@,
                "author_cards"@,
            ) && has_key(e@, "before_posts"@)),
        decreases j, 1nat,
    {
        match j {
            Json::Object(o) => {
                if get_field(o, "after_posts").is_none() && get_field(o, "author_cards").is_none()
                    && get_field(o, "before_posts").is_none() {
                    return Ok(None);
                }
                let after_posts = post_items(j, "after_posts")?;
                let author_cards = match get_field(o, "author_cards") {
                    Some(a) => {
                        proof {
                            lemma_lookup_decreases(*j, "author_cards"@);
                        }
                        match CollectionResponse::<PostObject>::from_json(a) {
                            Ok(x) => x,
                            Err(e) => {
                                return Err(error_within("author_cards", e));
                            },
                        }
                    },
                    None => {
                        return Err(error_at("author_cards", DecodeCause::MissingField));
                    },
                };
                let before_posts = post_items(j, "before_posts")?;
                Ok(Some(Box::new(PostInfo { after_posts, author_cards, before_posts })))
            },
            _ => Ok(None),
        }
    }

    /// Appends the post context to an envelope's entries.
    fn push_entries(&self, e: &mut Vec<(String, Json)>)
        ensures
            final(e)@.len() == old(e)@.len() + 3,
            forall|i: int| 0 <= i < old(e)@.len() ==> #[trigger] final(e)@[i] == old(e)@[i],
    {
        let mut after: Vec<Json> = Vec::new();
        let mut i: usize = 0;
        while i < self.after_posts.len()
            invariant
                i <= self.after_posts@.len(),
            decreases self.after_posts@.len() - i,
        {
            after.push(self.after_posts[i].to_json_plain());
            i = i + 1;
        }
        let mut before: Vec<Json> = Vec::new();
        let mut k: usize = 0;
        while k < self.before_posts.len()
            invariant
                k <= self.before_posts@.len(),
            decreases self.before_posts@.len() - k,
        {
            before.push(self.before_posts[k].to_json_plain());
            k = k + 1;
        }
        e.push((String::from_str("after_posts"), Json::Array(after)));
        e.push((String::from_str("author_cards"), self.author_cards.to_json_plain()));
        e.push((String::from_str("before_posts"), Json::Array(before)));
    }
}

impl<D: ObjectInfo> ItemResponse<D> {
    /// The first side-loaded resource that `obj_ref` points to, if it was side-loaded.
    pub fn get_ref(&self, obj_ref: &ObjectRef) -> (res: Option<&Object>)
        ensures
            match res {
                Some(o) => resolve(self.included, *obj_ref) == Some(*o),
                None => resolve(self.included, *obj_ref) is None,
            },
    {
        find_ref(&self.included, obj_ref)
    }

    /// Reads a one-resource envelope: `data` is required and must be a resource
    /// this `D` accepts; `included` is optional; the three keys of post context
    /// come all together or not at all; no other key is accepted.
    pub fn from_json(j: &Json) -> (r: Result<ItemResponse<D>, DecodeError>)
        ensures
            r matches Ok(x) ==> (j matches Json::Object(e) && keys_within(e@, envelope_keys())
                && (lookup(e@, "data"@) matches Some(d) && tag_kind_is(d, x.data.spec_kind()))
                && (x.post_info is None <==> !has_post_keys(e@))),
            r matches Ok(x) ==> (j matches Json::Object(e) && (lookup(e@, "data"@) matches Some(d) && D::read_from(
                d,
                x.data,
            ) && wire_id(d) == Some(x.data.spec_id()))),
            !(j is Object) ==> r is Err,
            item_ok::<D>(*j) ==> r is Ok,
            r is Ok ==> item_readable::<D>(*j),
            r matches Ok(x) ==> envelope_read(*j, x),
            r matches Ok(x) ==> (j matches Json::Object(e) && included_read(e@, x.included)),
            r matches Err(e) ==> item_failed_at::<D>(*j, e.path@),
        decreases j, 2nat,
    {
        match j {
            Json::Object(o) => {
                check_keys(o, &envelope_key_list())?;
                let data = match get_field(o, "data") {
                    Some(d) => match D::from_json(d) {
                        Ok(x) => x,
                        Err(e) => {
                            return Err(error_within("data", e));
                        },
                    },
                    None => {
                        return Err(error_at("data", DecodeCause::MissingField));
                    },
                };
                let included = opt_included(o)?;
                let post_info = PostInfo::from_entries(j)?;
                Ok(ItemResponse { data, included, post_info })
            },
            _ => Err(not_an_object()),
        }
    }

    /// Writes an envelope without its post context.
    fn to_json_plain(&self) -> (r: Json)
        ensures
            r is Object,
    {
        let mut e: Vec<(String, Json)> = Vec::new();
        e.push((String::from_str("data"), self.data.to_json()));
        match &self.included {
            Some(v) => e.push((String::from_str("included"), included_json(v))),
            None => {},
        }
        Json::Object(e)
    }

    /// Writes the envelope as a request body: `data` first, `included` when
    /// present, then the post context, flattened; the posts inside post
    /// context are written without post context of their own.
    pub fn to_json(&self) -> (r: Json)
        ensures
            r matches Json::Object(e) && e@.len() > 0 && e@[0].0@ == "data"@ && crate::objects::encodes(
                e@[0].1,
                self.data.spec_kind(),
                self.data.spec_id(),
            ) && D::written_as(e@[0].1, self.data),
    {
        let mut e: Vec<(String, Json)> = Vec::new();
        e.push((String::from_str("data"), self.data.to_json()));
        match &self.included {
            Some(v) => e.push((String::from_str("included"), included_json(v))),
            None => {},
        }
        match &self.post_info {
            Some(p) => p.push_entries(&mut e),
            None => {},
        }
        Json::Object(e)
    }
}

impl<D: ObjectInfo> CollectionResponse<D> {
    /// The first side-loaded resource that `obj_ref` points to, if it was side-loaded.
    pub fn get_ref(&self, obj_ref: &ObjectRef) -> (res: Option<&Object>)
        ensures
            match res {
                Some(o) => resolve(self.included, *obj_ref) == Some(*o),
                None => resolve(self.included, *obj_ref) is None,
            },
    {
        find_ref(&self.included, obj_ref)
    }

    /// Reads the `data` array.
    fn data_list(o: &Vec<(String, Json)>) -> (r: Result<Vec<D>, DecodeError>)
        ensures
            r matches Ok(v) ==> (lookup(o@, "data"@) matches Some(Json::Array(a)) && a@.len() == v@.len()
                && forall|i: int| 0 <= i < v@.len() ==> tag_kind_is(a@[i], (#[trigger] v@[i]).spec_kind())
                && D::read_from(a@[i], v@[i])),
            (lookup(o@, "data"@) matches Some(Json::Array(items)) && all_wire_ok::<D>(items@)) ==> r is Ok,
            r matches Err(e) ==> e.path@.len() >= 1 && e.path@[0]@ == "data"@,
            r is Ok ==> (lookup(o@, "data"@) matches Some(Json::Array(items)) && all_wire_ok::<D>(items@)),
    {
        match get_field(o, "data") {
            Some(Json::Array(items)) => {
                let mut out: Vec<D> = Vec::new();
                let mut i: usize = 0;
                while i < items.len()
                    invariant
                        i <= items@.len(),
                        out@.len() == i,
                        forall|k: int| 0 <= k < i ==> tag_kind_is(items@[k], (#[trigger] out@[k]).spec_kind())
                            && D::read_from(items@[k], out@[k]),
                        lookup(o@, "data"@) == Some(Json::Array(*items)),
                        forall|k: int| 0 <= k < i ==> D::wire_ok(#[trigger] items@[k]),
                    decreases items@.len() - i,
                {
                    match D::from_json(&items[i]) {
                        Ok(x) => out.push(x),
                        Err(e) => {
                            assert(!D::wire_ok(items@[i as int]));
                            assert(!all_wire_ok::<D>(items@));
                            return Err(error_within("data", error_at_index(i, e)));
                        },
                    }
                    i = i + 1;
                }
                Ok(out)
            },
            Some(_) => Err(error_at("data", DecodeCause::Invalid("an array of resources"))),
            None => Err(error_at("data", DecodeCause::MissingField)),
        }
    }

    /// Reads a many-resource envelope: `data` is a required array of resources
    /// this `D` accepts; otherwise as for [`ItemResponse::from_json`].
    pub fn from_json(j: &Json) -> (r: Result<CollectionResponse<D>, DecodeError>)
        ensures
            r matches Ok(x) ==> (j matches Json::Object(e) && keys_within(e@, envelope_keys())
                && (lookup(e@, "data"@) matches Some(Json::Array(a)) && a@.len() == x.data@.len())
                && (x.post_info is None <==> !has_post_keys(e@))),
            r matches Ok(x) ==> (j matches Json::Object(e) && (lookup(e@, "data"@) matches Some(Json::Array(a))
                && forall|i: int| 0 <= i < x.data@.len() ==> D::read_from(a@[i], #[trigger] x.data@[i]))),
            !(j is Object) ==> r is Err,
            collection_ok::<D>(*j) ==> r is Ok,
            r is Ok ==> collection_readable::<D>(*j),
            r matches Ok(x) ==> (j matches Json::Object(e) && included_read(e@, x.included)),
            r matches Err(e) ==> collection_failed_at(*j, e.path@),
        decreases j, 2nat,
    {
        match j {
            Json::Object(o) => {
                check_keys(o, &envelope_key_list())?;
                let data = CollectionResponse::<D>::data_list(o)?;
                let included = opt_included(o)?;
                let post_info = PostInfo::from_entries(j)?;
                Ok(CollectionResponse { data, included, post_info })
            },
            _ => Err(not_an_object()),
        }
    }

    /// Writes an envelope without its post context.
    fn to_json_plain(&self) -> (r: Json)
        ensures
            r is Object,
    {
        let mut items: Vec<Json> = Vec::new();
        let mut i: usize = 0;
        while i < self.data.len()
            invariant
                i <= self.data@.len(),
            decreases self.data@.len() - i,
        {
            items.push(self.data[i].to_json());
            i = i + 1;
        }
        let mut e: Vec<(String, Json)> = Vec::new();
        e.push((String::from_str("data"), Json::Array(items)));
        match &self.included {
            Some(v) => e.push((String::from_str("included"), included_json(v))),
            None => {},
        }
        Json::Object(e)
    }
}

/// Whether a wire resource is tagged with kind `k`.
pub open spec fn tag_kind_is(j: Json, k: crate::kind::NanoKind) -> bool {
    crate::objects::tag_kind(j) == Some(k)
}

} // verus!
