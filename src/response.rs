//! Reading a response: fixed statuses first, then server-reported errors,
//! then strict decoding against the expected shape.

use vstd::prelude::*;

use crate::codec::{error_at, error_at_index, error_within, field_str, DecodeCause, DecodeError};
use crate::envelope::{collection_failed_at, collection_ok, collection_readable, envelope_read, included_read, item_failed_at, item_ok, item_readable, CollectionResponse, ItemResponse};
use crate::error::{error_items, error_list_ok, errors_match, is_error_list, simple_error_of, Error, NanoError};
use crate::json::{get_field, has_key, keys_within, lookup, Json};
use crate::objects::{wire_id, ObjectInfo, PostObject};
use crate::relation::{check_keys, not_an_object};

verus! {

/// The status the server gives when it failed.
pub const INTERNAL_SERVER_ERROR: u16 = 500;

/// The status the server gives for an unknown path.
pub const NOT_FOUND: u16 = 404;

/// The status the server gives when the session's token is not accepted.
pub const UNAUTHORIZED: u16 = 401;

/// The fixed message of the two statuses that are answered before any body is read.
pub open spec fn fixed_message(status: u16) -> Option<Seq<char>> {
    if status == INTERNAL_SERVER_ERROR {
        Some("Internal Server Error"@)
    } else if status == NOT_FOUND {
        Some("Page Not Found"@)
    } else {
        None
    }
}

/// Whether a body carries a top-level `error` or `errors` key.
pub open spec fn has_error_key(body: Json) -> bool {
    match body {
        Json::Object(e) => has_key(e@, "error"@) || has_key(e@, "errors"@),
        _ => false,
    }
}

/// Whether a response is left for the expected shape to decode: its status
/// has no fixed message and its body no error key.
pub open spec fn passes_classification(status: u16, body: Json) -> bool {
    fixed_message(status) is None && !has_error_key(body)
}

/// Looks at a response before it is decoded. A server error or not-found
/// status gives its fixed message whatever the body holds; otherwise a body
/// with an `error` or `errors` key gives the server-reported error; otherwise
/// the response passes. A body that is not JSON comes here as `Json::Null`.
pub fn classify(status: u16, body: &Json) -> (r: Result<(), Error>)
    ensures
        fixed_message(status) matches Some(m) ==> (r matches Err(Error::SimpleNanoError(c, t)) && c == status
            && t@ == m),
        passes_classification(status, *body) ==> r is Ok,
        !(r matches Err(Error::ResponseDecoding(_))),
        fixed_message(status) is None && has_error_key(*body) ==> {
            &&& r is Err
            &&& simple_error_of(*body) matches Some(m) ==> (r matches Err(Error::SimpleNanoError(c, t)) && c
                == status && t@ == m)
            &&& r matches Err(Error::NanoErrors(_)) ==> simple_error_of(*body) is None && is_error_list(*body)
            &&& simple_error_of(*body) is None && !is_error_list(*body) ==> r matches Err(Error::BadJson(_))
        },
        fixed_message(status) is None && has_error_key(*body) && simple_error_of(*body) is None && error_list_ok(
            *body,
        ) ==> (r matches Err(Error::NanoErrors(l)) && errors_match(error_items(*body), l@)),
        r matches Err(Error::NanoErrors(l)) ==> errors_match(error_items(*body), l@),
{
    if status == INTERNAL_SERVER_ERROR {
        return Err(Error::SimpleNanoError(status, String::from_str("Internal Server Error")));
    }
    if status == NOT_FOUND {
        return Err(Error::SimpleNanoError(status, String::from_str("Page Not Found")));
    }
    match body {
        Json::Object(o) => {
            if get_field(o, "error").is_none() && get_field(o, "errors").is_none() {
                return Ok(());
            }
            match NanoError::from_json(body) {
                Ok(NanoError::SimpleError { error }) => Err(Error::SimpleNanoError(status, error)),
                Ok(NanoError::ErrorList { errors }) => Err(Error::NanoErrors(errors)),
                Err(e) => Err(Error::BadJson(e)),
            }
        },
        _ => Ok(()),
    }
}

/// Reads a one-resource response of type `D` after [`classify`] lets it pass.
pub fn decode_item<D: ObjectInfo>(status: u16, body: &Json) -> (r: Result<ItemResponse<D>, Error>)
    ensures
        fixed_message(status) matches Some(m) ==> (r matches Err(Error::SimpleNanoError(c, t)) && c == status
            && t@ == m),
        fixed_message(status) is None && has_error_key(*body) ==> r is Err && !(r matches Err(
            Error::ResponseDecoding(_),
        )),
        r is Ok ==> passes_classification(status, *body),
        r matches Ok(x) ==> (body matches Json::Object(e) && (lookup(e@, "data"@) matches Some(d)
            && crate::objects::tag_kind(d) == Some(x.data.spec_kind()) && wire_id(d) == Some(x.data.spec_id())
            && D::read_from(d, x.data))),
        passes_classification(status, *body) && item_ok::<D>(*body) ==> r is Ok,
        r is Ok ==> item_readable::<D>(*body),
        r matches Ok(x) ==> envelope_read(*body, x),
        r matches Err(Error::ResponseDecoding(e)) ==> passes_classification(status, *body) && item_failed_at::<D>(
            *body,
            e.path@,
        ),
{
    match classify(status, body) {
        Ok(()) => {},
        Err(e) => {
            return Err(e);
        },
    }
    match ItemResponse::<D>::from_json(body) {
        Ok(x) => Ok(x),
        Err(e) => Err(Error::ResponseDecoding(e)),
    }
}

/// Reads a many-resource response of type `D` after [`classify`] lets it pass.
pub fn decode_collection<D: ObjectInfo>(status: u16, body: &Json) -> (r: Result<CollectionResponse<D>, Error>)
    ensures
        fixed_message(status) matches Some(m) ==> (r matches Err(Error::SimpleNanoError(c, t)) && c == status
            && t@ == m),
        fixed_message(status) is None && has_error_key(*body) ==> r is Err && !(r matches Err(
            Error::ResponseDecoding(_),
        )),
        r is Ok ==> passes_classification(status, *body),
        r matches Ok(x) ==> (body matches Json::Object(e) && (lookup(e@, "data"@) matches Some(Json::Array(a))
            && a@.len() == x.data@.len() && forall|i: int| 0 <= i < x.data@.len() ==> D::read_from(a@[i], #[trigger] x.data@[i]))),
        passes_classification(status, *body) && collection_ok::<D>(*body) ==> r is Ok,
        r is Ok ==> collection_readable::<D>(*body),
        r matches Ok(x) ==> (body matches Json::Object(e) && included_read(e@, x.included)),
        r matches Err(Error::ResponseDecoding(e)) ==> passes_classification(status, *body) && collection_failed_at(
            *body,
            e.path@,
        ),
{
    match classify(status, body) {
        Ok(()) => {},
        Err(e) => {
            return Err(e);
        },
    }
    match CollectionResponse::<D>::from_json(body) {
        Ok(x) => Ok(x),
        Err(e) => Err(Error::ResponseDecoding(e)),
    }
}

/// The answer to a login: the token to send with later requests.
#[derive(Clone, Debug, PartialEq, Eq)]
pub struct LoginResponse {
    pub auth_token: String,
}

/// The token a login answer holds: exactly the key `auth_token`, a string.
pub open spec fn login_token_of(j: Json) -> Option<Seq<char>> {
    match j {
        Json::Object(e) => match lookup(e@, "auth_token"@) {
            Some(Json::Str(s)) => if keys_within(e@, seq!["auth_token"]) {
                Some(s@)
            } else {
                None
            },
            _ => None,
        },
        _ => None,
    }
}

impl LoginResponse {
    /// Reads exactly the key `auth_token`, a string.
    pub fn from_json(j: &Json) -> (r: Result<LoginResponse, DecodeError>)
        ensures
            match r {
                Ok(x) => login_token_of(*j) == Some(x.auth_token@),
                Err(_) => login_token_of(*j) is None,
            },
    {
        match j {
            Json::Object(o) => {
                let names: Vec<&str> = vec!["auth_token"];
                assert(names@ =~= seq!["auth_token"]);
                check_keys(o, &names)?;
                let auth_token = field_str(o, "auth_token")?;
                Ok(LoginResponse { auth_token })
            },
            _ => Err(not_an_object()),
        }
    }
}

/// Reads a login answer after [`classify`] lets it pass.
pub fn decode_login(status: u16, body: &Json) -> (r: Result<LoginResponse, Error>)
    ensures
        fixed_message(status) matches Some(m) ==> (r matches Err(Error::SimpleNanoError(c, t)) && c == status
            && t@ == m),
        fixed_message(status) is None && has_error_key(*body) ==> r is Err,
        r matches Ok(x) ==> passes_classification(status, *body) && login_token_of(*body) == Some(x.auth_token@),
        passes_classification(status, *body) ==> (r is Ok <==> login_token_of(*body) is Some),
{
    match classify(status, body) {
        Ok(()) => {},
        Err(e) => {
            return Err(e);
        },
    }
    match LoginResponse::from_json(body) {
        Ok(x) => Ok(x),
        Err(e) => Err(Error::ResponseDecoding(e)),
    }
}

/// An item of the store.
#[derive(Clone, Debug, PartialEq, Eq)]
pub struct StoreItem {
    /// The unique slug of the item.
    pub handle: String,
    /// The address of the item's image, which the wire nests as `{"src": ...}`.
    pub image: String,
    /// The title shown to users.
    pub title: String,
}

/// Whether a wire store item is readable: exactly `handle`, `image` and
/// `title`, the two texts strings and the image an object with a `src` string.
pub open spec fn store_item_ok(j: Json) -> bool {
    match j {
        Json::Object(e) => {
            &&& keys_within(e@, seq!["handle", "image", "title"])
            &&& (lookup(e@, "handle"@) matches Some(Json::Str(_)))
            &&& (lookup(e@, "title"@) matches Some(Json::Str(_)))
            &&& (lookup(e@, "image"@) matches Some(Json::Object(i)) && (lookup(i@, "src"@) matches Some(Json::Str(_))))
        },
        _ => false,
    }
}

/// Whether every wire store item of a list is readable.
pub open spec fn all_store_items_ok(a: Seq<Json>) -> bool {
    forall|i: int| 0 <= i < a.len() ==> #[trigger] store_item_ok(a[i])
}

/// Whether every one-post envelope of a list is readable.
pub open spec fn all_posts_ok(a: Seq<Json>) -> bool {
    forall|i: int| 0 <= i < a.len() ==> #[trigger] item_ok::<PostObject>(a[i])
}

/// Whether a store item is what its wire form says.
pub open spec fn store_item_read(j: Json, x: StoreItem) -> bool {
    match j {
        Json::Object(e) => {
            &&& (lookup(e@, "handle"@) matches Some(Json::Str(h)) && h@ == x.handle@)
            &&& (lookup(e@, "title"@) matches Some(Json::Str(t)) && t@ == x.title@)
            &&& (lookup(e@, "image"@) matches Some(Json::Object(i)) && (lookup(i@, "src"@) matches Some(
                Json::Str(s),
            ) && s@ == x.image@))
        },
        _ => false,
    }
}

/// Whether each store item is read from the wire item at its position.
pub open spec fn all_store_items_read(a: Seq<Json>, v: Seq<StoreItem>) -> bool {
    a.len() == v.len() && forall|i: int| 0 <= i < a.len() ==> store_item_read(#[trigger] a[i], v[i])
}

/// Whether each post envelope is read from the wire item at its position.
pub open spec fn all_posts_read(a: Seq<Json>, v: Seq<ItemResponse<PostObject>>) -> bool {
    a.len() == v.len() && forall|i: int| 0 <= i < a.len() ==> envelope_read(#[trigger] a[i], v[i])
}

impl StoreItem {
    /// Reads exactly `handle`, `image` and `title`; the image's address is
    /// taken from its `src` key.
    pub fn from_json(j: &Json) -> (r: Result<StoreItem, DecodeError>)
        ensures
            r matches Ok(x) ==> (j matches Json::Object(e) && keys_within(e@, seq!["handle", "image", "title"])
                && (lookup(e@, "image"@) matches Some(Json::Object(i)) && (lookup(i@, "src"@) matches Some(
                Json::Str(s),
            ) && s@ == x.image@))),
            !(j is Object) ==> r is Err,
            store_item_ok(*j) <==> r is Ok,
            r matches Ok(x) ==> store_item_read(*j, x),
    {
        match j {
            Json::Object(o) => {
                let names: Vec<&str> = vec!["handle", "image", "title"];
                assert(names@ =~= seq!["handle", "image", "title"]);
                check_keys(o, &names)?;
                let handle = field_str(o, "handle")?;
                let image = match get_field(o, "image") {
                    Some(Json::Object(i)) => match field_str(i, "src") {
                        Ok(s) => s,
                        Err(e) => {
                            return Err(error_within("image", e));
                        },
                    },
                    Some(_) => {
                        return Err(error_at("image", DecodeCause::Invalid("an object")));
                    },
                    None => {
                        return Err(error_at("image", DecodeCause::MissingField));
                    },
                };
                let title = field_str(o, "title")?;
                Ok(StoreItem { handle, image, title })
            },
            _ => Err(not_an_object()),
        }
    }
}

/// Reads a response whose body is an array of store items.
pub fn decode_store_items(status: u16, body: &Json) -> (r: Result<Vec<StoreItem>, Error>)
    ensures
        fixed_message(status) matches Some(m) ==> (r matches Err(Error::SimpleNanoError(c, t)) && c == status
            && t@ == m),
        fixed_message(status) is None && has_error_key(*body) ==> r is Err,
        r matches Ok(v) ==> passes_classification(status, *body) && (body matches Json::Array(a)
            && all_store_items_read(a@, v@)),
        passes_classification(status, *body) ==> (r is Ok <==> (body matches Json::Array(a) && all_store_items_ok(a@))),
{
    match classify(status, body) {
        Ok(()) => {},
        Err(e) => {
            return Err(e);
        },
    }
    match body {
        Json::Array(items) => {
            let mut out: Vec<StoreItem> = Vec::new();
            let mut i: usize = 0;
            while i < items.len()
                invariant
                    i <= items@.len(),
                    out@.len() == i,
                    passes_classification(status, *body),
                    *body == Json::Array(*items),
                    forall|k: int| 0 <= k < i ==> store_item_read(#[trigger] items@[k], out@[k]),
                    forall|k: int| 0 <= k < i ==> store_item_ok(#[trigger] items@[k]),
                decreases items@.len() - i,
            {
                match StoreItem::from_json(&items[i]) {
                    Ok(x) => out.push(x),
                    Err(e) => {
                        assert(!store_item_ok(items@[i as int]));
                        assert(!all_store_items_ok(items@));
                        return Err(Error::ResponseDecoding(error_at_index(i, e)));
                    },
                }
                i = i + 1;
            }
            Ok(out)
        },
        _ => Err(Error::ResponseDecoding(DecodeError { path: Vec::new(), cause: DecodeCause::Invalid("an array") })),
    }
}

/// Reads a response whose body is an array of one-post envelopes.
pub fn decode_offers(status: u16, body: &Json) -> (r: Result<Vec<ItemResponse<PostObject>>, Error>)
    ensures
        fixed_message(status) matches Some(m) ==> (r matches Err(Error::SimpleNanoError(c, t)) && c == status
            && t@ == m),
        fixed_message(status) is None && has_error_key(*body) ==> r is Err,
        r matches Ok(v) ==> passes_classification(status, *body) && (body matches Json::Array(a) && all_posts_read(
            a@,
            v@,
        )),
        passes_classification(status, *body) && (body matches Json::Array(a) && all_posts_ok(a@)) ==> r is Ok,
{
    match classify(status, body) {
        Ok(()) => {},
        Err(e) => {
            return Err(e);
        },
    }
    match body {
        Json::Array(items) => {
            let mut out: Vec<ItemResponse<PostObject>> = Vec::new();
            let mut i: usize = 0;
            while i < items.len()
                invariant
                    i <= items@.len(),
                    out@.len() == i,
                    passes_classification(status, *body),
                    *body == Json::Array(*items),
                    forall|k: int| 0 <= k < i ==> envelope_read(#[trigger] items@[k], out@[k]),
                decreases items@.len() - i,
            {
                match ItemResponse::<PostObject>::from_json(&items[i]) {
                    Ok(x) => out.push(x),
                    Err(e) => {
                        assert(!item_ok::<PostObject>(items@[i as int]));
                        assert(!all_posts_ok(items@));
                        return Err(Error::ResponseDecoding(error_at_index(i, e)));
                    },
                }
                i = i + 1;
            }
            Ok(out)
        },
        _ => Err(Error::ResponseDecoding(DecodeError { path: Vec::new(), cause: DecodeCause::Invalid("an array") })),
    }
}

} // verus!
