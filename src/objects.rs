//! The polymorphic resource model: one struct per kind, the [`Object`] union
//! over all of them, and the [`ObjectInfo`] view they share.

use vstd::prelude::*;

use crate::attributes::{
    BadgeData,
    ChallengeData,
    DailyAggregateData,
    FavoriteAuthorData,
    FavoriteBookData,
    GenreData,
    GroupData,
    GroupExternalLinkData,
    LocationData,
    NanoMessageData,
    NotificationData,
    PageData,
    PostData,
    ProjectData,
    ProjectSessionData,
    StopWatchData,
    TimerData,
    UserData,
    WritingLocationData,
    WritingMethodData,
    GroupUserData,
    LocationGroupData,
    ProjectChallengeData,
    UserBadgeData,
    badge_data_read_from,
    challenge_data_read_from,
    daily_aggregate_data_read_from,
    favorite_author_data_read_from,
    favorite_book_data_read_from,
    genre_data_read_from,
    group_data_read_from,
    group_external_link_data_read_from,
    location_data_read_from,
    nano_message_data_read_from,
    notification_data_read_from,
    page_data_read_from,
    post_data_read_from,
    project_data_read_from,
    project_session_data_read_from,
    stop_watch_data_read_from,
    timer_data_read_from,
    user_data_read_from,
    writing_location_data_read_from,
    writing_method_data_read_from,
    group_user_data_read_from,
    location_group_data_read_from,
    project_challenge_data_read_from,
    user_badge_data_read_from,
    badge_data_wire_ok,
    challenge_data_wire_ok,
    daily_aggregate_data_wire_ok,
    favorite_author_data_wire_ok,
    favorite_book_data_wire_ok,
    genre_data_wire_ok,
    group_data_wire_ok,
    group_external_link_data_wire_ok,
    location_data_wire_ok,
    nano_message_data_wire_ok,
    notification_data_wire_ok,
    page_data_wire_ok,
    post_data_wire_ok,
    project_data_wire_ok,
    project_session_data_wire_ok,
    stop_watch_data_wire_ok,
    timer_data_wire_ok,
    user_data_wire_ok,
    writing_location_data_wire_ok,
    writing_method_data_wire_ok,
    group_user_data_wire_ok,
    location_group_data_wire_ok,
    project_challenge_data_wire_ok,
    user_badge_data_wire_ok,
    badge_data_written_as,
    challenge_data_written_as,
    daily_aggregate_data_written_as,
    favorite_author_data_written_as,
    favorite_book_data_written_as,
    genre_data_written_as,
    group_data_written_as,
    group_external_link_data_written_as,
    location_data_written_as,
    nano_message_data_written_as,
    notification_data_written_as,
    page_data_written_as,
    post_data_written_as,
    project_data_written_as,
    project_session_data_written_as,
    stop_watch_data_written_as,
    timer_data_written_as,
    writing_location_data_written_as,
    writing_method_data_written_as,
    group_user_data_written_as,
    location_group_data_written_as,
    project_challenge_data_written_as,
    user_badge_data_written_as,
    badge_data_error_at,
    challenge_data_error_at,
    daily_aggregate_data_error_at,
    favorite_author_data_error_at,
    favorite_book_data_error_at,
    genre_data_error_at,
    group_data_error_at,
    group_external_link_data_error_at,
    location_data_error_at,
    nano_message_data_error_at,
    notification_data_error_at,
    page_data_error_at,
    post_data_error_at,
    project_data_error_at,
    project_session_data_error_at,
    stop_watch_data_error_at,
    timer_data_error_at,
    writing_location_data_error_at,
    writing_method_data_error_at,
    group_user_data_error_at,
    location_group_data_error_at,
    project_challenge_data_error_at,
    user_badge_data_error_at,
};
use crate::codec::{error_at, error_within, field_str_u64, json_str_u64, DecodeCause, DecodeError};
use crate::json::{get_field, lookup, Json};
use crate::kind::{kind_of_name, plural_name, NanoKind};
use crate::relation::{link_info_ok, link_info_read, not_an_object, relation_info_read, relations_ok, relations_written, LinkInfo, RelationInfo};
use crate::text::{decimal_text, same_text, u64_text};

verus! {

/// The kind a `type` tag names; only plural names are tags.
pub open spec fn plural_kind(s: Seq<char>) -> Option<NanoKind> {
    match kind_of_name(s) {
        Some(k) => if plural_name(k) == s {
            Some(k)
        } else {
            None
        },
        None => None,
    }
}

/// The kind named by the `type` tag among an object's entries.
pub open spec fn tag_kind_of(e: Seq<(String, Json)>) -> Option<NanoKind> {
    match lookup(e, "type"@) {
        Some(Json::Str(t)) => plural_kind(t@),
        _ => None,
    }
}

/// The kind named by the `type` tag of a wire resource.
pub open spec fn tag_kind(j: Json) -> Option<NanoKind> {
    match j {
        Json::Object(e) => tag_kind_of(e@),
        _ => None,
    }
}

/// The id of a wire resource: a numeral in a string under `id`.
pub open spec fn wire_id(j: Json) -> Option<u64> {
    match j {
        Json::Object(e) => match lookup(e@, "id"@) {
            Some(i) => json_str_u64(i),
            None => None,
        },
        _ => None,
    }
}

/// Whether the entries of a wire resource start with the tag of kind `k` and
/// hold, unless `id` is the unassigned `0`, the id as a numeral in a string;
/// an id of `0` is left out.
pub open spec fn encodes_entries(e: Seq<(String, Json)>, k: NanoKind, id: u64) -> bool {
    &&& e.len() > 0 && e[0].0@ == "type"@
    &&& (e[0].1 matches Json::Str(t) && t@ == plural_name(k))
    &&& if id == 0 {
        lookup(e, "id"@) is None
    } else {
        lookup(e, "id"@) matches Some(Json::Str(s)) && s@ == decimal_text(id as nat)
    }
}

/// Whether a wire resource is an object whose entries [`encodes_entries`] accepts.
pub open spec fn encodes(j: Json, k: NanoKind, id: u64) -> bool {
    match j {
        Json::Object(e) => encodes_entries(e@, k, id),
        _ => false,
    }
}

/// Whether the `relationships` of a wire resource can be read: absent, null,
/// or a readable relationships object.
pub open spec fn relationships_ok(e: Seq<(String, Json)>) -> bool {
    match lookup(e, "relationships"@) {
        None => true,
        Some(Json::Null) => true,
        Some(Json::Object(r)) => relations_ok(r@),
        _ => false,
    }
}

/// Whether the `links` of a wire resource can be read: absent, null, or a
/// readable link set.
pub open spec fn links_ok(e: Seq<(String, Json)>) -> bool {
    match lookup(e, "links"@) {
        None => true,
        Some(Json::Null) => true,
        Some(l) => link_info_ok(l),
    }
}

/// Whether the common part of a wire resource of kind `k` can be read: the
/// tag names `k`, the id is a numeral in a string, relationships and links
/// are readable.
pub open spec fn resource_ok(j: Json, k: NanoKind) -> bool {
    match j {
        Json::Object(e) => {
            &&& tag_kind_of(e@) == Some(k)
            &&& (lookup(e@, "id"@) matches Some(i) && json_str_u64(i) is Some)
            &&& relationships_ok(e@)
            &&& links_ok(e@)
        },
        _ => false,
    }
}

/// Whether `p` is the path a failed read of a wire resource of kind `k`
/// names: `type` for a tag that is not `k`'s, `id` for an unreadable id, a
/// path under `relationships` or `links` where those cannot be read, and
/// otherwise a path under `attributes` that `attrs` accepts.
pub open spec fn resource_failed_at(j: Json, k: NanoKind, p: Seq<String>, attrs: spec_fn(Seq<String>) -> bool) -> bool {
    match j {
        Json::Object(e) => if tag_kind_of(e@) != Some(k) {
            p.len() == 1 && p[0]@ == "type"@
        } else if !(lookup(e@, "id"@) matches Some(i) && json_str_u64(i) is Some) {
            p.len() == 1 && p[0]@ == "id"@
        } else if !relationships_ok(e@) {
            p.len() >= 1 && p[0]@ == "relationships"@
        } else if !links_ok(e@) {
            p.len() >= 1 && p[0]@ == "links"@
        } else {
            p.len() >= 1 && p[0]@ == "attributes"@ && attrs(p)
        },
        _ => p.len() == 0,
    }
}

/// Whether decoded relationships are what the entries hold: none for an
/// absent or null field, else what [`relation_info_read`] says.
pub open spec fn relationships_read(e: Seq<(String, Json)>, rel: Option<RelationInfo>) -> bool {
    match rel {
        None => lookup(e, "relationships"@) is None || lookup(e, "relationships"@) == Some(Json::Null),
        Some(info) => lookup(e, "relationships"@) matches Some(Json::Object(r)) && relation_info_read(r@, info),
    }
}

/// Whether decoded links are what the entries hold: none for an absent or
/// null field, else what [`link_info_read`] says.
pub open spec fn links_read(e: Seq<(String, Json)>, links: Option<LinkInfo>) -> bool {
    match links {
        None => lookup(e, "links"@) is None || lookup(e, "links"@) == Some(Json::Null),
        Some(l) => lookup(e, "links"@) matches Some(Json::Object(le)) && link_info_read(le@, l.this, l.others@),
    }
}

/// Whether the entries carry the relationships of a resource as
/// [`relations_written`] says, or none when it has none.
pub open spec fn head_written(e: Seq<(String, Json)>, rel: Option<RelationInfo>) -> bool {
    match rel {
        Some(info) => lookup(e, "relationships"@) matches Some(rj) && relations_written(rj, info),
        None => lookup(e, "relationships"@) is None,
    }
}

/// Reads the `type` tag of an object as a kind's plural name.
pub fn field_tag(o: &Vec<(String, Json)>) -> (r: Result<NanoKind, DecodeError>)
    ensures
        match r {
            Ok(k) => tag_kind_of(o@) == Some(k),
            Err(e) => tag_kind_of(o@) is None && e.path@.len() == 1 && e.path@[0]@ == "type"@,
        },
{
    match get_field(o, "type") {
        Some(Json::Str(t)) => match NanoKind::from_name(t.as_str()) {
            Ok(k) => {
                if same_text(k.api_name(), t.as_str()) {
                    Ok(k)
                } else {
                    Err(error_at("type", DecodeCause::UnknownKind))
                }
            },
            Err(_) => Err(error_at("type", DecodeCause::UnknownKind)),
        },
        Some(_) => Err(error_at("type", DecodeCause::Invalid("a kind name"))),
        None => Err(error_at("type", DecodeCause::MissingField)),
    }
}

/// Reads the optional `relationships` field; absent or null gives `None`.
fn opt_relationships(o: &Vec<(String, Json)>) -> (r: Result<Option<RelationInfo>, DecodeError>)
    ensures
        r matches Ok(Some(info)) ==> info.wf(),
        relationships_ok(o@) <==> r is Ok,
        r matches Ok(rel) ==> relationships_read(o@, rel),
        r matches Err(e) ==> e.path@.len() >= 1 && e.path@[0]@ == "relationships"@,
{
    match get_field(o, "relationships") {
        None => Ok(None),
        Some(Json::Null) => Ok(None),
        Some(j) => match RelationInfo::from_json(j) {
            Ok(x) => Ok(Some(x)),
            Err(e) => Err(error_within("relationships", e)),
        },
    }
}

/// Reads the optional `links` field; absent or null gives `None`.
fn opt_links(o: &Vec<(String, Json)>) -> (r: Result<Option<LinkInfo>, DecodeError>)
    ensures
        links_ok(o@) <==> r is Ok,
        r matches Ok(l) ==> links_read(o@, l),
        r matches Err(e) ==> e.path@.len() >= 1 && e.path@[0]@ == "links"@,
{
    match get_field(o, "links") {
        None => Ok(None),
        Some(Json::Null) => Ok(None),
        Some(j) => match LinkInfo::from_json(j) {
            Ok(x) => Ok(Some(x)),
            Err(e) => Err(error_within("links", e)),
        },
    }
}

proof fn lemma_lookup_push_new(e: Seq<(String, Json)>, x: (String, Json))
    requires
        lookup(e, x.0@) is None,
    ensures
        lookup(e.push(x), x.0@) == Some(x.1),
    decreases e.len(),
{
    if e.len() > 0 {
        assert(e.push(x)[0] == e[0]);
        assert(e.push(x).drop_first() =~= e.drop_first().push(x));
        lemma_lookup_push_new(e.drop_first(), x);
    } else {
        assert(e.push(x)[0] == x);
    }
}

proof fn lemma_key_names()
    ensures
        "id"@ != "type"@,
        "id"@ != "relationships"@,
        "id"@ != "links"@,
        "id"@ != "attributes"@,
        "relationships"@ != "type"@,
        "relationships"@ != "links"@,
        "relationships"@ != "attributes"@,
        "attributes"@ != "type"@,
        "attributes"@ != "links"@,
{
    reveal_strlit("type");
    reveal_strlit("id");
    reveal_strlit("relationships");
    reveal_strlit("links");
    reveal_strlit("attributes");
    assert("type"@.len() == 4);
    assert("id"@.len() == 2);
    assert("relationships"@.len() == 13);
    assert("links"@.len() == 5);
    assert("attributes"@.len() == 10);
}

/// Appending an entry under another key than `id` keeps what the entries encode.
proof fn lemma_push_keeps(e: Seq<(String, Json)>, x: (String, Json), k: NanoKind, id: u64)
    requires
        encodes_entries(e, k, id),
        x.0@ != "id"@,
    ensures
        encodes_entries(e.push(x), k, id),
{
    lemma_lookup_push(e, x, "id"@);
    assert(e.push(x)[0] == e[0]);
}

/// Writes the common part of a resource: the tag, the id unless it is `0`,
/// the relationships and the links when present.
fn push_head(
    e: &mut Vec<(String, Json)>,
    kind: NanoKind,
    id: u64,
    relationships: &Option<RelationInfo>,
    links: &Option<LinkInfo>,
)
    requires
        old(e)@.len() == 0,
    ensures
        encodes_entries(final(e)@, kind, id),
        head_written(final(e)@, *relationships),
        lookup(final(e)@, "attributes"@) is None,
{
    proof {
        lemma_key_names();
    }
    e.push((String::from_str("type"), Json::Str(String::from_str(kind.api_name()))));
    proof {
        assert(e@.drop_first() =~= Seq::<(String, Json)>::empty());
        assert(lookup(e@.drop_first(), "id"@) is None);
        assert(lookup(e@, "id"@) is None);
        assert(lookup(e@.drop_first(), "relationships"@) is None);
        assert(lookup(e@, "relationships"@) is None);
        assert(lookup(e@.drop_first(), "attributes"@) is None);
        assert(lookup(e@, "attributes"@) is None);
    }
    if id != 0 {
        e.push((String::from_str("id"), Json::Str(u64_text(id))));
        proof {
            let d = e@.drop_first();
            assert(d[0] == e@[1]);
            assert(d.len() == 1);
            assert(lookup(d, "id"@) == Some(e@[1].1));
            assert(lookup(e@, "id"@) == lookup(d, "id"@));
            assert(d.drop_first() =~= Seq::<(String, Json)>::empty());
            assert(lookup(d.drop_first(), "relationships"@) is None);
            assert(lookup(d.drop_first(), "attributes"@) is None);
            assert(lookup(d, "relationships"@) is None);
            assert(lookup(d, "attributes"@) is None);
            assert(lookup(e@, "relationships"@) is None);
            assert(lookup(e@, "attributes"@) is None);
        }
    }
    assert(encodes_entries(e@, kind, id));
    match relationships {
        Some(r) => {
            let ghost b = e@;
            e.push((String::from_str("relationships"), r.to_json()));
            proof {
                lemma_push_keeps(b, e@.last(), kind, id);
                assert(e@ == b.push(e@.last()));
                lemma_lookup_push_new(b, e@.last());
                lemma_lookup_push(b, e@.last(), "attributes"@);
                assert(head_written(e@, *relationships));
            }
        },
        None => {},
    }
    match links {
        Some(l) => {
            let ghost b = e@;
            e.push((String::from_str("links"), l.to_json()));
            proof {
                lemma_push_keeps(b, e@.last(), kind, id);
                assert(e@ == b.push(e@.last()));
                lemma_lookup_push(b, e@.last(), "relationships"@);
                lemma_lookup_push(b, e@.last(), "attributes"@);
                assert(head_written(b, *relationships));
                assert(head_written(e@, *relationships));
            }
        },
        None => {},
    }
}

proof fn lemma_no_key(e: Seq<(String, Json)>, key: Seq<char>)
    requires
        forall|i: int| 0 <= i < e.len() ==> #[trigger] e[i].0@ != key,
    ensures
        lookup(e, key) is None,
    decreases e.len(),
{
    if e.len() > 0 {
        assert forall|i: int| 0 <= i < e.drop_first().len() implies #[trigger] e.drop_first()[i].0@ != key by {
            assert(e.drop_first()[i] == e[i + 1]);
        }
        lemma_no_key(e.drop_first(), key);
    }
}

proof fn lemma_lookup_push(e: Seq<(String, Json)>, x: (String, Json), key: Seq<char>)
    requires
        x.0@ != key,
    ensures
        lookup(e.push(x), key) == lookup(e, key),
    decreases e.len(),
{
    if e.len() > 0 {
        assert(e.push(x)[0] == e[0]);
        assert(e.push(x).drop_first() =~= e.drop_first().push(x));
        lemma_lookup_push(e.drop_first(), x, key);
    } else {
        assert(e.push(x)[0] == x);
        assert(e.push(x).drop_first() =~= Seq::<(String, Json)>::empty());
        assert(lookup(e.push(x).drop_first(), key) is None);
        assert(lookup(e.push(x), key) == lookup(e.push(x).drop_first(), key));
    }
}

/// What every resource offers, whatever its kind.
pub trait ObjectInfo: Sized {
    /// Whether a value of this type may be of kind `k`.
    spec fn accepts_kind(k: NanoKind) -> bool;

    /// The kind of this resource.
    spec fn spec_kind(&self) -> NanoKind;

    /// The id of this resource; `0` means not yet assigned.
    spec fn spec_id(&self) -> u64;

    /// The relationships of this resource.
    spec fn spec_relationships(&self) -> Option<RelationInfo>;

    /// The links of this resource.
    spec fn spec_links(&self) -> Option<LinkInfo>;

    /// Whether `x` holds what the wire resource `j` says of its attributes.
    spec fn read_from(j: Json, x: Self) -> bool;

    /// Whether `j` is a wire resource this type reads: a kind it accepts,
    /// readable common fields and readable attributes of that kind.
    spec fn wire_ok(j: Json) -> bool;

    /// Whether `p` is the path a failed read of the wire resource `j` names.
    spec fn failed_at(j: Json, p: Seq<String>) -> bool;

    /// Whether `j` is the wire form of `x`: its relationships as
    /// [`relations_written`] says and its attributes field by field.
    spec fn written_as(j: Json, x: Self) -> bool;

    /// The kind of this resource.
    fn kind(&self) -> (r: NanoKind)
        ensures
            r == self.spec_kind(),
            Self::accepts_kind(r),
    ;

    /// The id of this resource.
    fn id(&self) -> (r: u64)
        ensures
            r == self.spec_id(),
    ;

    /// The relationships of this resource, if it has any.
    fn relationships(&self) -> (r: &Option<RelationInfo>)
        ensures
            *r == self.spec_relationships(),
    ;

    /// The links of this resource; a fetched one has at least a link to itself.
    fn links(&self) -> (r: &Option<LinkInfo>)
        ensures
            *r == self.spec_links(),
    ;

    /// Reads a wire resource. Its `type` tag must be a plural kind name this
    /// type accepts_kind, its `id` a numeral in a string, its attributes of that
    /// kind's schema.
    fn from_json(j: &Json) -> (r: Result<Self, DecodeError>)
        ensures
            r matches Ok(x) ==> tag_kind(*j) == Some(x.spec_kind()) && Self::accepts_kind(x.spec_kind())
                && wire_id(*j) == Some(x.spec_id()) && Self::read_from(*j, x),
            tag_kind(*j) is None ==> r is Err,
            Self::wire_ok(*j) <==> r is Ok,
            r matches Err(e) ==> Self::failed_at(*j, e.path@),
            tag_kind(*j) matches Some(k) && !Self::accepts_kind(k) ==> (r matches Err(e) && e.cause
                == DecodeCause::WrongKind),
    ;

    /// Writes this resource as the wire expects it.
    fn to_json(&self) -> (r: Json)
        ensures
            encodes(r, self.spec_kind(), self.spec_id()),
            Self::written_as(r, *self),
    ;
}

/// A resource of kind Badge.
#[derive(Clone, Debug, PartialEq)]
pub struct BadgeObject {
    pub id: u64,
    pub relationships: Option<RelationInfo>,
    pub links: Option<LinkInfo>,
    pub attributes: BadgeData,
}

impl BadgeObject {
    /// Reads the fields of a resource whose tag has been checked.
    fn from_fields(o: &Vec<(String, Json)>) -> (r: Result<BadgeObject, DecodeError>)
        ensures
            r matches Ok(x) ==> (lookup(o@, "id"@) matches Some(i) && json_str_u64(i) == Some(x.id)),
            r matches Ok(x) ==> BadgeObject::read_from(Json::Object(*o), x),
            BadgeObject::wire_ok(Json::Object(*o)) ==> r is Ok,
            r is Ok ==> (tag_kind_of(o@) == Some(NanoKind::Badge) ==> BadgeObject::wire_ok(Json::Object(*o))),
            tag_kind_of(o@) == Some(NanoKind::Badge) ==> (r matches Err(e) ==> BadgeObject::failed_at(Json::Object(*o), e.path@)),
    {
        let id = field_str_u64(o, "id")?;
        let relationships = opt_relationships(o)?;
        let links = opt_links(o)?;
        let attributes = match get_field(o, "attributes") {
            Some(a) => match BadgeData::from_json(a) {
                Ok(x) => x,
                Err(e) => {
                    return Err(error_within("attributes", e));
                },
            },
            None => {
                return Err(error_at("attributes", DecodeCause::MissingField));
            },
        };
        Ok(BadgeObject { id, relationships, links, attributes })
    }
}

impl ObjectInfo for BadgeObject {
    open spec fn accepts_kind(k: NanoKind) -> bool {
        k == NanoKind::Badge
    }

    open spec fn spec_kind(&self) -> NanoKind {
        NanoKind::Badge
    }

    open spec fn spec_id(&self) -> u64 {
        self.id
    }

    open spec fn spec_relationships(&self) -> Option<RelationInfo> {
        self.relationships
    }

    open spec fn spec_links(&self) -> Option<LinkInfo> {
        self.links
    }

    open spec fn wire_ok(j: Json) -> bool {
        resource_ok(j, NanoKind::Badge) && (j matches Json::Object(e) && (lookup(e@, "attributes"@) matches Some(
            a,
        ) && badge_data_wire_ok(a)))
    }

    open spec fn failed_at(j: Json, p: Seq<String>) -> bool {
        resource_failed_at(j, NanoKind::Badge, p, |q: Seq<String>| match j { Json::Object(e) => match lookup(e@, "attributes"@) { Some(Json::Object(a)) => q.len() == 2 && badge_data_error_at(a@, q[1]@), _ => q.len() == 1 }, _ => true })
    }

    open spec fn written_as(j: Json, x: BadgeObject) -> bool {
        j matches Json::Object(e) && head_written(e@, x.relationships) && (lookup(e@, "attributes"@) matches Some(
            a,
        ) && (a matches Json::Object(ae) && badge_data_written_as(ae@, x.attributes)))
    }

    open spec fn read_from(j: Json, x: BadgeObject) -> bool {
        match j {
            Json::Object(e) => relationships_read(e@, x.relationships) && links_read(e@, x.links) && (lookup(
                e@,
                "attributes"@,
            ) matches Some(Json::Object(a)) && badge_data_read_from(a@, x.attributes)),
            _ => false,
        }
    }

    fn kind(&self) -> (r: NanoKind) {
        NanoKind::Badge
    }

    fn id(&self) -> (r: u64) {
        self.id
    }

    fn relationships(&self) -> (r: &Option<RelationInfo>) {
        &self.relationships
    }

    fn links(&self) -> (r: &Option<LinkInfo>) {
        &self.links
    }

    fn from_json(j: &Json) -> (r: Result<BadgeObject, DecodeError>) {
        match j {
            Json::Object(o) => {
                let kind = field_tag(o)?;
                if kind != NanoKind::Badge {
                    return Err(error_at("type", DecodeCause::WrongKind));
                }
                BadgeObject::from_fields(o)
            },
            _ => Err(not_an_object()),
        }
    }

    fn to_json(&self) -> (r: Json) {
        let mut e: Vec<(String, Json)> = Vec::new();
        push_head(&mut e, NanoKind::Badge, self.id, &self.relationships, &self.links);
        let ghost before = e@;
        e.push((String::from_str("attributes"), self.attributes.to_json()));
        proof {
            lemma_key_names();
            lemma_push_keeps(before, e@.last(), NanoKind::Badge, self.id);
            assert(e@ == before.push(e@.last()));
            lemma_lookup_push(before, e@.last(), "relationships"@);
            lemma_lookup_push_new(before, e@.last());
        }
        Json::Object(e)
    }
}

/// A resource of kind Challenge.
#[derive(Clone, Debug, PartialEq)]
pub struct ChallengeObject {
    pub id: u64,
    pub relationships: Option<RelationInfo>,
    pub links: Option<LinkInfo>,
    pub attributes: ChallengeData,
}

impl ChallengeObject {
    /// Reads the fields of a resource whose tag has been checked.
    fn from_fields(o: &Vec<(String, Json)>) -> (r: Result<ChallengeObject, DecodeError>)
        ensures
            r matches Ok(x) ==> (lookup(o@, "id"@) matches Some(i) && json_str_u64(i) == Some(x.id)),
            r matches Ok(x) ==> ChallengeObject::read_from(Json::Object(*o), x),
            ChallengeObject::wire_ok(Json::Object(*o)) ==> r is Ok,
            r is Ok ==> (tag_kind_of(o@) == Some(NanoKind::Challenge) ==> ChallengeObject::wire_ok(Json::Object(*o))),
            tag_kind_of(o@) == Some(NanoKind::Challenge) ==> (r matches Err(e) ==> ChallengeObject::failed_at(Json::Object(*o), e.path@)),
    {
        let id = field_str_u64(o, "id")?;
        let relationships = opt_relationships(o)?;
        let links = opt_links(o)?;
        let attributes = match get_field(o, "attributes") {
            Some(a) => match ChallengeData::from_json(a) {
                Ok(x) => x,
                Err(e) => {
                    return Err(error_within("attributes", e));
                },
            },
            None => {
                return Err(error_at("attributes", DecodeCause::MissingField));
            },
        };
        Ok(ChallengeObject { id, relationships, links, attributes })
    }
}

impl ObjectInfo for ChallengeObject {
    open spec fn accepts_kind(k: NanoKind) -> bool {
        k == NanoKind::Challenge
    }

    open spec fn spec_kind(&self) -> NanoKind {
        NanoKind::Challenge
    }

    open spec fn spec_id(&self) -> u64 {
        self.id
    }

    open spec fn spec_relationships(&self) -> Option<RelationInfo> {
        self.relationships
    }

    open spec fn spec_links(&self) -> Option<LinkInfo> {
        self.links
    }

    open spec fn wire_ok(j: Json) -> bool {
        resource_ok(j, NanoKind::Challenge) && (j matches Json::Object(e) && (lookup(e@, "attributes"@) matches Some(
            a,
        ) && challenge_data_wire_ok(a)))
    }

    open spec fn failed_at(j: Json, p: Seq<String>) -> bool {
        resource_failed_at(j, NanoKind::Challenge, p, |q: Seq<String>| match j { Json::Object(e) => match lookup(e@, "attributes"@) { Some(Json::Object(a)) => q.len() == 2 && challenge_data_error_at(a@, q[1]@), _ => q.len() == 1 }, _ => true })
    }

    open spec fn written_as(j: Json, x: ChallengeObject) -> bool {
        j matches Json::Object(e) && head_written(e@, x.relationships) && (lookup(e@, "attributes"@) matches Some(
            a,
        ) && (a matches Json::Object(ae) && challenge_data_written_as(ae@, x.attributes)))
    }

    open spec fn read_from(j: Json, x: ChallengeObject) -> bool {
        match j {
            Json::Object(e) => relationships_read(e@, x.relationships) && links_read(e@, x.links) && (lookup(
                e@,
                "attributes"@,
            ) matches Some(Json::Object(a)) && challenge_data_read_from(a@, x.attributes)),
            _ => false,
        }
    }

    fn kind(&self) -> (r: NanoKind) {
        NanoKind::Challenge
    }

    fn id(&self) -> (r: u64) {
        self.id
    }

    fn relationships(&self) -> (r: &Option<RelationInfo>) {
        &self.relationships
    }

    fn links(&self) -> (r: &Option<LinkInfo>) {
        &self.links
    }

    fn from_json(j: &Json) -> (r: Result<ChallengeObject, DecodeError>) {
        match j {
            Json::Object(o) => {
                let kind = field_tag(o)?;
                if kind != NanoKind::Challenge {
                    return Err(error_at("type", DecodeCause::WrongKind));
                }
                ChallengeObject::from_fields(o)
            },
            _ => Err(not_an_object()),
        }
    }

    fn to_json(&self) -> (r: Json) {
        let mut e: Vec<(String, Json)> = Vec::new();
        push_head(&mut e, NanoKind::Challenge, self.id, &self.relationships, &self.links);
        let ghost before = e@;
        e.push((String::from_str("attributes"), self.attributes.to_json()));
        proof {
            lemma_key_names();
            lemma_push_keeps(before, e@.last(), NanoKind::Challenge, self.id);
            assert(e@ == before.push(e@.last()));
            lemma_lookup_push(before, e@.last(), "relationships"@);
            lemma_lookup_push_new(before, e@.last());
        }
        Json::Object(e)
    }
}

/// A resource of kind DailyAggregate.
#[derive(Clone, Debug, PartialEq)]
pub struct DailyAggregateObject {
    pub id: u64,
    pub relationships: Option<RelationInfo>,
    pub links: Option<LinkInfo>,
    pub attributes: DailyAggregateData,
}

impl DailyAggregateObject {
    /// Reads the fields of a resource whose tag has been checked.
    fn from_fields(o: &Vec<(String, Json)>) -> (r: Result<DailyAggregateObject, DecodeError>)
        ensures
            r matches Ok(x) ==> (lookup(o@, "id"@) matches Some(i) && json_str_u64(i) == Some(x.id)),
            r matches Ok(x) ==> DailyAggregateObject::read_from(Json::Object(*o), x),
            DailyAggregateObject::wire_ok(Json::Object(*o)) ==> r is Ok,
            r is Ok ==> (tag_kind_of(o@) == Some(NanoKind::DailyAggregate) ==> DailyAggregateObject::wire_ok(Json::Object(*o))),
            tag_kind_of(o@) == Some(NanoKind::DailyAggregate) ==> (r matches Err(e) ==> DailyAggregateObject::failed_at(Json::Object(*o), e.path@)),
    {
        let id = field_str_u64(o, "id")?;
        let relationships = opt_relationships(o)?;
        let links = opt_links(o)?;
        let attributes = match get_field(o, "attributes") {
            Some(a) => match DailyAggregateData::from_json(a) {
                Ok(x) => x,
                Err(e) => {
                    return Err(error_within("attributes", e));
                },
            },
            None => {
                return Err(error_at("attributes", DecodeCause::MissingField));
            },
        };
        Ok(DailyAggregateObject { id, relationships, links, attributes })
    }
}

impl ObjectInfo for DailyAggregateObject {
    open spec fn accepts_kind(k: NanoKind) -> bool {
        k == NanoKind::DailyAggregate
    }

    open spec fn spec_kind(&self) -> NanoKind {
        NanoKind::DailyAggregate
    }

    open spec fn spec_id(&self) -> u64 {
        self.id
    }

    open spec fn spec_relationships(&self) -> Option<RelationInfo> {
        self.relationships
    }

    open spec fn spec_links(&self) -> Option<LinkInfo> {
        self.links
    }

    open spec fn wire_ok(j: Json) -> bool {
        resource_ok(j, NanoKind::DailyAggregate) && (j matches Json::Object(e) && (lookup(e@, "attributes"@) matches Some(
            a,
        ) && daily_aggregate_data_wire_ok(a)))
    }

    open spec fn failed_at(j: Json, p: Seq<String>) -> bool {
        resource_failed_at(j, NanoKind::DailyAggregate, p, |q: Seq<String>| match j { Json::Object(e) => match lookup(e@, "attributes"@) { Some(Json::Object(a)) => q.len() == 2 && daily_aggregate_data_error_at(a@, q[1]@), _ => q.len() == 1 }, _ => true })
    }

    open spec fn written_as(j: Json, x: DailyAggregateObject) -> bool {
        j matches Json::Object(e) && head_written(e@, x.relationships) && (lookup(e@, "attributes"@) matches Some(
            a,
        ) && (a matches Json::Object(ae) && daily_aggregate_data_written_as(ae@, x.attributes)))
    }

    open spec fn read_from(j: Json, x: DailyAggregateObject) -> bool {
        match j {
            Json::Object(e) => relationships_read(e@, x.relationships) && links_read(e@, x.links) && (lookup(
                e@,
                "attributes"@,
            ) matches Some(Json::Object(a)) && daily_aggregate_data_read_from(a@, x.attributes)),
            _ => false,
        }
    }

    fn kind(&self) -> (r: NanoKind) {
        NanoKind::DailyAggregate
    }

    fn id(&self) -> (r: u64) {
        self.id
    }

    fn relationships(&self) -> (r: &Option<RelationInfo>) {
        &self.relationships
    }

    fn links(&self) -> (r: &Option<LinkInfo>) {
        &self.links
    }

    fn from_json(j: &Json) -> (r: Result<DailyAggregateObject, DecodeError>) {
        match j {
            Json::Object(o) => {
                let kind = field_tag(o)?;
                if kind != NanoKind::DailyAggregate {
                    return Err(error_at("type", DecodeCause::WrongKind));
                }
                DailyAggregateObject::from_fields(o)
            },
            _ => Err(not_an_object()),
        }
    }

    fn to_json(&self) -> (r: Json) {
        let mut e: Vec<(String, Json)> = Vec::new();
        push_head(&mut e, NanoKind::DailyAggregate, self.id, &self.relationships, &self.links);
        let ghost before = e@;
        e.push((String::from_str("attributes"), self.attributes.to_json()));
        proof {
            lemma_key_names();
            lemma_push_keeps(before, e@.last(), NanoKind::DailyAggregate, self.id);
            assert(e@ == before.push(e@.last()));
            lemma_lookup_push(before, e@.last(), "relationships"@);
            lemma_lookup_push_new(before, e@.last());
        }
        Json::Object(e)
    }
}

/// A resource of kind FavoriteAuthor.
#[derive(Clone, Debug, PartialEq)]
pub struct FavoriteAuthorObject {
    pub id: u64,
    pub relationships: Option<RelationInfo>,
    pub links: Option<LinkInfo>,
    pub attributes: FavoriteAuthorData,
}

impl FavoriteAuthorObject {
    /// Reads the fields of a resource whose tag has been checked.
    fn from_fields(o: &Vec<(String, Json)>) -> (r: Result<FavoriteAuthorObject, DecodeError>)
        ensures
            r matches Ok(x) ==> (lookup(o@, "id"@) matches Some(i) && json_str_u64(i) == Some(x.id)),
            r matches Ok(x) ==> FavoriteAuthorObject::read_from(Json::Object(*o), x),
            FavoriteAuthorObject::wire_ok(Json::Object(*o)) ==> r is Ok,
            r is Ok ==> (tag_kind_of(o@) == Some(NanoKind::FavoriteAuthor) ==> FavoriteAuthorObject::wire_ok(Json::Object(*o))),
            tag_kind_of(o@) == Some(NanoKind::FavoriteAuthor) ==> (r matches Err(e) ==> FavoriteAuthorObject::failed_at(Json::Object(*o), e.path@)),
    {
        let id = field_str_u64(o, "id")?;
        let relationships = opt_relationships(o)?;
        let links = opt_links(o)?;
        let attributes = match get_field(o, "attributes") {
            Some(a) => match FavoriteAuthorData::from_json(a) {
                Ok(x) => x,
                Err(e) => {
                    return Err(error_within("attributes", e));
                },
            },
            None => {
                return Err(error_at("attributes", DecodeCause::MissingField));
            },
        };
        Ok(FavoriteAuthorObject { id, relationships, links, attributes })
    }
}

impl ObjectInfo for FavoriteAuthorObject {
    open spec fn accepts_kind(k: NanoKind) -> bool {
        k == NanoKind::FavoriteAuthor
    }

    open spec fn spec_kind(&self) -> NanoKind {
        NanoKind::FavoriteAuthor
    }

    open spec fn spec_id(&self) -> u64 {
        self.id
    }

    open spec fn spec_relationships(&self) -> Option<RelationInfo> {
        self.relationships
    }

    open spec fn spec_links(&self) -> Option<LinkInfo> {
        self.links
    }

    open spec fn wire_ok(j: Json) -> bool {
        resource_ok(j, NanoKind::FavoriteAuthor) && (j matches Json::Object(e) && (lookup(e@, "attributes"@) matches Some(
            a,
        ) && favorite_author_data_wire_ok(a)))
    }

    open spec fn failed_at(j: Json, p: Seq<String>) -> bool {
        resource_failed_at(j, NanoKind::FavoriteAuthor, p, |q: Seq<String>| match j { Json::Object(e) => match lookup(e@, "attributes"@) { Some(Json::Object(a)) => q.len() == 2 && favorite_author_data_error_at(a@, q[1]@), _ => q.len() == 1 }, _ => true })
    }

    open spec fn written_as(j: Json, x: FavoriteAuthorObject) -> bool {
        j matches Json::Object(e) && head_written(e@, x.relationships) && (lookup(e@, "attributes"@) matches Some(
            a,
        ) && (a matches Json::Object(ae) && favorite_author_data_written_as(ae@, x.attributes)))
    }

    open spec fn read_from(j: Json, x: FavoriteAuthorObject) -> bool {
        match j {
            Json::Object(e) => relationships_read(e@, x.relationships) && links_read(e@, x.links) && (lookup(
                e@,
                "attributes"@,
            ) matches Some(Json::Object(a)) && favorite_author_data_read_from(a@, x.attributes)),
            _ => false,
        }
    }

    fn kind(&self) -> (r: NanoKind) {
        NanoKind::FavoriteAuthor
    }

    fn id(&self) -> (r: u64) {
        self.id
    }

    fn relationships(&self) -> (r: &Option<RelationInfo>) {
        &self.relationships
    }

    fn links(&self) -> (r: &Option<LinkInfo>) {
        &self.links
    }

    fn from_json(j: &Json) -> (r: Result<FavoriteAuthorObject, DecodeError>) {
        match j {
            Json::Object(o) => {
                let kind = field_tag(o)?;
                if kind != NanoKind::FavoriteAuthor {
                    return Err(error_at("type", DecodeCause::WrongKind));
                }
                FavoriteAuthorObject::from_fields(o)
            },
            _ => Err(not_an_object()),
        }
    }

    fn to_json(&self) -> (r: Json) {
        let mut e: Vec<(String, Json)> = Vec::new();
        push_head(&mut e, NanoKind::FavoriteAuthor, self.id, &self.relationships, &self.links);
        let ghost before = e@;
        e.push((String::from_str("attributes"), self.attributes.to_json()));
        proof {
            lemma_key_names();
            lemma_push_keeps(before, e@.last(), NanoKind::FavoriteAuthor, self.id);
            assert(e@ == before.push(e@.last()));
            lemma_lookup_push(before, e@.last(), "relationships"@);
            lemma_lookup_push_new(before, e@.last());
        }
        Json::Object(e)
    }
}

/// A resource of kind FavoriteBook.
#[derive(Clone, Debug, PartialEq)]
pub struct FavoriteBookObject {
    pub id: u64,
    pub relationships: Option<RelationInfo>,
    pub links: Option<LinkInfo>,
    pub attributes: FavoriteBookData,
}

impl FavoriteBookObject {
    /// Reads the fields of a resource whose tag has been checked.
    fn from_fields(o: &Vec<(String, Json)>) -> (r: Result<FavoriteBookObject, DecodeError>)
        ensures
            r matches Ok(x) ==> (lookup(o@, "id"@) matches Some(i) && json_str_u64(i) == Some(x.id)),
            r matches Ok(x) ==> FavoriteBookObject::read_from(Json::Object(*o), x),
            FavoriteBookObject::wire_ok(Json::Object(*o)) ==> r is Ok,
            r is Ok ==> (tag_kind_of(o@) == Some(NanoKind::FavoriteBook) ==> FavoriteBookObject::wire_ok(Json::Object(*o))),
            tag_kind_of(o@) == Some(NanoKind::FavoriteBook) ==> (r matches Err(e) ==> FavoriteBookObject::failed_at(Json::Object(*o), e.path@)),
    {
        let id = field_str_u64(o, "id")?;
        let relationships = opt_relationships(o)?;
        let links = opt_links(o)?;
        let attributes = match get_field(o, "attributes") {
            Some(a) => match FavoriteBookData::from_json(a) {
                Ok(x) => x,
                Err(e) => {
                    return Err(error_within("attributes", e));
                },
            },
            None => {
                return Err(error_at("attributes", DecodeCause::MissingField));
            },
        };
        Ok(FavoriteBookObject { id, relationships, links, attributes })
    }
}

impl ObjectInfo for FavoriteBookObject {
    open spec fn accepts_kind(k: NanoKind) -> bool {
        k == NanoKind::FavoriteBook
    }

    open spec fn spec_kind(&self) -> NanoKind {
        NanoKind::FavoriteBook
    }

    open spec fn spec_id(&self) -> u64 {
        self.id
    }

    open spec fn spec_relationships(&self) -> Option<RelationInfo> {
        self.relationships
    }

    open spec fn spec_links(&self) -> Option<LinkInfo> {
        self.links
    }

    open spec fn wire_ok(j: Json) -> bool {
        resource_ok(j, NanoKind::FavoriteBook) && (j matches Json::Object(e) && (lookup(e@, "attributes"@) matches Some(
            a,
        ) && favorite_book_data_wire_ok(a)))
    }

    open spec fn failed_at(j: Json, p: Seq<String>) -> bool {
        resource_failed_at(j, NanoKind::FavoriteBook, p, |q: Seq<String>| match j { Json::Object(e) => match lookup(e@, "attributes"@) { Some(Json::Object(a)) => q.len() == 2 && favorite_book_data_error_at(a@, q[1]@), _ => q.len() == 1 }, _ => true })
    }

    open spec fn written_as(j: Json, x: FavoriteBookObject) -> bool {
        j matches Json::Object(e) && head_written(e@, x.relationships) && (lookup(e@, "attributes"@) matches Some(
            a,
        ) && (a matches Json::Object(ae) && favorite_book_data_written_as(ae@, x.attributes)))
    }

    open spec fn read_from(j: Json, x: FavoriteBookObject) -> bool {
        match j {
            Json::Object(e) => relationships_read(e@, x.relationships) && links_read(e@, x.links) && (lookup(
                e@,
                "attributes"@,
            ) matches Some(Json::Object(a)) && favorite_book_data_read_from(a@, x.attributes)),
            _ => false,
        }
    }

    fn kind(&self) -> (r: NanoKind) {
        NanoKind::FavoriteBook
    }

    fn id(&self) -> (r: u64) {
        self.id
    }

    fn relationships(&self) -> (r: &Option<RelationInfo>) {
        &self.relationships
    }

    fn links(&self) -> (r: &Option<LinkInfo>) {
        &self.links
    }

    fn from_json(j: &Json) -> (r: Result<FavoriteBookObject, DecodeError>) {
        match j {
            Json::Object(o) => {
                let kind = field_tag(o)?;
                if kind != NanoKind::FavoriteBook {
                    return Err(error_at("type", DecodeCause::WrongKind));
                }
                FavoriteBookObject::from_fields(o)
            },
            _ => Err(not_an_object()),
        }
    }

    fn to_json(&self) -> (r: Json) {
        let mut e: Vec<(String, Json)> = Vec::new();
        push_head(&mut e, NanoKind::FavoriteBook, self.id, &self.relationships, &self.links);
        let ghost before = e@;
        e.push((String::from_str("attributes"), self.attributes.to_json()));
        proof {
            lemma_key_names();
            lemma_push_keeps(before, e@.last(), NanoKind::FavoriteBook, self.id);
            assert(e@ == before.push(e@.last()));
            lemma_lookup_push(before, e@.last(), "relationships"@);
            lemma_lookup_push_new(before, e@.last());
        }
        Json::Object(e)
    }
}

/// A resource of kind Genre.
#[derive(Clone, Debug, PartialEq)]
pub struct GenreObject {
    pub id: u64,
    pub relationships: Option<RelationInfo>,
    pub links: Option<LinkInfo>,
    pub attributes: GenreData,
}

impl GenreObject {
    /// Reads the fields of a resource whose tag has been checked.
    fn from_fields(o: &Vec<(String, Json)>) -> (r: Result<GenreObject, DecodeError>)
        ensures
            r matches Ok(x) ==> (lookup(o@, "id"@) matches Some(i) && json_str_u64(i) == Some(x.id)),
            r matches Ok(x) ==> GenreObject::read_from(Json::Object(*o), x),
            GenreObject::wire_ok(Json::Object(*o)) ==> r is Ok,
            r is Ok ==> (tag_kind_of(o@) == Some(NanoKind::Genre) ==> GenreObject::wire_ok(Json::Object(*o))),
            tag_kind_of(o@) == Some(NanoKind::Genre) ==> (r matches Err(e) ==> GenreObject::failed_at(Json::Object(*o), e.path@)),
    {
        let id = field_str_u64(o, "id")?;
        let relationships = opt_relationships(o)?;
        let links = opt_links(o)?;
        let attributes = match get_field(o, "attributes") {
            Some(a) => match GenreData::from_json(a) {
                Ok(x) => x,
                Err(e) => {
                    return Err(error_within("attributes", e));
                },
            },
            None => {
                return Err(error_at("attributes", DecodeCause::MissingField));
            },
        };
        Ok(GenreObject { id, relationships, links, attributes })
    }
}

impl ObjectInfo for GenreObject {
    open spec fn accepts_kind(k: NanoKind) -> bool {
        k == NanoKind::Genre
    }

    open spec fn spec_kind(&self) -> NanoKind {
        NanoKind::Genre
    }

    open spec fn spec_id(&self) -> u64 {
        self.id
    }

    open spec fn spec_relationships(&self) -> Option<RelationInfo> {
        self.relationships
    }

    open spec fn spec_links(&self) -> Option<LinkInfo> {
        self.links
    }

    open spec fn wire_ok(j: Json) -> bool {
        resource_ok(j, NanoKind::Genre) && (j matches Json::Object(e) && (lookup(e@, "attributes"@) matches Some(
            a,
        ) && genre_data_wire_ok(a)))
    }

    open spec fn failed_at(j: Json, p: Seq<String>) -> bool {
        resource_failed_at(j, NanoKind::Genre, p, |q: Seq<String>| match j { Json::Object(e) => match lookup(e@, "attributes"@) { Some(Json::Object(a)) => q.len() == 2 && genre_data_error_at(a@, q[1]@), _ => q.len() == 1 }, _ => true })
    }

    open spec fn written_as(j: Json, x: GenreObject) -> bool {
        j matches Json::Object(e) && head_written(e@, x.relationships) && (lookup(e@, "attributes"@) matches Some(
            a,
        ) && (a matches Json::Object(ae) && genre_data_written_as(ae@, x.attributes)))
    }

    open spec fn read_from(j: Json, x: GenreObject) -> bool {
        match j {
            Json::Object(e) => relationships_read(e@, x.relationships) && links_read(e@, x.links) && (lookup(
                e@,
                "attributes"@,
            ) matches Some(Json::Object(a)) && genre_data_read_from(a@, x.attributes)),
            _ => false,
        }
    }

    fn kind(&self) -> (r: NanoKind) {
        NanoKind::Genre
    }

    fn id(&self) -> (r: u64) {
        self.id
    }

    fn relationships(&self) -> (r: &Option<RelationInfo>) {
        &self.relationships
    }

    fn links(&self) -> (r: &Option<LinkInfo>) {
        &self.links
    }

    fn from_json(j: &Json) -> (r: Result<GenreObject, DecodeError>) {
        match j {
            Json::Object(o) => {
                let kind = field_tag(o)?;
                if kind != NanoKind::Genre {
                    return Err(error_at("type", DecodeCause::WrongKind));
                }
                GenreObject::from_fields(o)
            },
            _ => Err(not_an_object()),
        }
    }

    fn to_json(&self) -> (r: Json) {
        let mut e: Vec<(String, Json)> = Vec::new();
        push_head(&mut e, NanoKind::Genre, self.id, &self.relationships, &self.links);
        let ghost before = e@;
        e.push((String::from_str("attributes"), self.attributes.to_json()));
        proof {
            lemma_key_names();
            lemma_push_keeps(before, e@.last(), NanoKind::Genre, self.id);
            assert(e@ == before.push(e@.last()));
            lemma_lookup_push(before, e@.last(), "relationships"@);
            lemma_lookup_push_new(before, e@.last());
        }
        Json::Object(e)
    }
}

/// A resource of kind Group.
#[derive(Clone, Debug, PartialEq)]
pub struct GroupObject {
    pub id: u64,
    pub relationships: Option<RelationInfo>,
    pub links: Option<LinkInfo>,
    pub attributes: GroupData,
}

impl GroupObject {
    /// Reads the fields of a resource whose tag has been checked.
    fn from_fields(o: &Vec<(String, Json)>) -> (r: Result<GroupObject, DecodeError>)
        ensures
            r matches Ok(x) ==> (lookup(o@, "id"@) matches Some(i) && json_str_u64(i) == Some(x.id)),
            r matches Ok(x) ==> GroupObject::read_from(Json::Object(*o), x),
            GroupObject::wire_ok(Json::Object(*o)) ==> r is Ok,
            r is Ok ==> (tag_kind_of(o@) == Some(NanoKind::Group) ==> GroupObject::wire_ok(Json::Object(*o))),
            tag_kind_of(o@) == Some(NanoKind::Group) ==> (r matches Err(e) ==> GroupObject::failed_at(Json::Object(*o), e.path@)),
    {
        let id = field_str_u64(o, "id")?;
        let relationships = opt_relationships(o)?;
        let links = opt_links(o)?;
        let attributes = match get_field(o, "attributes") {
            Some(a) => match GroupData::from_json(a) {
                Ok(x) => x,
                Err(e) => {
                    return Err(error_within("attributes", e));
                },
            },
            None => {
                return Err(error_at("attributes", DecodeCause::MissingField));
            },
        };
        Ok(GroupObject { id, relationships, links, attributes })
    }
}

impl ObjectInfo for GroupObject {
    open spec fn accepts_kind(k: NanoKind) -> bool {
        k == NanoKind::Group
    }

    open spec fn spec_kind(&self) -> NanoKind {
        NanoKind::Group
    }

    open spec fn spec_id(&self) -> u64 {
        self.id
    }

    open spec fn spec_relationships(&self) -> Option<RelationInfo> {
        self.relationships
    }

    open spec fn spec_links(&self) -> Option<LinkInfo> {
        self.links
    }

    open spec fn wire_ok(j: Json) -> bool {
        resource_ok(j, NanoKind::Group) && (j matches Json::Object(e) && (lookup(e@, "attributes"@) matches Some(
            a,
        ) && group_data_wire_ok(a)))
    }

    open spec fn failed_at(j: Json, p: Seq<String>) -> bool {
        resource_failed_at(j, NanoKind::Group, p, |q: Seq<String>| match j { Json::Object(e) => match lookup(e@, "attributes"@) { Some(Json::Object(a)) => q.len() == 2 && group_data_error_at(a@, q[1]@), _ => q.len() == 1 }, _ => true })
    }

    open spec fn written_as(j: Json, x: GroupObject) -> bool {
        j matches Json::Object(e) && head_written(e@, x.relationships) && (lookup(e@, "attributes"@) matches Some(
            a,
        ) && (a matches Json::Object(ae) && group_data_written_as(ae@, x.attributes)))
    }

    open spec fn read_from(j: Json, x: GroupObject) -> bool {
        match j {
            Json::Object(e) => relationships_read(e@, x.relationships) && links_read(e@, x.links) && (lookup(
                e@,
                "attributes"@,
            ) matches Some(Json::Object(a)) && group_data_read_from(a@, x.attributes)),
            _ => false,
        }
    }

    fn kind(&self) -> (r: NanoKind) {
        NanoKind::Group
    }

    fn id(&self) -> (r: u64) {
        self.id
    }

    fn relationships(&self) -> (r: &Option<RelationInfo>) {
        &self.relationships
    }

    fn links(&self) -> (r: &Option<LinkInfo>) {
        &self.links
    }

    fn from_json(j: &Json) -> (r: Result<GroupObject, DecodeError>) {
        match j {
            Json::Object(o) => {
                let kind = field_tag(o)?;
                if kind != NanoKind::Group {
                    return Err(error_at("type", DecodeCause::WrongKind));
                }
                GroupObject::from_fields(o)
            },
            _ => Err(not_an_object()),
        }
    }

    fn to_json(&self) -> (r: Json) {
        let mut e: Vec<(String, Json)> = Vec::new();
        push_head(&mut e, NanoKind::Group, self.id, &self.relationships, &self.links);
        let ghost before = e@;
        e.push((String::from_str("attributes"), self.attributes.to_json()));
        proof {
            lemma_key_names();
            lemma_push_keeps(before, e@.last(), NanoKind::Group, self.id);
            assert(e@ == before.push(e@.last()));
            lemma_lookup_push(before, e@.last(), "relationships"@);
            lemma_lookup_push_new(before, e@.last());
        }
        Json::Object(e)
    }
}

/// A resource of kind GroupExternalLink.
#[derive(Clone, Debug, PartialEq)]
pub struct GroupExternalLinkObject {
    pub id: u64,
    pub relationships: Option<RelationInfo>,
    pub links: Option<LinkInfo>,
    pub attributes: GroupExternalLinkData,
}

impl GroupExternalLinkObject {
    /// Reads the fields of a resource whose tag has been checked.
    fn from_fields(o: &Vec<(String, Json)>) -> (r: Result<GroupExternalLinkObject, DecodeError>)
        ensures
            r matches Ok(x) ==> (lookup(o@, "id"@) matches Some(i) && json_str_u64(i) == Some(x.id)),
            r matches Ok(x) ==> GroupExternalLinkObject::read_from(Json::Object(*o), x),
            GroupExternalLinkObject::wire_ok(Json::Object(*o)) ==> r is Ok,
            r is Ok ==> (tag_kind_of(o@) == Some(NanoKind::GroupExternalLink) ==> GroupExternalLinkObject::wire_ok(Json::Object(*o))),
            tag_kind_of(o@) == Some(NanoKind::GroupExternalLink) ==> (r matches Err(e) ==> GroupExternalLinkObject::failed_at(Json::Object(*o), e.path@)),
    {
        let id = field_str_u64(o, "id")?;
        let relationships = opt_relationships(o)?;
        let links = opt_links(o)?;
        let attributes = match get_field(o, "attributes") {
            Some(a) => match GroupExternalLinkData::from_json(a) {
                Ok(x) => x,
                Err(e) => {
                    return Err(error_within("attributes", e));
                },
            },
            None => {
                return Err(error_at("attributes", DecodeCause::MissingField));
            },
        };
        Ok(GroupExternalLinkObject { id, relationships, links, attributes })
    }
}

impl ObjectInfo for GroupExternalLinkObject {
    open spec fn accepts_kind(k: NanoKind) -> bool {
        k == NanoKind::GroupExternalLink
    }

    open spec fn spec_kind(&self) -> NanoKind {
        NanoKind::GroupExternalLink
    }

    open spec fn spec_id(&self) -> u64 {
        self.id
    }

    open spec fn spec_relationships(&self) -> Option<RelationInfo> {
        self.relationships
    }

    open spec fn spec_links(&self) -> Option<LinkInfo> {
        self.links
    }

    open spec fn wire_ok(j: Json) -> bool {
        resource_ok(j, NanoKind::GroupExternalLink) && (j matches Json::Object(e) && (lookup(e@, "attributes"@) matches Some(
            a,
        ) && group_external_link_data_wire_ok(a)))
    }

    open spec fn failed_at(j: Json, p: Seq<String>) -> bool {
        resource_failed_at(j, NanoKind::GroupExternalLink, p, |q: Seq<String>| match j { Json::Object(e) => match lookup(e@, "attributes"@) { Some(Json::Object(a)) => q.len() == 2 && group_external_link_data_error_at(a@, q[1]@), _ => q.len() == 1 }, _ => true })
    }

    open spec fn written_as(j: Json, x: GroupExternalLinkObject) -> bool {
        j matches Json::Object(e) && head_written(e@, x.relationships) && (lookup(e@, "attributes"@) matches Some(
            a,
        ) && (a matches Json::Object(ae) && group_external_link_data_written_as(ae@, x.attributes)))
    }

    open spec fn read_from(j: Json, x: GroupExternalLinkObject) -> bool {
        match j {
            Json::Object(e) => relationships_read(e@, x.relationships) && links_read(e@, x.links) && (lookup(
                e@,
                "attributes"@,
            ) matches Some(Json::Object(a)) && group_external_link_data_read_from(a@, x.attributes)),
            _ => false,
        }
    }

    fn kind(&self) -> (r: NanoKind) {
        NanoKind::GroupExternalLink
    }

    fn id(&self) -> (r: u64) {
        self.id
    }

    fn relationships(&self) -> (r: &Option<RelationInfo>) {
        &self.relationships
    }

    fn links(&self) -> (r: &Option<LinkInfo>) {
        &self.links
    }

    fn from_json(j: &Json) -> (r: Result<GroupExternalLinkObject, DecodeError>) {
        match j {
            Json::Object(o) => {
                let kind = field_tag(o)?;
                if kind != NanoKind::GroupExternalLink {
                    return Err(error_at("type", DecodeCause::WrongKind));
                }
                GroupExternalLinkObject::from_fields(o)
            },
            _ => Err(not_an_object()),
        }
    }

    fn to_json(&self) -> (r: Json) {
        let mut e: Vec<(String, Json)> = Vec::new();
        push_head(&mut e, NanoKind::GroupExternalLink, self.id, &self.relationships, &self.links);
        let ghost before = e@;
        e.push((String::from_str("attributes"), self.attributes.to_json()));
        proof {
            lemma_key_names();
            lemma_push_keeps(before, e@.last(), NanoKind::GroupExternalLink, self.id);
            assert(e@ == before.push(e@.last()));
            lemma_lookup_push(before, e@.last(), "relationships"@);
            lemma_lookup_push_new(before, e@.last());
        }
        Json::Object(e)
    }
}

/// A resource of kind Location.
#[derive(Clone, Debug, PartialEq)]
pub struct LocationObject {
    pub id: u64,
    pub relationships: Option<RelationInfo>,
    pub links: Option<LinkInfo>,
    pub attributes: LocationData,
}

impl LocationObject {
    /// Reads the fields of a resource whose tag has been checked.
    fn from_fields(o: &Vec<(String, Json)>) -> (r: Result<LocationObject, DecodeError>)
        ensures
            r matches Ok(x) ==> (lookup(o@, "id"@) matches Some(i) && json_str_u64(i) == Some(x.id)),
            r matches Ok(x) ==> LocationObject::read_from(Json::Object(*o), x),
            LocationObject::wire_ok(Json::Object(*o)) ==> r is Ok,
            r is Ok ==> (tag_kind_of(o@) == Some(NanoKind::Location) ==> LocationObject::wire_ok(Json::Object(*o))),
            tag_kind_of(o@) == Some(NanoKind::Location) ==> (r matches Err(e) ==> LocationObject::failed_at(Json::Object(*o), e.path@)),
    {
        let id = field_str_u64(o, "id")?;
        let relationships = opt_relationships(o)?;
        let links = opt_links(o)?;
        let attributes = match get_field(o, "attributes") {
            Some(a) => match LocationData::from_json(a) {
                Ok(x) => x,
                Err(e) => {
                    return Err(error_within("attributes", e));
                },
            },
            None => {
                return Err(error_at("attributes", DecodeCause::MissingField));
            },
        };
        Ok(LocationObject { id, relationships, links, attributes })
    }
}

impl ObjectInfo for LocationObject {
    open spec fn accepts_kind(k: NanoKind) -> bool {
        k == NanoKind::Location
    }

    open spec fn spec_kind(&self) -> NanoKind {
        NanoKind::Location
    }

    open spec fn spec_id(&self) -> u64 {
        self.id
    }

    open spec fn spec_relationships(&self) -> Option<RelationInfo> {
        self.relationships
    }

    open spec fn spec_links(&self) -> Option<LinkInfo> {
        self.links
    }

    open spec fn wire_ok(j: Json) -> bool {
        resource_ok(j, NanoKind::Location) && (j matches Json::Object(e) && (lookup(e@, "attributes"@) matches Some(
            a,
        ) && location_data_wire_ok(a)))
    }

    open spec fn failed_at(j: Json, p: Seq<String>) -> bool {
        resource_failed_at(j, NanoKind::Location, p, |q: Seq<String>| match j { Json::Object(e) => match lookup(e@, "attributes"@) { Some(Json::Object(a)) => q.len() == 2 && location_data_error_at(a@, q[1]@), _ => q.len() == 1 }, _ => true })
    }

    open spec fn written_as(j: Json, x: LocationObject) -> bool {
        j matches Json::Object(e) && head_written(e@, x.relationships) && (lookup(e@, "attributes"@) matches Some(
            a,
        ) && (a matches Json::Object(ae) && location_data_written_as(ae@, x.attributes)))
    }

    open spec fn read_from(j: Json, x: LocationObject) -> bool {
        match j {
            Json::Object(e) => relationships_read(e@, x.relationships) && links_read(e@, x.links) && (lookup(
                e@,
                "attributes"@,
            ) matches Some(Json::Object(a)) && location_data_read_from(a@, x.attributes)),
            _ => false,
        }
    }

    fn kind(&self) -> (r: NanoKind) {
        NanoKind::Location
    }

    fn id(&self) -> (r: u64) {
        self.id
    }

    fn relationships(&self) -> (r: &Option<RelationInfo>) {
        &self.relationships
    }

    fn links(&self) -> (r: &Option<LinkInfo>) {
        &self.links
    }

    fn from_json(j: &Json) -> (r: Result<LocationObject, DecodeError>) {
        match j {
            Json::Object(o) => {
                let kind = field_tag(o)?;
                if kind != NanoKind::Location {
                    return Err(error_at("type", DecodeCause::WrongKind));
                }
                LocationObject::from_fields(o)
            },
            _ => Err(not_an_object()),
        }
    }

    fn to_json(&self) -> (r: Json) {
        let mut e: Vec<(String, Json)> = Vec::new();
        push_head(&mut e, NanoKind::Location, self.id, &self.relationships, &self.links);
        let ghost before = e@;
        e.push((String::from_str("attributes"), self.attributes.to_json()));
        proof {
            lemma_key_names();
            lemma_push_keeps(before, e@.last(), NanoKind::Location, self.id);
            assert(e@ == before.push(e@.last()));
            lemma_lookup_push(before, e@.last(), "relationships"@);
            lemma_lookup_push_new(before, e@.last());
        }
        Json::Object(e)
    }
}

/// A resource of kind NanoMessage.
#[derive(Clone, Debug, PartialEq)]
pub struct NanoMessageObject {
    pub id: u64,
    pub relationships: Option<RelationInfo>,
    pub links: Option<LinkInfo>,
    pub attributes: NanoMessageData,
}

impl NanoMessageObject {
    /// Reads the fields of a resource whose tag has been checked.
    fn from_fields(o: &Vec<(String, Json)>) -> (r: Result<NanoMessageObject, DecodeError>)
        ensures
            r matches Ok(x) ==> (lookup(o@, "id"@) matches Some(i) && json_str_u64(i) == Some(x.id)),
            r matches Ok(x) ==> NanoMessageObject::read_from(Json::Object(*o), x),
            NanoMessageObject::wire_ok(Json::Object(*o)) ==> r is Ok,
            r is Ok ==> (tag_kind_of(o@) == Some(NanoKind::NanoMessage) ==> NanoMessageObject::wire_ok(Json::Object(*o))),
            tag_kind_of(o@) == Some(NanoKind::NanoMessage) ==> (r matches Err(e) ==> NanoMessageObject::failed_at(Json::Object(*o), e.path@)),
    {
        let id = field_str_u64(o, "id")?;
        let relationships = opt_relationships(o)?;
        let links = opt_links(o)?;
        let attributes = match get_field(o, "attributes") {
            Some(a) => match NanoMessageData::from_json(a) {
                Ok(x) => x,
                Err(e) => {
                    return Err(error_within("attributes", e));
                },
            },
            None => {
                return Err(error_at("attributes", DecodeCause::MissingField));
            },
        };
        Ok(NanoMessageObject { id, relationships, links, attributes })
    }
}

impl ObjectInfo for NanoMessageObject {
    open spec fn accepts_kind(k: NanoKind) -> bool {
        k == NanoKind::NanoMessage
    }

    open spec fn spec_kind(&self) -> NanoKind {
        NanoKind::NanoMessage
    }

    open spec fn spec_id(&self) -> u64 {
        self.id
    }

    open spec fn spec_relationships(&self) -> Option<RelationInfo> {
        self.relationships
    }

    open spec fn spec_links(&self) -> Option<LinkInfo> {
        self.links
    }

    open spec fn wire_ok(j: Json) -> bool {
        resource_ok(j, NanoKind::NanoMessage) && (j matches Json::Object(e) && (lookup(e@, "attributes"@) matches Some(
            a,
        ) && nano_message_data_wire_ok(a)))
    }

    open spec fn failed_at(j: Json, p: Seq<String>) -> bool {
        resource_failed_at(j, NanoKind::NanoMessage, p, |q: Seq<String>| match j { Json::Object(e) => match lookup(e@, "attributes"@) { Some(Json::Object(a)) => q.len() == 2 && nano_message_data_error_at(a@, q[1]@), _ => q.len() == 1 }, _ => true })
    }

    open spec fn written_as(j: Json, x: NanoMessageObject) -> bool {
        j matches Json::Object(e) && head_written(e@, x.relationships) && (lookup(e@, "attributes"@) matches Some(
            a,
        ) && (a matches Json::Object(ae) && nano_message_data_written_as(ae@, x.attributes)))
    }

    open spec fn read_from(j: Json, x: NanoMessageObject) -> bool {
        match j {
            Json::Object(e) => relationships_read(e@, x.relationships) && links_read(e@, x.links) && (lookup(
                e@,
                "attributes"@,
            ) matches Some(Json::Object(a)) && nano_message_data_read_from(a@, x.attributes)),
            _ => false,
        }
    }

    fn kind(&self) -> (r: NanoKind) {
        NanoKind::NanoMessage
    }

    fn id(&self) -> (r: u64) {
        self.id
    }

    fn relationships(&self) -> (r: &Option<RelationInfo>) {
        &self.relationships
    }

    fn links(&self) -> (r: &Option<LinkInfo>) {
        &self.links
    }

    fn from_json(j: &Json) -> (r: Result<NanoMessageObject, DecodeError>) {
        match j {
            Json::Object(o) => {
                let kind = field_tag(o)?;
                if kind != NanoKind::NanoMessage {
                    return Err(error_at("type", DecodeCause::WrongKind));
                }
                NanoMessageObject::from_fields(o)
            },
            _ => Err(not_an_object()),
        }
    }

    fn to_json(&self) -> (r: Json) {
        let mut e: Vec<(String, Json)> = Vec::new();
        push_head(&mut e, NanoKind::NanoMessage, self.id, &self.relationships, &self.links);
        let ghost before = e@;
        e.push((String::from_str("attributes"), self.attributes.to_json()));
        proof {
            lemma_key_names();
            lemma_push_keeps(before, e@.last(), NanoKind::NanoMessage, self.id);
            assert(e@ == before.push(e@.last()));
            lemma_lookup_push(before, e@.last(), "relationships"@);
            lemma_lookup_push_new(before, e@.last());
        }
        Json::Object(e)
    }
}

/// A resource of kind Notification.
#[derive(Clone, Debug, PartialEq)]
pub struct NotificationObject {
    pub id: u64,
    pub relationships: Option<RelationInfo>,
    pub links: Option<LinkInfo>,
    pub attributes: NotificationData,
}

impl NotificationObject {
    /// Reads the fields of a resource whose tag has been checked.
    fn from_fields(o: &Vec<(String, Json)>) -> (r: Result<NotificationObject, DecodeError>)
        ensures
            r matches Ok(x) ==> (lookup(o@, "id"@) matches Some(i) && json_str_u64(i) == Some(x.id)),
            r matches Ok(x) ==> NotificationObject::read_from(Json::Object(*o), x),
            NotificationObject::wire_ok(Json::Object(*o)) ==> r is Ok,
            r is Ok ==> (tag_kind_of(o@) == Some(NanoKind::Notification) ==> NotificationObject::wire_ok(Json::Object(*o))),
            tag_kind_of(o@) == Some(NanoKind::Notification) ==> (r matches Err(e) ==> NotificationObject::failed_at(Json::Object(*o), e.path@)),
    {
        let id = field_str_u64(o, "id")?;
        let relationships = opt_relationships(o)?;
        let links = opt_links(o)?;
        let attributes = match get_field(o, "attributes") {
            Some(a) => match NotificationData::from_json(a) {
                Ok(x) => x,
                Err(e) => {
                    return Err(error_within("attributes", e));
                },
            },
            None => {
                return Err(error_at("attributes", DecodeCause::MissingField));
            },
        };
        Ok(NotificationObject { id, relationships, links, attributes })
    }
}

impl ObjectInfo for NotificationObject {
    open spec fn accepts_kind(k: NanoKind) -> bool {
        k == NanoKind::Notification
    }

    open spec fn spec_kind(&self) -> NanoKind {
        NanoKind::Notification
    }

    open spec fn spec_id(&self) -> u64 {
        self.id
    }

    open spec fn spec_relationships(&self) -> Option<RelationInfo> {
        self.relationships
    }

    open spec fn spec_links(&self) -> Option<LinkInfo> {
        self.links
    }

    open spec fn wire_ok(j: Json) -> bool {
        resource_ok(j, NanoKind::Notification) && (j matches Json::Object(e) && (lookup(e@, "attributes"@) matches Some(
            a,
        ) && notification_data_wire_ok(a)))
    }

    open spec fn failed_at(j: Json, p: Seq<String>) -> bool {
        resource_failed_at(j, NanoKind::Notification, p, |q: Seq<String>| match j { Json::Object(e) => match lookup(e@, "attributes"@) { Some(Json::Object(a)) => q.len() == 2 && notification_data_error_at(a@, q[1]@), _ => q.len() == 1 }, _ => true })
    }

    open spec fn written_as(j: Json, x: NotificationObject) -> bool {
        j matches Json::Object(e) && head_written(e@, x.relationships) && (lookup(e@, "attributes"@) matches Some(
            a,
        ) && (a matches Json::Object(ae) && notification_data_written_as(ae@, x.attributes)))
    }

    open spec fn read_from(j: Json, x: NotificationObject) -> bool {
        match j {
            Json::Object(e) => relationships_read(e@, x.relationships) && links_read(e@, x.links) && (lookup(
                e@,
                "attributes"@,
            ) matches Some(Json::Object(a)) && notification_data_read_from(a@, x.attributes)),
            _ => false,
        }
    }

    fn kind(&self) -> (r: NanoKind) {
        NanoKind::Notification
    }

    fn id(&self) -> (r: u64) {
        self.id
    }

    fn relationships(&self) -> (r: &Option<RelationInfo>) {
        &self.relationships
    }

    fn links(&self) -> (r: &Option<LinkInfo>) {
        &self.links
    }

    fn from_json(j: &Json) -> (r: Result<NotificationObject, DecodeError>) {
        match j {
            Json::Object(o) => {
                let kind = field_tag(o)?;
                if kind != NanoKind::Notification {
                    return Err(error_at("type", DecodeCause::WrongKind));
                }
                NotificationObject::from_fields(o)
            },
            _ => Err(not_an_object()),
        }
    }

    fn to_json(&self) -> (r: Json) {
        let mut e: Vec<(String, Json)> = Vec::new();
        push_head(&mut e, NanoKind::Notification, self.id, &self.relationships, &self.links);
        let ghost before = e@;
        e.push((String::from_str("attributes"), self.attributes.to_json()));
        proof {
            lemma_key_names();
            lemma_push_keeps(before, e@.last(), NanoKind::Notification, self.id);
            assert(e@ == before.push(e@.last()));
            lemma_lookup_push(before, e@.last(), "relationships"@);
            lemma_lookup_push_new(before, e@.last());
        }
        Json::Object(e)
    }
}

/// A resource of kind Page.
#[derive(Clone, Debug, PartialEq)]
pub struct PageObject {
    pub id: u64,
    pub relationships: Option<RelationInfo>,
    pub links: Option<LinkInfo>,
    pub attributes: PageData,
}

impl PageObject {
    /// Reads the fields of a resource whose tag has been checked.
    fn from_fields(o: &Vec<(String, Json)>) -> (r: Result<PageObject, DecodeError>)
        ensures
            r matches Ok(x) ==> (lookup(o@, "id"@) matches Some(i) && json_str_u64(i) == Some(x.id)),
            r matches Ok(x) ==> PageObject::read_from(Json::Object(*o), x),
            PageObject::wire_ok(Json::Object(*o)) ==> r is Ok,
            r is Ok ==> (tag_kind_of(o@) == Some(NanoKind::Page) ==> PageObject::wire_ok(Json::Object(*o))),
            tag_kind_of(o@) == Some(NanoKind::Page) ==> (r matches Err(e) ==> PageObject::failed_at(Json::Object(*o), e.path@)),
    {
        let id = field_str_u64(o, "id")?;
        let relationships = opt_relationships(o)?;
        let links = opt_links(o)?;
        let attributes = match get_field(o, "attributes") {
            Some(a) => match PageData::from_json(a) {
                Ok(x) => x,
                Err(e) => {
                    return Err(error_within("attributes", e));
                },
            },
            None => {
                return Err(error_at("attributes", DecodeCause::MissingField));
            },
        };
        Ok(PageObject { id, relationships, links, attributes })
    }
}

impl ObjectInfo for PageObject {
    open spec fn accepts_kind(k: NanoKind) -> bool {
        k == NanoKind::Page
    }

    open spec fn spec_kind(&self) -> NanoKind {
        NanoKind::Page
    }

    open spec fn spec_id(&self) -> u64 {
        self.id
    }

    open spec fn spec_relationships(&self) -> Option<RelationInfo> {
        self.relationships
    }

    open spec fn spec_links(&self) -> Option<LinkInfo> {
        self.links
    }

    open spec fn wire_ok(j: Json) -> bool {
        resource_ok(j, NanoKind::Page) && (j matches Json::Object(e) && (lookup(e@, "attributes"@) matches Some(
            a,
        ) && page_data_wire_ok(a)))
    }

    open spec fn failed_at(j: Json, p: Seq<String>) -> bool {
        resource_failed_at(j, NanoKind::Page, p, |q: Seq<String>| match j { Json::Object(e) => match lookup(e@, "attributes"@) { Some(Json::Object(a)) => q.len() == 2 && page_data_error_at(a@, q[1]@), _ => q.len() == 1 }, _ => true })
    }

    open spec fn written_as(j: Json, x: PageObject) -> bool {
        j matches Json::Object(e) && head_written(e@, x.relationships) && (lookup(e@, "attributes"@) matches Some(
            a,
        ) && (a matches Json::Object(ae) && page_data_written_as(ae@, x.attributes)))
    }

    open spec fn read_from(j: Json, x: PageObject) -> bool {
        match j {
            Json::Object(e) => relationships_read(e@, x.relationships) && links_read(e@, x.links) && (lookup(
                e@,
                "attributes"@,
            ) matches Some(Json::Object(a)) && page_data_read_from(a@, x.attributes)),
            _ => false,
        }
    }

    fn kind(&self) -> (r: NanoKind) {
        NanoKind::Page
    }

    fn id(&self) -> (r: u64) {
        self.id
    }

    fn relationships(&self) -> (r: &Option<RelationInfo>) {
        &self.relationships
    }

    fn links(&self) -> (r: &Option<LinkInfo>) {
        &self.links
    }

    fn from_json(j: &Json) -> (r: Result<PageObject, DecodeError>) {
        match j {
            Json::Object(o) => {
                let kind = field_tag(o)?;
                if kind != NanoKind::Page {
                    return Err(error_at("type", DecodeCause::WrongKind));
                }
                PageObject::from_fields(o)
            },
            _ => Err(not_an_object()),
        }
    }

    fn to_json(&self) -> (r: Json) {
        let mut e: Vec<(String, Json)> = Vec::new();
        push_head(&mut e, NanoKind::Page, self.id, &self.relationships, &self.links);
        let ghost before = e@;
        e.push((String::from_str("attributes"), self.attributes.to_json()));
        proof {
            lemma_key_names();
            lemma_push_keeps(before, e@.last(), NanoKind::Page, self.id);
            assert(e@ == before.push(e@.last()));
            lemma_lookup_push(before, e@.last(), "relationships"@);
            lemma_lookup_push_new(before, e@.last());
        }
        Json::Object(e)
    }
}

/// A resource of kind Post.
#[derive(Clone, Debug, PartialEq)]
pub struct PostObject {
    pub id: u64,
    pub relationships: Option<RelationInfo>,
    pub links: Option<LinkInfo>,
    pub attributes: PostData,
}

impl PostObject {
    /// Reads the fields of a resource whose tag has been checked.
    fn from_fields(o: &Vec<(String, Json)>) -> (r: Result<PostObject, DecodeError>)
        ensures
            r matches Ok(x) ==> (lookup(o@, "id"@) matches Some(i) && json_str_u64(i) == Some(x.id)),
            r matches Ok(x) ==> PostObject::read_from(Json::Object(*o), x),
            PostObject::wire_ok(Json::Object(*o)) ==> r is Ok,
            r is Ok ==> (tag_kind_of(o@) == Some(NanoKind::Post) ==> PostObject::wire_ok(Json::Object(*o))),
            tag_kind_of(o@) == Some(NanoKind::Post) ==> (r matches Err(e) ==> PostObject::failed_at(Json::Object(*o), e.path@)),
    {
        let id = field_str_u64(o, "id")?;
        let relationships = opt_relationships(o)?;
        let links = opt_links(o)?;
        let attributes = match get_field(o, "attributes") {
            Some(a) => match PostData::from_json(a) {
                Ok(x) => x,
                Err(e) => {
                    return Err(error_within("attributes", e));
                },
            },
            None => {
                return Err(error_at("attributes", DecodeCause::MissingField));
            },
        };
        Ok(PostObject { id, relationships, links, attributes })
    }
}

impl ObjectInfo for PostObject {
    open spec fn accepts_kind(k: NanoKind) -> bool {
        k == NanoKind::Post
    }

    open spec fn spec_kind(&self) -> NanoKind {
        NanoKind::Post
    }

    open spec fn spec_id(&self) -> u64 {
        self.id
    }

    open spec fn spec_relationships(&self) -> Option<RelationInfo> {
        self.relationships
    }

    open spec fn spec_links(&self) -> Option<LinkInfo> {
        self.links
    }

    open spec fn wire_ok(j: Json) -> bool {
        resource_ok(j, NanoKind::Post) && (j matches Json::Object(e) && (lookup(e@, "attributes"@) matches Some(
            a,
        ) && post_data_wire_ok(a)))
    }

    open spec fn failed_at(j: Json, p: Seq<String>) -> bool {
        resource_failed_at(j, NanoKind::Post, p, |q: Seq<String>| match j { Json::Object(e) => match lookup(e@, "attributes"@) { Some(Json::Object(a)) => q.len() == 2 && post_data_error_at(a@, q[1]@), _ => q.len() == 1 }, _ => true })
    }

    open spec fn written_as(j: Json, x: PostObject) -> bool {
        j matches Json::Object(e) && head_written(e@, x.relationships) && (lookup(e@, "attributes"@) matches Some(
            a,
        ) && (a matches Json::Object(ae) && post_data_written_as(ae@, x.attributes)))
    }

    open spec fn read_from(j: Json, x: PostObject) -> bool {
        match j {
            Json::Object(e) => relationships_read(e@, x.relationships) && links_read(e@, x.links) && (lookup(
                e@,
                "attributes"@,
            ) matches Some(Json::Object(a)) && post_data_read_from(a@, x.attributes)),
            _ => false,
        }
    }

    fn kind(&self) -> (r: NanoKind) {
        NanoKind::Post
    }

    fn id(&self) -> (r: u64) {
        self.id
    }

    fn relationships(&self) -> (r: &Option<RelationInfo>) {
        &self.relationships
    }

    fn links(&self) -> (r: &Option<LinkInfo>) {
        &self.links
    }

    fn from_json(j: &Json) -> (r: Result<PostObject, DecodeError>) {
        match j {
            Json::Object(o) => {
                let kind = field_tag(o)?;
                if kind != NanoKind::Post {
                    return Err(error_at("type", DecodeCause::WrongKind));
                }
                PostObject::from_fields(o)
            },
            _ => Err(not_an_object()),
        }
    }

    fn to_json(&self) -> (r: Json) {
        let mut e: Vec<(String, Json)> = Vec::new();
        push_head(&mut e, NanoKind::Post, self.id, &self.relationships, &self.links);
        let ghost before = e@;
        e.push((String::from_str("attributes"), self.attributes.to_json()));
        proof {
            lemma_key_names();
            lemma_push_keeps(before, e@.last(), NanoKind::Post, self.id);
            assert(e@ == before.push(e@.last()));
            lemma_lookup_push(before, e@.last(), "relationships"@);
            lemma_lookup_push_new(before, e@.last());
        }
        Json::Object(e)
    }
}

/// A resource of kind Project.
#[derive(Clone, Debug, PartialEq)]
pub struct ProjectObject {
    pub id: u64,
    pub relationships: Option<RelationInfo>,
    pub links: Option<LinkInfo>,
    pub attributes: ProjectData,
}

impl ProjectObject {
    /// Reads the fields of a resource whose tag has been checked.
    fn from_fields(o: &Vec<(String, Json)>) -> (r: Result<ProjectObject, DecodeError>)
        ensures
            r matches Ok(x) ==> (lookup(o@, "id"@) matches Some(i) && json_str_u64(i) == Some(x.id)),
            r matches Ok(x) ==> ProjectObject::read_from(Json::Object(*o), x),
            ProjectObject::wire_ok(Json::Object(*o)) ==> r is Ok,
            r is Ok ==> (tag_kind_of(o@) == Some(NanoKind::Project) ==> ProjectObject::wire_ok(Json::Object(*o))),
            tag_kind_of(o@) == Some(NanoKind::Project) ==> (r matches Err(e) ==> ProjectObject::failed_at(Json::Object(*o), e.path@)),
    {
        let id = field_str_u64(o, "id")?;
        let relationships = opt_relationships(o)?;
        let links = opt_links(o)?;
        let attributes = match get_field(o, "attributes") {
            Some(a) => match ProjectData::from_json(a) {
                Ok(x) => x,
                Err(e) => {
                    return Err(error_within("attributes", e));
                },
            },
            None => {
                return Err(error_at("attributes", DecodeCause::MissingField));
            },
        };
        Ok(ProjectObject { id, relationships, links, attributes })
    }
}

impl ObjectInfo for ProjectObject {
    open spec fn accepts_kind(k: NanoKind) -> bool {
        k == NanoKind::Project
    }

    open spec fn spec_kind(&self) -> NanoKind {
        NanoKind::Project
    }

    open spec fn spec_id(&self) -> u64 {
        self.id
    }

    open spec fn spec_relationships(&self) -> Option<RelationInfo> {
        self.relationships
    }

    open spec fn spec_links(&self) -> Option<LinkInfo> {
        self.links
    }

    open spec fn wire_ok(j: Json) -> bool {
        resource_ok(j, NanoKind::Project) && (j matches Json::Object(e) && (lookup(e@, "attributes"@) matches Some(
            a,
        ) && project_data_wire_ok(a)))
    }

    open spec fn failed_at(j: Json, p: Seq<String>) -> bool {
        resource_failed_at(j, NanoKind::Project, p, |q: Seq<String>| match j { Json::Object(e) => match lookup(e@, "attributes"@) { Some(Json::Object(a)) => q.len() == 2 && project_data_error_at(a@, q[1]@), _ => q.len() == 1 }, _ => true })
    }

    open spec fn written_as(j: Json, x: ProjectObject) -> bool {
        j matches Json::Object(e) && head_written(e@, x.relationships) && (lookup(e@, "attributes"@) matches Some(
            a,
        ) && (a matches Json::Object(ae) && project_data_written_as(ae@, x.attributes)))
    }

    open spec fn read_from(j: Json, x: ProjectObject) -> bool {
        match j {
            Json::Object(e) => relationships_read(e@, x.relationships) && links_read(e@, x.links) && (lookup(
                e@,
                "attributes"@,
            ) matches Some(Json::Object(a)) && project_data_read_from(a@, x.attributes)),
            _ => false,
        }
    }

    fn kind(&self) -> (r: NanoKind) {
        NanoKind::Project
    }

    fn id(&self) -> (r: u64) {
        self.id
    }

    fn relationships(&self) -> (r: &Option<RelationInfo>) {
        &self.relationships
    }

    fn links(&self) -> (r: &Option<LinkInfo>) {
        &self.links
    }

    fn from_json(j: &Json) -> (r: Result<ProjectObject, DecodeError>) {
        match j {
            Json::Object(o) => {
                let kind = field_tag(o)?;
                if kind != NanoKind::Project {
                    return Err(error_at("type", DecodeCause::WrongKind));
                }
                ProjectObject::from_fields(o)
            },
            _ => Err(not_an_object()),
        }
    }

    fn to_json(&self) -> (r: Json) {
        let mut e: Vec<(String, Json)> = Vec::new();
        push_head(&mut e, NanoKind::Project, self.id, &self.relationships, &self.links);
        let ghost before = e@;
        e.push((String::from_str("attributes"), self.attributes.to_json()));
        proof {
            lemma_key_names();
            lemma_push_keeps(before, e@.last(), NanoKind::Project, self.id);
            assert(e@ == before.push(e@.last()));
            lemma_lookup_push(before, e@.last(), "relationships"@);
            lemma_lookup_push_new(before, e@.last());
        }
        Json::Object(e)
    }
}

/// A resource of kind ProjectSession.
#[derive(Clone, Debug, PartialEq)]
pub struct ProjectSessionObject {
    pub id: u64,
    pub relationships: Option<RelationInfo>,
    pub links: Option<LinkInfo>,
    pub attributes: ProjectSessionData,
}

impl ProjectSessionObject {
    /// Reads the fields of a resource whose tag has been checked.
    fn from_fields(o: &Vec<(String, Json)>) -> (r: Result<ProjectSessionObject, DecodeError>)
        ensures
            r matches Ok(x) ==> (lookup(o@, "id"@) matches Some(i) && json_str_u64(i) == Some(x.id)),
            r matches Ok(x) ==> ProjectSessionObject::read_from(Json::Object(*o), x),
            ProjectSessionObject::wire_ok(Json::Object(*o)) ==> r is Ok,
            r is Ok ==> (tag_kind_of(o@) == Some(NanoKind::ProjectSession) ==> ProjectSessionObject::wire_ok(Json::Object(*o))),
            tag_kind_of(o@) == Some(NanoKind::ProjectSession) ==> (r matches Err(e) ==> ProjectSessionObject::failed_at(Json::Object(*o), e.path@)),
    {
        let id = field_str_u64(o, "id")?;
        let relationships = opt_relationships(o)?;
        let links = opt_links(o)?;
        let attributes = match get_field(o, "attributes") {
            Some(a) => match ProjectSessionData::from_json(a) {
                Ok(x) => x,
                Err(e) => {
                    return Err(error_within("attributes", e));
                },
            },
            None => {
                return Err(error_at("attributes", DecodeCause::MissingField));
            },
        };
        Ok(ProjectSessionObject { id, relationships, links, attributes })
    }
}

impl ObjectInfo for ProjectSessionObject {
    open spec fn accepts_kind(k: NanoKind) -> bool {
        k == NanoKind::ProjectSession
    }

    open spec fn spec_kind(&self) -> NanoKind {
        NanoKind::ProjectSession
    }

    open spec fn spec_id(&self) -> u64 {
        self.id
    }

    open spec fn spec_relationships(&self) -> Option<RelationInfo> {
        self.relationships
    }

    open spec fn spec_links(&self) -> Option<LinkInfo> {
        self.links
    }

    open spec fn wire_ok(j: Json) -> bool {
        resource_ok(j, NanoKind::ProjectSession) && (j matches Json::Object(e) && (lookup(e@, "attributes"@) matches Some(
            a,
        ) && project_session_data_wire_ok(a)))
    }

    open spec fn failed_at(j: Json, p: Seq<String>) -> bool {
        resource_failed_at(j, NanoKind::ProjectSession, p, |q: Seq<String>| match j { Json::Object(e) => match lookup(e@, "attributes"@) { Some(Json::Object(a)) => q.len() == 2 && project_session_data_error_at(a@, q[1]@), _ => q.len() == 1 }, _ => true })
    }

    open spec fn written_as(j: Json, x: ProjectSessionObject) -> bool {
        j matches Json::Object(e) && head_written(e@, x.relationships) && (lookup(e@, "attributes"@) matches Some(
            a,
        ) && (a matches Json::Object(ae) && project_session_data_written_as(ae@, x.attributes)))
    }

    open spec fn read_from(j: Json, x: ProjectSessionObject) -> bool {
        match j {
            Json::Object(e) => relationships_read(e@, x.relationships) && links_read(e@, x.links) && (lookup(
                e@,
                "attributes"@,
            ) matches Some(Json::Object(a)) && project_session_data_read_from(a@, x.attributes)),
            _ => false,
        }
    }

    fn kind(&self) -> (r: NanoKind) {
        NanoKind::ProjectSession
    }

    fn id(&self) -> (r: u64) {
        self.id
    }

    fn relationships(&self) -> (r: &Option<RelationInfo>) {
        &self.relationships
    }

    fn links(&self) -> (r: &Option<LinkInfo>) {
        &self.links
    }

    fn from_json(j: &Json) -> (r: Result<ProjectSessionObject, DecodeError>) {
        match j {
            Json::Object(o) => {
                let kind = field_tag(o)?;
                if kind != NanoKind::ProjectSession {
                    return Err(error_at("type", DecodeCause::WrongKind));
                }
                ProjectSessionObject::from_fields(o)
            },
            _ => Err(not_an_object()),
        }
    }

    fn to_json(&self) -> (r: Json) {
        let mut e: Vec<(String, Json)> = Vec::new();
        push_head(&mut e, NanoKind::ProjectSession, self.id, &self.relationships, &self.links);
        let ghost before = e@;
        e.push((String::from_str("attributes"), self.attributes.to_json()));
        proof {
            lemma_key_names();
            lemma_push_keeps(before, e@.last(), NanoKind::ProjectSession, self.id);
            assert(e@ == before.push(e@.last()));
            lemma_lookup_push(before, e@.last(), "relationships"@);
            lemma_lookup_push_new(before, e@.last());
        }
        Json::Object(e)
    }
}

/// A resource of kind StopWatch.
#[derive(Clone, Debug, PartialEq)]
pub struct StopWatchObject {
    pub id: u64,
    pub relationships: Option<RelationInfo>,
    pub links: Option<LinkInfo>,
    pub attributes: StopWatchData,
}

impl StopWatchObject {
    /// Reads the fields of a resource whose tag has been checked.
    fn from_fields(o: &Vec<(String, Json)>) -> (r: Result<StopWatchObject, DecodeError>)
        ensures
            r matches Ok(x) ==> (lookup(o@, "id"@) matches Some(i) && json_str_u64(i) == Some(x.id)),
            r matches Ok(x) ==> StopWatchObject::read_from(Json::Object(*o), x),
            StopWatchObject::wire_ok(Json::Object(*o)) ==> r is Ok,
            r is Ok ==> (tag_kind_of(o@) == Some(NanoKind::StopWatch) ==> StopWatchObject::wire_ok(Json::Object(*o))),
            tag_kind_of(o@) == Some(NanoKind::StopWatch) ==> (r matches Err(e) ==> StopWatchObject::failed_at(Json::Object(*o), e.path@)),
    {
        let id = field_str_u64(o, "id")?;
        let relationships = opt_relationships(o)?;
        let links = opt_links(o)?;
        let attributes = match get_field(o, "attributes") {
            Some(a) => match StopWatchData::from_json(a) {
                Ok(x) => x,
                Err(e) => {
                    return Err(error_within("attributes", e));
                },
            },
            None => {
                return Err(error_at("attributes", DecodeCause::MissingField));
            },
        };
        Ok(StopWatchObject { id, relationships, links, attributes })
    }
}

impl ObjectInfo for StopWatchObject {
    open spec fn accepts_kind(k: NanoKind) -> bool {
        k == NanoKind::StopWatch
    }

    open spec fn spec_kind(&self) -> NanoKind {
        NanoKind::StopWatch
    }

    open spec fn spec_id(&self) -> u64 {
        self.id
    }

    open spec fn spec_relationships(&self) -> Option<RelationInfo> {
        self.relationships
    }

    open spec fn spec_links(&self) -> Option<LinkInfo> {
        self.links
    }

    open spec fn wire_ok(j: Json) -> bool {
        resource_ok(j, NanoKind::StopWatch) && (j matches Json::Object(e) && (lookup(e@, "attributes"@) matches Some(
            a,
        ) && stop_watch_data_wire_ok(a)))
    }

    open spec fn failed_at(j: Json, p: Seq<String>) -> bool {
        resource_failed_at(j, NanoKind::StopWatch, p, |q: Seq<String>| match j { Json::Object(e) => match lookup(e@, "attributes"@) { Some(Json::Object(a)) => q.len() == 2 && stop_watch_data_error_at(a@, q[1]@), _ => q.len() == 1 }, _ => true })
    }

    open spec fn written_as(j: Json, x: StopWatchObject) -> bool {
        j matches Json::Object(e) && head_written(e@, x.relationships) && (lookup(e@, "attributes"@) matches Some(
            a,
        ) && (a matches Json::Object(ae) && stop_watch_data_written_as(ae@, x.attributes)))
    }

    open spec fn read_from(j: Json, x: StopWatchObject) -> bool {
        match j {
            Json::Object(e) => relationships_read(e@, x.relationships) && links_read(e@, x.links) && (lookup(
                e@,
                "attributes"@,
            ) matches Some(Json::Object(a)) && stop_watch_data_read_from(a@, x.attributes)),
            _ => false,
        }
    }

    fn kind(&self) -> (r: NanoKind) {
        NanoKind::StopWatch
    }

    fn id(&self) -> (r: u64) {
        self.id
    }

    fn relationships(&self) -> (r: &Option<RelationInfo>) {
        &self.relationships
    }

    fn links(&self) -> (r: &Option<LinkInfo>) {
        &self.links
    }

    fn from_json(j: &Json) -> (r: Result<StopWatchObject, DecodeError>) {
        match j {
            Json::Object(o) => {
                let kind = field_tag(o)?;
                if kind != NanoKind::StopWatch {
                    return Err(error_at("type", DecodeCause::WrongKind));
                }
                StopWatchObject::from_fields(o)
            },
            _ => Err(not_an_object()),
        }
    }

    fn to_json(&self) -> (r: Json) {
        let mut e: Vec<(String, Json)> = Vec::new();
        push_head(&mut e, NanoKind::StopWatch, self.id, &self.relationships, &self.links);
        let ghost before = e@;
        e.push((String::from_str("attributes"), self.attributes.to_json()));
        proof {
            lemma_key_names();
            lemma_push_keeps(before, e@.last(), NanoKind::StopWatch, self.id);
            assert(e@ == before.push(e@.last()));
            lemma_lookup_push(before, e@.last(), "relationships"@);
            lemma_lookup_push_new(before, e@.last());
        }
        Json::Object(e)
    }
}

/// A resource of kind Timer.
#[derive(Clone, Debug, PartialEq)]
pub struct TimerObject {
    pub id: u64,
    pub relationships: Option<RelationInfo>,
    pub links: Option<LinkInfo>,
    pub attributes: TimerData,
}

impl TimerObject {
    /// Reads the fields of a resource whose tag has been checked.
    fn from_fields(o: &Vec<(String, Json)>) -> (r: Result<TimerObject, DecodeError>)
        ensures
            r matches Ok(x) ==> (lookup(o@, "id"@) matches Some(i) && json_str_u64(i) == Some(x.id)),
            r matches Ok(x) ==> TimerObject::read_from(Json::Object(*o), x),
            TimerObject::wire_ok(Json::Object(*o)) ==> r is Ok,
            r is Ok ==> (tag_kind_of(o@) == Some(NanoKind::Timer) ==> TimerObject::wire_ok(Json::Object(*o))),
            tag_kind_of(o@) == Some(NanoKind::Timer) ==> (r matches Err(e) ==> TimerObject::failed_at(Json::Object(*o), e.path@)),
    {
        let id = field_str_u64(o, "id")?;
        let relationships = opt_relationships(o)?;
        let links = opt_links(o)?;
        let attributes = match get_field(o, "attributes") {
            Some(a) => match TimerData::from_json(a) {
                Ok(x) => x,
                Err(e) => {
                    return Err(error_within("attributes", e));
                },
            },
            None => {
                return Err(error_at("attributes", DecodeCause::MissingField));
            },
        };
        Ok(TimerObject { id, relationships, links, attributes })
    }
}

impl ObjectInfo for TimerObject {
    open spec fn accepts_kind(k: NanoKind) -> bool {
        k == NanoKind::Timer
    }

    open spec fn spec_kind(&self) -> NanoKind {
        NanoKind::Timer
    }

    open spec fn spec_id(&self) -> u64 {
        self.id
    }

    open spec fn spec_relationships(&self) -> Option<RelationInfo> {
        self.relationships
    }

    open spec fn spec_links(&self) -> Option<LinkInfo> {
        self.links
    }

    open spec fn wire_ok(j: Json) -> bool {
        resource_ok(j, NanoKind::Timer) && (j matches Json::Object(e) && (lookup(e@, "attributes"@) matches Some(
            a,
        ) && timer_data_wire_ok(a)))
    }

    open spec fn failed_at(j: Json, p: Seq<String>) -> bool {
        resource_failed_at(j, NanoKind::Timer, p, |q: Seq<String>| match j { Json::Object(e) => match lookup(e@, "attributes"@) { Some(Json::Object(a)) => q.len() == 2 && timer_data_error_at(a@, q[1]@), _ => q.len() == 1 }, _ => true })
    }

    open spec fn written_as(j: Json, x: TimerObject) -> bool {
        j matches Json::Object(e) && head_written(e@, x.relationships) && (lookup(e@, "attributes"@) matches Some(
            a,
        ) && (a matches Json::Object(ae) && timer_data_written_as(ae@, x.attributes)))
    }

    open spec fn read_from(j: Json, x: TimerObject) -> bool {
        match j {
            Json::Object(e) => relationships_read(e@, x.relationships) && links_read(e@, x.links) && (lookup(
                e@,
                "attributes"@,
            ) matches Some(Json::Object(a)) && timer_data_read_from(a@, x.attributes)),
            _ => false,
        }
    }

    fn kind(&self) -> (r: NanoKind) {
        NanoKind::Timer
    }

    fn id(&self) -> (r: u64) {
        self.id
    }

    fn relationships(&self) -> (r: &Option<RelationInfo>) {
        &self.relationships
    }

    fn links(&self) -> (r: &Option<LinkInfo>) {
        &self.links
    }

    fn from_json(j: &Json) -> (r: Result<TimerObject, DecodeError>) {
        match j {
            Json::Object(o) => {
                let kind = field_tag(o)?;
                if kind != NanoKind::Timer {
                    return Err(error_at("type", DecodeCause::WrongKind));
                }
                TimerObject::from_fields(o)
            },
            _ => Err(not_an_object()),
        }
    }

    fn to_json(&self) -> (r: Json) {
        let mut e: Vec<(String, Json)> = Vec::new();
        push_head(&mut e, NanoKind::Timer, self.id, &self.relationships, &self.links);
        let ghost before = e@;
        e.push((String::from_str("attributes"), self.attributes.to_json()));
        proof {
            lemma_key_names();
            lemma_push_keeps(before, e@.last(), NanoKind::Timer, self.id);
            assert(e@ == before.push(e@.last()));
            lemma_lookup_push(before, e@.last(), "relationships"@);
            lemma_lookup_push_new(before, e@.last());
        }
        Json::Object(e)
    }
}

/// A resource of kind User.
#[derive(Clone, Debug, PartialEq)]
pub struct UserObject {
    pub id: u64,
    pub relationships: Option<RelationInfo>,
    pub links: Option<LinkInfo>,
    pub attributes: UserData,
}

impl UserObject {
    /// Reads the fields of a resource whose tag has been checked.
    fn from_fields(o: &Vec<(String, Json)>) -> (r: Result<UserObject, DecodeError>)
        ensures
            r matches Ok(x) ==> (lookup(o@, "id"@) matches Some(i) && json_str_u64(i) == Some(x.id)),
            r matches Ok(x) ==> UserObject::read_from(Json::Object(*o), x),
            UserObject::wire_ok(Json::Object(*o)) ==> r is Ok,
            r is Ok ==> (tag_kind_of(o@) == Some(NanoKind::User) ==> UserObject::wire_ok(Json::Object(*o))),
            tag_kind_of(o@) == Some(NanoKind::User) ==> (r matches Err(e) ==> UserObject::failed_at(Json::Object(*o), e.path@)),
    {
        let id = field_str_u64(o, "id")?;
        let relationships = opt_relationships(o)?;
        let links = opt_links(o)?;
        let attributes = match get_field(o, "attributes") {
            Some(a) => match UserData::from_json(a) {
                Ok(x) => x,
                Err(e) => {
                    return Err(error_within("attributes", e));
                },
            },
            None => {
                return Err(error_at("attributes", DecodeCause::MissingField));
            },
        };
        Ok(UserObject { id, relationships, links, attributes })
    }
}

impl ObjectInfo for UserObject {
    open spec fn accepts_kind(k: NanoKind) -> bool {
        k == NanoKind::User
    }

    open spec fn spec_kind(&self) -> NanoKind {
        NanoKind::User
    }

    open spec fn spec_id(&self) -> u64 {
        self.id
    }

    open spec fn spec_relationships(&self) -> Option<RelationInfo> {
        self.relationships
    }

    open spec fn spec_links(&self) -> Option<LinkInfo> {
        self.links
    }

    open spec fn wire_ok(j: Json) -> bool {
        resource_ok(j, NanoKind::User) && (j matches Json::Object(e) && (lookup(e@, "attributes"@) matches Some(
            a,
        ) && user_data_wire_ok(a)))
    }

    open spec fn failed_at(j: Json, p: Seq<String>) -> bool {
        resource_failed_at(j, NanoKind::User, p, |q: Seq<String>| true)
    }

    open spec fn written_as(j: Json, x: UserObject) -> bool {
        j matches Json::Object(e) && head_written(e@, x.relationships) && (lookup(e@, "attributes"@) matches Some(
            a,
        ) && a is Object)
    }

    open spec fn read_from(j: Json, x: UserObject) -> bool {
        match j {
            Json::Object(e) => relationships_read(e@, x.relationships) && links_read(e@, x.links) && (lookup(
                e@,
                "attributes"@,
            ) matches Some(Json::Object(a)) && user_data_read_from(a@, x.attributes)),
            _ => false,
        }
    }

    fn kind(&self) -> (r: NanoKind) {
        NanoKind::User
    }

    fn id(&self) -> (r: u64) {
        self.id
    }

    fn relationships(&self) -> (r: &Option<RelationInfo>) {
        &self.relationships
    }

    fn links(&self) -> (r: &Option<LinkInfo>) {
        &self.links
    }

    fn from_json(j: &Json) -> (r: Result<UserObject, DecodeError>) {
        match j {
            Json::Object(o) => {
                let kind = field_tag(o)?;
                if kind != NanoKind::User {
                    return Err(error_at("type", DecodeCause::WrongKind));
                }
                UserObject::from_fields(o)
            },
            _ => Err(not_an_object()),
        }
    }

    fn to_json(&self) -> (r: Json) {
        let mut e: Vec<(String, Json)> = Vec::new();
        push_head(&mut e, NanoKind::User, self.id, &self.relationships, &self.links);
        let ghost before = e@;
        e.push((String::from_str("attributes"), self.attributes.to_json()));
        proof {
            lemma_key_names();
            lemma_push_keeps(before, e@.last(), NanoKind::User, self.id);
            assert(e@ == before.push(e@.last()));
            lemma_lookup_push(before, e@.last(), "relationships"@);
            lemma_lookup_push_new(before, e@.last());
        }
        Json::Object(e)
    }
}

/// A resource of kind WritingLocation.
#[derive(Clone, Debug, PartialEq)]
pub struct WritingLocationObject {
    pub id: u64,
    pub relationships: Option<RelationInfo>,
    pub links: Option<LinkInfo>,
    pub attributes: WritingLocationData,
}

impl WritingLocationObject {
    /// Reads the fields of a resource whose tag has been checked.
    fn from_fields(o: &Vec<(String, Json)>) -> (r: Result<WritingLocationObject, DecodeError>)
        ensures
            r matches Ok(x) ==> (lookup(o@, "id"@) matches Some(i) && json_str_u64(i) == Some(x.id)),
            r matches Ok(x) ==> WritingLocationObject::read_from(Json::Object(*o), x),
            WritingLocationObject::wire_ok(Json::Object(*o)) ==> r is Ok,
            r is Ok ==> (tag_kind_of(o@) == Some(NanoKind::WritingLocation) ==> WritingLocationObject::wire_ok(Json::Object(*o))),
            tag_kind_of(o@) == Some(NanoKind::WritingLocation) ==> (r matches Err(e) ==> WritingLocationObject::failed_at(Json::Object(*o), e.path@)),
    {
        let id = field_str_u64(o, "id")?;
        let relationships = opt_relationships(o)?;
        let links = opt_links(o)?;
        let attributes = match get_field(o, "attributes") {
            Some(a) => match WritingLocationData::from_json(a) {
                Ok(x) => x,
                Err(e) => {
                    return Err(error_within("attributes", e));
                },
            },
            None => {
                return Err(error_at("attributes", DecodeCause::MissingField));
            },
        };
        Ok(WritingLocationObject { id, relationships, links, attributes })
    }
}

impl ObjectInfo for WritingLocationObject {
    open spec fn accepts_kind(k: NanoKind) -> bool {
        k == NanoKind::WritingLocation
    }

    open spec fn spec_kind(&self) -> NanoKind {
        NanoKind::WritingLocation
    }

    open spec fn spec_id(&self) -> u64 {
        self.id
    }

    open spec fn spec_relationships(&self) -> Option<RelationInfo> {
        self.relationships
    }

    open spec fn spec_links(&self) -> Option<LinkInfo> {
        self.links
    }

    open spec fn wire_ok(j: Json) -> bool {
        resource_ok(j, NanoKind::WritingLocation) && (j matches Json::Object(e) && (lookup(e@, "attributes"@) matches Some(
            a,
        ) && writing_location_data_wire_ok(a)))
    }

    open spec fn failed_at(j: Json, p: Seq<String>) -> bool {
        resource_failed_at(j, NanoKind::WritingLocation, p, |q: Seq<String>| match j { Json::Object(e) => match lookup(e@, "attributes"@) { Some(Json::Object(a)) => q.len() == 2 && writing_location_data_error_at(a@, q[1]@), _ => q.len() == 1 }, _ => true })
    }

    open spec fn written_as(j: Json, x: WritingLocationObject) -> bool {
        j matches Json::Object(e) && head_written(e@, x.relationships) && (lookup(e@, "attributes"@) matches Some(
            a,
        ) && (a matches Json::Object(ae) && writing_location_data_written_as(ae@, x.attributes)))
    }

    open spec fn read_from(j: Json, x: WritingLocationObject) -> bool {
        match j {
            Json::Object(e) => relationships_read(e@, x.relationships) && links_read(e@, x.links) && (lookup(
                e@,
                "attributes"@,
            ) matches Some(Json::Object(a)) && writing_location_data_read_from(a@, x.attributes)),
            _ => false,
        }
    }

    fn kind(&self) -> (r: NanoKind) {
        NanoKind::WritingLocation
    }

    fn id(&self) -> (r: u64) {
        self.id
    }

    fn relationships(&self) -> (r: &Option<RelationInfo>) {
        &self.relationships
    }

    fn links(&self) -> (r: &Option<LinkInfo>) {
        &self.links
    }

    fn from_json(j: &Json) -> (r: Result<WritingLocationObject, DecodeError>) {
        match j {
            Json::Object(o) => {
                let kind = field_tag(o)?;
                if kind != NanoKind::WritingLocation {
                    return Err(error_at("type", DecodeCause::WrongKind));
                }
                WritingLocationObject::from_fields(o)
            },
            _ => Err(not_an_object()),
        }
    }

    fn to_json(&self) -> (r: Json) {
        let mut e: Vec<(String, Json)> = Vec::new();
        push_head(&mut e, NanoKind::WritingLocation, self.id, &self.relationships, &self.links);
        let ghost before = e@;
        e.push((String::from_str("attributes"), self.attributes.to_json()));
        proof {
            lemma_key_names();
            lemma_push_keeps(before, e@.last(), NanoKind::WritingLocation, self.id);
            assert(e@ == before.push(e@.last()));
            lemma_lookup_push(before, e@.last(), "relationships"@);
            lemma_lookup_push_new(before, e@.last());
        }
        Json::Object(e)
    }
}

/// A resource of kind WritingMethod.
#[derive(Clone, Debug, PartialEq)]
pub struct WritingMethodObject {
    pub id: u64,
    pub relationships: Option<RelationInfo>,
    pub links: Option<LinkInfo>,
    pub attributes: WritingMethodData,
}

impl WritingMethodObject {
    /// Reads the fields of a resource whose tag has been checked.
    fn from_fields(o: &Vec<(String, Json)>) -> (r: Result<WritingMethodObject, DecodeError>)
        ensures
            r matches Ok(x) ==> (lookup(o@, "id"@) matches Some(i) && json_str_u64(i) == Some(x.id)),
            r matches Ok(x) ==> WritingMethodObject::read_from(Json::Object(*o), x),
            WritingMethodObject::wire_ok(Json::Object(*o)) ==> r is Ok,
            r is Ok ==> (tag_kind_of(o@) == Some(NanoKind::WritingMethod) ==> WritingMethodObject::wire_ok(Json::Object(*o))),
            tag_kind_of(o@) == Some(NanoKind::WritingMethod) ==> (r matches Err(e) ==> WritingMethodObject::failed_at(Json::Object(*o), e.path@)),
    {
        let id = field_str_u64(o, "id")?;
        let relationships = opt_relationships(o)?;
        let links = opt_links(o)?;
        let attributes = match get_field(o, "attributes") {
            Some(a) => match WritingMethodData::from_json(a) {
                Ok(x) => x,
                Err(e) => {
                    return Err(error_within("attributes", e));
                },
            },
            None => {
                return Err(error_at("attributes", DecodeCause::MissingField));
            },
        };
        Ok(WritingMethodObject { id, relationships, links, attributes })
    }
}

impl ObjectInfo for WritingMethodObject {
    open spec fn accepts_kind(k: NanoKind) -> bool {
        k == NanoKind::WritingMethod
    }

    open spec fn spec_kind(&self) -> NanoKind {
        NanoKind::WritingMethod
    }

    open spec fn spec_id(&self) -> u64 {
        self.id
    }

    open spec fn spec_relationships(&self) -> Option<RelationInfo> {
        self.relationships
    }

    open spec fn spec_links(&self) -> Option<LinkInfo> {
        self.links
    }

    open spec fn wire_ok(j: Json) -> bool {
        resource_ok(j, NanoKind::WritingMethod) && (j matches Json::Object(e) && (lookup(e@, "attributes"@) matches Some(
            a,
        ) && writing_method_data_wire_ok(a)))
    }

    open spec fn failed_at(j: Json, p: Seq<String>) -> bool {
        resource_failed_at(j, NanoKind::WritingMethod, p, |q: Seq<String>| match j { Json::Object(e) => match lookup(e@, "attributes"@) { Some(Json::Object(a)) => q.len() == 2 && writing_method_data_error_at(a@, q[1]@), _ => q.len() == 1 }, _ => true })
    }

    open spec fn written_as(j: Json, x: WritingMethodObject) -> bool {
        j matches Json::Object(e) && head_written(e@, x.relationships) && (lookup(e@, "attributes"@) matches Some(
            a,
        ) && (a matches Json::Object(ae) && writing_method_data_written_as(ae@, x.attributes)))
    }

    open spec fn read_from(j: Json, x: WritingMethodObject) -> bool {
        match j {
            Json::Object(e) => relationships_read(e@, x.relationships) && links_read(e@, x.links) && (lookup(
                e@,
                "attributes"@,
            ) matches Some(Json::Object(a)) && writing_method_data_read_from(a@, x.attributes)),
            _ => false,
        }
    }

    fn kind(&self) -> (r: NanoKind) {
        NanoKind::WritingMethod
    }

    fn id(&self) -> (r: u64) {
        self.id
    }

    fn relationships(&self) -> (r: &Option<RelationInfo>) {
        &self.relationships
    }

    fn links(&self) -> (r: &Option<LinkInfo>) {
        &self.links
    }

    fn from_json(j: &Json) -> (r: Result<WritingMethodObject, DecodeError>) {
        match j {
            Json::Object(o) => {
                let kind = field_tag(o)?;
                if kind != NanoKind::WritingMethod {
                    return Err(error_at("type", DecodeCause::WrongKind));
                }
                WritingMethodObject::from_fields(o)
            },
            _ => Err(not_an_object()),
        }
    }

    fn to_json(&self) -> (r: Json) {
        let mut e: Vec<(String, Json)> = Vec::new();
        push_head(&mut e, NanoKind::WritingMethod, self.id, &self.relationships, &self.links);
        let ghost before = e@;
        e.push((String::from_str("attributes"), self.attributes.to_json()));
        proof {
            lemma_key_names();
            lemma_push_keeps(before, e@.last(), NanoKind::WritingMethod, self.id);
            assert(e@ == before.push(e@.last()));
            lemma_lookup_push(before, e@.last(), "relationships"@);
            lemma_lookup_push_new(before, e@.last());
        }
        Json::Object(e)
    }
}

/// A resource of kind GroupUser.
#[derive(Clone, Debug, PartialEq)]
pub struct GroupUserObject {
    pub id: u64,
    pub relationships: Option<RelationInfo>,
    pub links: Option<LinkInfo>,
    pub attributes: GroupUserData,
}

impl GroupUserObject {
    /// Reads the fields of a resource whose tag has been checked.
    fn from_fields(o: &Vec<(String, Json)>) -> (r: Result<GroupUserObject, DecodeError>)
        ensures
            r matches Ok(x) ==> (lookup(o@, "id"@) matches Some(i) && json_str_u64(i) == Some(x.id)),
            r matches Ok(x) ==> GroupUserObject::read_from(Json::Object(*o), x),
            GroupUserObject::wire_ok(Json::Object(*o)) ==> r is Ok,
            r is Ok ==> (tag_kind_of(o@) == Some(NanoKind::GroupUser) ==> GroupUserObject::wire_ok(Json::Object(*o))),
            tag_kind_of(o@) == Some(NanoKind::GroupUser) ==> (r matches Err(e) ==> GroupUserObject::failed_at(Json::Object(*o), e.path@)),
    {
        let id = field_str_u64(o, "id")?;
        let relationships = opt_relationships(o)?;
        let links = opt_links(o)?;
        let attributes = match get_field(o, "attributes") {
            Some(a) => match GroupUserData::from_json(a) {
                Ok(x) => x,
                Err(e) => {
                    return Err(error_within("attributes", e));
                },
            },
            None => {
                return Err(error_at("attributes", DecodeCause::MissingField));
            },
        };
        Ok(GroupUserObject { id, relationships, links, attributes })
    }
}

impl ObjectInfo for GroupUserObject {
    open spec fn accepts_kind(k: NanoKind) -> bool {
        k == NanoKind::GroupUser
    }

    open spec fn spec_kind(&self) -> NanoKind {
        NanoKind::GroupUser
    }

    open spec fn spec_id(&self) -> u64 {
        self.id
    }

    open spec fn spec_relationships(&self) -> Option<RelationInfo> {
        self.relationships
    }

    open spec fn spec_links(&self) -> Option<LinkInfo> {
        self.links
    }

    open spec fn wire_ok(j: Json) -> bool {
        resource_ok(j, NanoKind::GroupUser) && (j matches Json::Object(e) && (lookup(e@, "attributes"@) matches Some(
            a,
        ) && group_user_data_wire_ok(a)))
    }

    open spec fn failed_at(j: Json, p: Seq<String>) -> bool {
        resource_failed_at(j, NanoKind::GroupUser, p, |q: Seq<String>| match j { Json::Object(e) => match lookup(e@, "attributes"@) { Some(Json::Object(a)) => q.len() == 2 && group_user_data_error_at(a@, q[1]@), _ => q.len() == 1 }, _ => true })
    }

    open spec fn written_as(j: Json, x: GroupUserObject) -> bool {
        j matches Json::Object(e) && head_written(e@, x.relationships) && (lookup(e@, "attributes"@) matches Some(
            a,
        ) && (a matches Json::Object(ae) && group_user_data_written_as(ae@, x.attributes)))
    }

    open spec fn read_from(j: Json, x: GroupUserObject) -> bool {
        match j {
            Json::Object(e) => relationships_read(e@, x.relationships) && links_read(e@, x.links) && (lookup(
                e@,
                "attributes"@,
            ) matches Some(Json::Object(a)) && group_user_data_read_from(a@, x.attributes)),
            _ => false,
        }
    }

    fn kind(&self) -> (r: NanoKind) {
        NanoKind::GroupUser
    }

    fn id(&self) -> (r: u64) {
        self.id
    }

    fn relationships(&self) -> (r: &Option<RelationInfo>) {
        &self.relationships
    }

    fn links(&self) -> (r: &Option<LinkInfo>) {
        &self.links
    }

    fn from_json(j: &Json) -> (r: Result<GroupUserObject, DecodeError>) {
        match j {
            Json::Object(o) => {
                let kind = field_tag(o)?;
                if kind != NanoKind::GroupUser {
                    return Err(error_at("type", DecodeCause::WrongKind));
                }
                GroupUserObject::from_fields(o)
            },
            _ => Err(not_an_object()),
        }
    }

    fn to_json(&self) -> (r: Json) {
        let mut e: Vec<(String, Json)> = Vec::new();
        push_head(&mut e, NanoKind::GroupUser, self.id, &self.relationships, &self.links);
        let ghost before = e@;
        e.push((String::from_str("attributes"), self.attributes.to_json()));
        proof {
            lemma_key_names();
            lemma_push_keeps(before, e@.last(), NanoKind::GroupUser, self.id);
            assert(e@ == before.push(e@.last()));
            lemma_lookup_push(before, e@.last(), "relationships"@);
            lemma_lookup_push_new(before, e@.last());
        }
        Json::Object(e)
    }
}

/// A resource of kind LocationGroup.
#[derive(Clone, Debug, PartialEq)]
pub struct LocationGroupObject {
    pub id: u64,
    pub relationships: Option<RelationInfo>,
    pub links: Option<LinkInfo>,
    pub attributes: LocationGroupData,
}

impl LocationGroupObject {
    /// Reads the fields of a resource whose tag has been checked.
    fn from_fields(o: &Vec<(String, Json)>) -> (r: Result<LocationGroupObject, DecodeError>)
        ensures
            r matches Ok(x) ==> (lookup(o@, "id"@) matches Some(i) && json_str_u64(i) == Some(x.id)),
            r matches Ok(x) ==> LocationGroupObject::read_from(Json::Object(*o), x),
            LocationGroupObject::wire_ok(Json::Object(*o)) ==> r is Ok,
            r is Ok ==> (tag_kind_of(o@) == Some(NanoKind::LocationGroup) ==> LocationGroupObject::wire_ok(Json::Object(*o))),
            tag_kind_of(o@) == Some(NanoKind::LocationGroup) ==> (r matches Err(e) ==> LocationGroupObject::failed_at(Json::Object(*o), e.path@)),
    {
        let id = field_str_u64(o, "id")?;
        let relationships = opt_relationships(o)?;
        let links = opt_links(o)?;
        let attributes = match get_field(o, "attributes") {
            Some(a) => match LocationGroupData::from_json(a) {
                Ok(x) => x,
                Err(e) => {
                    return Err(error_within("attributes", e));
                },
            },
            None => {
                return Err(error_at("attributes", DecodeCause::MissingField));
            },
        };
        Ok(LocationGroupObject { id, relationships, links, attributes })
    }
}

impl ObjectInfo for LocationGroupObject {
    open spec fn accepts_kind(k: NanoKind) -> bool {
        k == NanoKind::LocationGroup
    }

    open spec fn spec_kind(&self) -> NanoKind {
        NanoKind::LocationGroup
    }

    open spec fn spec_id(&self) -> u64 {
        self.id
    }

    open spec fn spec_relationships(&self) -> Option<RelationInfo> {
        self.relationships
    }

    open spec fn spec_links(&self) -> Option<LinkInfo> {
        self.links
    }

    open spec fn wire_ok(j: Json) -> bool {
        resource_ok(j, NanoKind::LocationGroup) && (j matches Json::Object(e) && (lookup(e@, "attributes"@) matches Some(
            a,
        ) && location_group_data_wire_ok(a)))
    }

    open spec fn failed_at(j: Json, p: Seq<String>) -> bool {
        resource_failed_at(j, NanoKind::LocationGroup, p, |q: Seq<String>| match j { Json::Object(e) => match lookup(e@, "attributes"@) { Some(Json::Object(a)) => q.len() == 2 && location_group_data_error_at(a@, q[1]@), _ => q.len() == 1 }, _ => true })
    }

    open spec fn written_as(j: Json, x: LocationGroupObject) -> bool {
        j matches Json::Object(e) && head_written(e@, x.relationships) && (lookup(e@, "attributes"@) matches Some(
            a,
        ) && (a matches Json::Object(ae) && location_group_data_written_as(ae@, x.attributes)))
    }

    open spec fn read_from(j: Json, x: LocationGroupObject) -> bool {
        match j {
            Json::Object(e) => relationships_read(e@, x.relationships) && links_read(e@, x.links) && (lookup(
                e@,
                "attributes"@,
            ) matches Some(Json::Object(a)) && location_group_data_read_from(a@, x.attributes)),
            _ => false,
        }
    }

    fn kind(&self) -> (r: NanoKind) {
        NanoKind::LocationGroup
    }

    fn id(&self) -> (r: u64) {
        self.id
    }

    fn relationships(&self) -> (r: &Option<RelationInfo>) {
        &self.relationships
    }

    fn links(&self) -> (r: &Option<LinkInfo>) {
        &self.links
    }

    fn from_json(j: &Json) -> (r: Result<LocationGroupObject, DecodeError>) {
        match j {
            Json::Object(o) => {
                let kind = field_tag(o)?;
                if kind != NanoKind::LocationGroup {
                    return Err(error_at("type", DecodeCause::WrongKind));
                }
                LocationGroupObject::from_fields(o)
            },
            _ => Err(not_an_object()),
        }
    }

    fn to_json(&self) -> (r: Json) {
        let mut e: Vec<(String, Json)> = Vec::new();
        push_head(&mut e, NanoKind::LocationGroup, self.id, &self.relationships, &self.links);
        let ghost before = e@;
        e.push((String::from_str("attributes"), self.attributes.to_json()));
        proof {
            lemma_key_names();
            lemma_push_keeps(before, e@.last(), NanoKind::LocationGroup, self.id);
            assert(e@ == before.push(e@.last()));
            lemma_lookup_push(before, e@.last(), "relationships"@);
            lemma_lookup_push_new(before, e@.last());
        }
        Json::Object(e)
    }
}

/// A resource of kind ProjectChallenge.
#[derive(Clone, Debug, PartialEq)]
pub struct ProjectChallengeObject {
    pub id: u64,
    pub relationships: Option<RelationInfo>,
    pub links: Option<LinkInfo>,
    pub attributes: ProjectChallengeData,
}

impl ProjectChallengeObject {
    /// Reads the fields of a resource whose tag has been checked.
    fn from_fields(o: &Vec<(String, Json)>) -> (r: Result<ProjectChallengeObject, DecodeError>)
        ensures
            r matches Ok(x) ==> (lookup(o@, "id"@) matches Some(i) && json_str_u64(i) == Some(x.id)),
            r matches Ok(x) ==> ProjectChallengeObject::read_from(Json::Object(*o), x),
            ProjectChallengeObject::wire_ok(Json::Object(*o)) ==> r is Ok,
            r is Ok ==> (tag_kind_of(o@) == Some(NanoKind::ProjectChallenge) ==> ProjectChallengeObject::wire_ok(Json::Object(*o))),
            tag_kind_of(o@) == Some(NanoKind::ProjectChallenge) ==> (r matches Err(e) ==> ProjectChallengeObject::failed_at(Json::Object(*o), e.path@)),
    {
        let id = field_str_u64(o, "id")?;
        let relationships = opt_relationships(o)?;
        let links = opt_links(o)?;
        let attributes = match get_field(o, "attributes") {
            Some(a) => match ProjectChallengeData::from_json(a) {
                Ok(x) => x,
                Err(e) => {
                    return Err(error_within("attributes", e));
                },
            },
            None => {
                return Err(error_at("attributes", DecodeCause::MissingField));
            },
        };
        Ok(ProjectChallengeObject { id, relationships, links, attributes })
    }
}

impl ObjectInfo for ProjectChallengeObject {
    open spec fn accepts_kind(k: NanoKind) -> bool {
        k == NanoKind::ProjectChallenge
    }

    open spec fn spec_kind(&self) -> NanoKind {
        NanoKind::ProjectChallenge
    }

    open spec fn spec_id(&self) -> u64 {
        self.id
    }

    open spec fn spec_relationships(&self) -> Option<RelationInfo> {
        self.relationships
    }

    open spec fn spec_links(&self) -> Option<LinkInfo> {
        self.links
    }

    open spec fn wire_ok(j: Json) -> bool {
        resource_ok(j, NanoKind::ProjectChallenge) && (j matches Json::Object(e) && (lookup(e@, "attributes"@) matches Some(
            a,
        ) && project_challenge_data_wire_ok(a)))
    }

    open spec fn failed_at(j: Json, p: Seq<String>) -> bool {
        resource_failed_at(j, NanoKind::ProjectChallenge, p, |q: Seq<String>| match j { Json::Object(e) => match lookup(e@, "attributes"@) { Some(Json::Object(a)) => q.len() == 2 && project_challenge_data_error_at(a@, q[1]@), _ => q.len() == 1 }, _ => true })
    }

    open spec fn written_as(j: Json, x: ProjectChallengeObject) -> bool {
        j matches Json::Object(e) && head_written(e@, x.relationships) && (lookup(e@, "attributes"@) matches Some(
            a,
        ) && (a matches Json::Object(ae) && project_challenge_data_written_as(ae@, x.attributes)))
    }

    open spec fn read_from(j: Json, x: ProjectChallengeObject) -> bool {
        match j {
            Json::Object(e) => relationships_read(e@, x.relationships) && links_read(e@, x.links) && (lookup(
                e@,
                "attributes"@,
            ) matches Some(Json::Object(a)) && project_challenge_data_read_from(a@, x.attributes)),
            _ => false,
        }
    }

    fn kind(&self) -> (r: NanoKind) {
        NanoKind::ProjectChallenge
    }

    fn id(&self) -> (r: u64) {
        self.id
    }

    fn relationships(&self) -> (r: &Option<RelationInfo>) {
        &self.relationships
    }

    fn links(&self) -> (r: &Option<LinkInfo>) {
        &self.links
    }

    fn from_json(j: &Json) -> (r: Result<ProjectChallengeObject, DecodeError>) {
        match j {
            Json::Object(o) => {
                let kind = field_tag(o)?;
                if kind != NanoKind::ProjectChallenge {
                    return Err(error_at("type", DecodeCause::WrongKind));
                }
                ProjectChallengeObject::from_fields(o)
            },
            _ => Err(not_an_object()),
        }
    }

    fn to_json(&self) -> (r: Json) {
        let mut e: Vec<(String, Json)> = Vec::new();
        push_head(&mut e, NanoKind::ProjectChallenge, self.id, &self.relationships, &self.links);
        let ghost before = e@;
        e.push((String::from_str("attributes"), self.attributes.to_json()));
        proof {
            lemma_key_names();
            lemma_push_keeps(before, e@.last(), NanoKind::ProjectChallenge, self.id);
            assert(e@ == before.push(e@.last()));
            lemma_lookup_push(before, e@.last(), "relationships"@);
            lemma_lookup_push_new(before, e@.last());
        }
        Json::Object(e)
    }
}

/// A resource of kind UserBadge.
#[derive(Clone, Debug, PartialEq)]
pub struct UserBadgeObject {
    pub id: u64,
    pub relationships: Option<RelationInfo>,
    pub links: Option<LinkInfo>,
    pub attributes: UserBadgeData,
}

impl UserBadgeObject {
    /// Reads the fields of a resource whose tag has been checked.
    fn from_fields(o: &Vec<(String, Json)>) -> (r: Result<UserBadgeObject, DecodeError>)
        ensures
            r matches Ok(x) ==> (lookup(o@, "id"@) matches Some(i) && json_str_u64(i) == Some(x.id)),
            r matches Ok(x) ==> UserBadgeObject::read_from(Json::Object(*o), x),
            UserBadgeObject::wire_ok(Json::Object(*o)) ==> r is Ok,
            r is Ok ==> (tag_kind_of(o@) == Some(NanoKind::UserBadge) ==> UserBadgeObject::wire_ok(Json::Object(*o))),
            tag_kind_of(o@) == Some(NanoKind::UserBadge) ==> (r matches Err(e) ==> UserBadgeObject::failed_at(Json::Object(*o), e.path@)),
    {
        let id = field_str_u64(o, "id")?;
        let relationships = opt_relationships(o)?;
        let links = opt_links(o)?;
        let attributes = match get_field(o, "attributes") {
            Some(a) => match UserBadgeData::from_json(a) {
                Ok(x) => x,
                Err(e) => {
                    return Err(error_within("attributes", e));
                },
            },
            None => {
                return Err(error_at("attributes", DecodeCause::MissingField));
            },
        };
        Ok(UserBadgeObject { id, relationships, links, attributes })
    }
}

impl ObjectInfo for UserBadgeObject {
    open spec fn accepts_kind(k: NanoKind) -> bool {
        k == NanoKind::UserBadge
    }

    open spec fn spec_kind(&self) -> NanoKind {
        NanoKind::UserBadge
    }

    open spec fn spec_id(&self) -> u64 {
        self.id
    }

    open spec fn spec_relationships(&self) -> Option<RelationInfo> {
        self.relationships
    }

    open spec fn spec_links(&self) -> Option<LinkInfo> {
        self.links
    }

    open spec fn wire_ok(j: Json) -> bool {
        resource_ok(j, NanoKind::UserBadge) && (j matches Json::Object(e) && (lookup(e@, "attributes"@) matches Some(
            a,
        ) && user_badge_data_wire_ok(a)))
    }

    open spec fn failed_at(j: Json, p: Seq<String>) -> bool {
        resource_failed_at(j, NanoKind::UserBadge, p, |q: Seq<String>| match j { Json::Object(e) => match lookup(e@, "attributes"@) { Some(Json::Object(a)) => q.len() == 2 && user_badge_data_error_at(a@, q[1]@), _ => q.len() == 1 }, _ => true })
    }

    open spec fn written_as(j: Json, x: UserBadgeObject) -> bool {
        j matches Json::Object(e) && head_written(e@, x.relationships) && (lookup(e@, "attributes"@) matches Some(
            a,
        ) && (a matches Json::Object(ae) && user_badge_data_written_as(ae@, x.attributes)))
    }

    open spec fn read_from(j: Json, x: UserBadgeObject) -> bool {
        match j {
            Json::Object(e) => relationships_read(e@, x.relationships) && links_read(e@, x.links) && (lookup(
                e@,
                "attributes"@,
            ) matches Some(Json::Object(a)) && user_badge_data_read_from(a@, x.attributes)),
            _ => false,
        }
    }

    fn kind(&self) -> (r: NanoKind) {
        NanoKind::UserBadge
    }

    fn id(&self) -> (r: u64) {
        self.id
    }

    fn relationships(&self) -> (r: &Option<RelationInfo>) {
        &self.relationships
    }

    fn links(&self) -> (r: &Option<LinkInfo>) {
        &self.links
    }

    fn from_json(j: &Json) -> (r: Result<UserBadgeObject, DecodeError>) {
        match j {
            Json::Object(o) => {
                let kind = field_tag(o)?;
                if kind != NanoKind::UserBadge {
                    return Err(error_at("type", DecodeCause::WrongKind));
                }
                UserBadgeObject::from_fields(o)
            },
            _ => Err(not_an_object()),
        }
    }

    fn to_json(&self) -> (r: Json) {
        let mut e: Vec<(String, Json)> = Vec::new();
        push_head(&mut e, NanoKind::UserBadge, self.id, &self.relationships, &self.links);
        let ghost before = e@;
        e.push((String::from_str("attributes"), self.attributes.to_json()));
        proof {
            lemma_key_names();
            lemma_push_keeps(before, e@.last(), NanoKind::UserBadge, self.id);
            assert(e@ == before.push(e@.last()));
            lemma_lookup_push(before, e@.last(), "relationships"@);
            lemma_lookup_push_new(before, e@.last());
        }
        Json::Object(e)
    }
}

/// Any resource, of whichever kind its `type` tag names.
#[derive(Clone, Debug, PartialEq)]
pub enum Object {
    Badge(BadgeObject),
    Challenge(ChallengeObject),
    DailyAggregate(DailyAggregateObject),
    FavoriteAuthor(FavoriteAuthorObject),
    FavoriteBook(FavoriteBookObject),
    Genre(GenreObject),
    Group(GroupObject),
    GroupExternalLink(GroupExternalLinkObject),
    Location(LocationObject),
    NanoMessage(NanoMessageObject),
    Notification(NotificationObject),
    Page(PageObject),
    Post(PostObject),
    Project(ProjectObject),
    ProjectSession(ProjectSessionObject),
    StopWatch(StopWatchObject),
    Timer(TimerObject),
    User(UserObject),
    WritingLocation(WritingLocationObject),
    WritingMethod(WritingMethodObject),
    GroupUser(GroupUserObject),
    LocationGroup(LocationGroupObject),
    ProjectChallenge(ProjectChallengeObject),
    UserBadge(UserBadgeObject),
}

impl Object {
    /// This resource as kind Badge; it must be of that kind.
    pub fn unwrap_badge(&self) -> (r: &BadgeObject)
        requires
            self is Badge,
        ensures
            *self == Object::Badge(*r),
    {
        match self {
            Object::Badge(x) => x,
            _ => unreached(),
        }
    }

    /// This resource as kind Challenge; it must be of that kind.
    pub fn unwrap_challenge(&self) -> (r: &ChallengeObject)
        requires
            self is Challenge,
        ensures
            *self == Object::Challenge(*r),
    {
        match self {
            Object::Challenge(x) => x,
            _ => unreached(),
        }
    }

    /// This resource as kind DailyAggregate; it must be of that kind.
    pub fn unwrap_daily_aggregate(&self) -> (r: &DailyAggregateObject)
        requires
            self is DailyAggregate,
        ensures
            *self == Object::DailyAggregate(*r),
    {
        match self {
            Object::DailyAggregate(x) => x,
            _ => unreached(),
        }
    }

    /// This resource as kind FavoriteAuthor; it must be of that kind.
    pub fn unwrap_favorite_author(&self) -> (r: &FavoriteAuthorObject)
        requires
            self is FavoriteAuthor,
        ensures
            *self == Object::FavoriteAuthor(*r),
    {
        match self {
            Object::FavoriteAuthor(x) => x,
            _ => unreached(),
        }
    }

    /// This resource as kind FavoriteBook; it must be of that kind.
    pub fn unwrap_favorite_book(&self) -> (r: &FavoriteBookObject)
        requires
            self is FavoriteBook,
        ensures
            *self == Object::FavoriteBook(*r),
    {
        match self {
            Object::FavoriteBook(x) => x,
            _ => unreached(),
        }
    }

    /// This resource as kind Genre; it must be of that kind.
    pub fn unwrap_genre(&self) -> (r: &GenreObject)
        requires
            self is Genre,
        ensures
            *self == Object::Genre(*r),
    {
        match self {
            Object::Genre(x) => x,
            _ => unreached(),
        }
    }

    /// This resource as kind Group; it must be of that kind.
    pub fn unwrap_group(&self) -> (r: &GroupObject)
        requires
            self is Group,
        ensures
            *self == Object::Group(*r),
    {
        match self {
            Object::Group(x) => x,
            _ => unreached(),
        }
    }

    /// This resource as kind GroupExternalLink; it must be of that kind.
    pub fn unwrap_group_external_link(&self) -> (r: &GroupExternalLinkObject)
        requires
            self is GroupExternalLink,
        ensures
            *self == Object::GroupExternalLink(*r),
    {
        match self {
            Object::GroupExternalLink(x) => x,
            _ => unreached(),
        }
    }

    /// This resource as kind Location; it must be of that kind.
    pub fn unwrap_location(&self) -> (r: &LocationObject)
        requires
            self is Location,
        ensures
            *self == Object::Location(*r),
    {
        match self {
            Object::Location(x) => x,
            _ => unreached(),
        }
    }

    /// This resource as kind NanoMessage; it must be of that kind.
    pub fn unwrap_nano_message(&self) -> (r: &NanoMessageObject)
        requires
            self is NanoMessage,
        ensures
            *self == Object::NanoMessage(*r),
    {
        match self {
            Object::NanoMessage(x) => x,
            _ => unreached(),
        }
    }

    /// This resource as kind Notification; it must be of that kind.
    pub fn unwrap_notification(&self) -> (r: &NotificationObject)
        requires
            self is Notification,
        ensures
            *self == Object::Notification(*r),
    {
        match self {
            Object::Notification(x) => x,
            _ => unreached(),
        }
    }

    /// This resource as kind Page; it must be of that kind.
    pub fn unwrap_page(&self) -> (r: &PageObject)
        requires
            self is Page,
        ensures
            *self == Object::Page(*r),
    {
        match self {
            Object::Page(x) => x,
            _ => unreached(),
        }
    }

    /// This resource as kind Post; it must be of that kind.
    pub fn unwrap_post(&self) -> (r: &PostObject)
        requires
            self is Post,
        ensures
            *self == Object::Post(*r),
    {
        match self {
            Object::Post(x) => x,
            _ => unreached(),
        }
    }

    /// This resource as kind Project; it must be of that kind.
    pub fn unwrap_project(&self) -> (r: &ProjectObject)
        requires
            self is Project,
        ensures
            *self == Object::Project(*r),
    {
        match self {
            Object::Project(x) => x,
            _ => unreached(),
        }
    }

    /// This resource as kind ProjectSession; it must be of that kind.
    pub fn unwrap_project_session(&self) -> (r: &ProjectSessionObject)
        requires
            self is ProjectSession,
        ensures
            *self == Object::ProjectSession(*r),
    {
        match self {
            Object::ProjectSession(x) => x,
            _ => unreached(),
        }
    }

    /// This resource as kind StopWatch; it must be of that kind.
    pub fn unwrap_stop_watch(&self) -> (r: &StopWatchObject)
        requires
            self is StopWatch,
        ensures
            *self == Object::StopWatch(*r),
    {
        match self {
            Object::StopWatch(x) => x,
            _ => unreached(),
        }
    }

    /// This resource as kind Timer; it must be of that kind.
    pub fn unwrap_timer(&self) -> (r: &TimerObject)
        requires
            self is Timer,
        ensures
            *self == Object::Timer(*r),
    {
        match self {
            Object::Timer(x) => x,
            _ => unreached(),
        }
    }

    /// This resource as kind User; it must be of that kind.
    pub fn unwrap_user(&self) -> (r: &UserObject)
        requires
            self is User,
        ensures
            *self == Object::User(*r),
    {
        match self {
            Object::User(x) => x,
            _ => unreached(),
        }
    }

    /// This resource as kind WritingLocation; it must be of that kind.
    pub fn unwrap_writing_location(&self) -> (r: &WritingLocationObject)
        requires
            self is WritingLocation,
        ensures
            *self == Object::WritingLocation(*r),
    {
        match self {
            Object::WritingLocation(x) => x,
            _ => unreached(),
        }
    }

    /// This resource as kind WritingMethod; it must be of that kind.
    pub fn unwrap_writing_method(&self) -> (r: &WritingMethodObject)
        requires
            self is WritingMethod,
        ensures
            *self == Object::WritingMethod(*r),
    {
        match self {
            Object::WritingMethod(x) => x,
            _ => unreached(),
        }
    }

    /// This resource as kind GroupUser; it must be of that kind.
    pub fn unwrap_group_user(&self) -> (r: &GroupUserObject)
        requires
            self is GroupUser,
        ensures
            *self == Object::GroupUser(*r),
    {
        match self {
            Object::GroupUser(x) => x,
            _ => unreached(),
        }
    }

    /// This resource as kind LocationGroup; it must be of that kind.
    pub fn unwrap_location_group(&self) -> (r: &LocationGroupObject)
        requires
            self is LocationGroup,
        ensures
            *self == Object::LocationGroup(*r),
    {
        match self {
            Object::LocationGroup(x) => x,
            _ => unreached(),
        }
    }

    /// This resource as kind ProjectChallenge; it must be of that kind.
    pub fn unwrap_project_challenge(&self) -> (r: &ProjectChallengeObject)
        requires
            self is ProjectChallenge,
        ensures
            *self == Object::ProjectChallenge(*r),
    {
        match self {
            Object::ProjectChallenge(x) => x,
            _ => unreached(),
        }
    }

    /// This resource as kind UserBadge; it must be of that kind.
    pub fn unwrap_user_badge(&self) -> (r: &UserBadgeObject)
        requires
            self is UserBadge,
        ensures
            *self == Object::UserBadge(*r),
    {
        match self {
            Object::UserBadge(x) => x,
            _ => unreached(),
        }
    }

}

impl ObjectInfo for Object {
    open spec fn accepts_kind(k: NanoKind) -> bool {
        true
    }

    open spec fn spec_kind(&self) -> NanoKind {
        match self {
            Object::Badge(_) => NanoKind::Badge,
            Object::Challenge(_) => NanoKind::Challenge,
            Object::DailyAggregate(_) => NanoKind::DailyAggregate,
            Object::FavoriteAuthor(_) => NanoKind::FavoriteAuthor,
            Object::FavoriteBook(_) => NanoKind::FavoriteBook,
            Object::Genre(_) => NanoKind::Genre,
            Object::Group(_) => NanoKind::Group,
            Object::GroupExternalLink(_) => NanoKind::GroupExternalLink,
            Object::Location(_) => NanoKind::Location,
            Object::NanoMessage(_) => NanoKind::NanoMessage,
            Object::Notification(_) => NanoKind::Notification,
            Object::Page(_) => NanoKind::Page,
            Object::Post(_) => NanoKind::Post,
            Object::Project(_) => NanoKind::Project,
            Object::ProjectSession(_) => NanoKind::ProjectSession,
            Object::StopWatch(_) => NanoKind::StopWatch,
            Object::Timer(_) => NanoKind::Timer,
            Object::User(_) => NanoKind::User,
            Object::WritingLocation(_) => NanoKind::WritingLocation,
            Object::WritingMethod(_) => NanoKind::WritingMethod,
            Object::GroupUser(_) => NanoKind::GroupUser,
            Object::LocationGroup(_) => NanoKind::LocationGroup,
            Object::ProjectChallenge(_) => NanoKind::ProjectChallenge,
            Object::UserBadge(_) => NanoKind::UserBadge,
        }
    }

    open spec fn spec_id(&self) -> u64 {
        match self {
            Object::Badge(x) => x.id,
            Object::Challenge(x) => x.id,
            Object::DailyAggregate(x) => x.id,
            Object::FavoriteAuthor(x) => x.id,
            Object::FavoriteBook(x) => x.id,
            Object::Genre(x) => x.id,
            Object::Group(x) => x.id,
            Object::GroupExternalLink(x) => x.id,
            Object::Location(x) => x.id,
            Object::NanoMessage(x) => x.id,
            Object::Notification(x) => x.id,
            Object::Page(x) => x.id,
            Object::Post(x) => x.id,
            Object::Project(x) => x.id,
            Object::ProjectSession(x) => x.id,
            Object::StopWatch(x) => x.id,
            Object::Timer(x) => x.id,
            Object::User(x) => x.id,
            Object::WritingLocation(x) => x.id,
            Object::WritingMethod(x) => x.id,
            Object::GroupUser(x) => x.id,
            Object::LocationGroup(x) => x.id,
            Object::ProjectChallenge(x) => x.id,
            Object::UserBadge(x) => x.id,
        }
    }

    open spec fn spec_relationships(&self) -> Option<RelationInfo> {
        match self {
            Object::Badge(x) => x.relationships,
            Object::Challenge(x) => x.relationships,
            Object::DailyAggregate(x) => x.relationships,
            Object::FavoriteAuthor(x) => x.relationships,
            Object::FavoriteBook(x) => x.relationships,
            Object::Genre(x) => x.relationships,
            Object::Group(x) => x.relationships,
            Object::GroupExternalLink(x) => x.relationships,
            Object::Location(x) => x.relationships,
            Object::NanoMessage(x) => x.relationships,
            Object::Notification(x) => x.relationships,
            Object::Page(x) => x.relationships,
            Object::Post(x) => x.relationships,
            Object::Project(x) => x.relationships,
            Object::ProjectSession(x) => x.relationships,
            Object::StopWatch(x) => x.relationships,
            Object::Timer(x) => x.relationships,
            Object::User(x) => x.relationships,
            Object::WritingLocation(x) => x.relationships,
            Object::WritingMethod(x) => x.relationships,
            Object::GroupUser(x) => x.relationships,
            Object::LocationGroup(x) => x.relationships,
            Object::ProjectChallenge(x) => x.relationships,
            Object::UserBadge(x) => x.relationships,
        }
    }

    open spec fn spec_links(&self) -> Option<LinkInfo> {
        match self {
            Object::Badge(x) => x.links,
            Object::Challenge(x) => x.links,
            Object::DailyAggregate(x) => x.links,
            Object::FavoriteAuthor(x) => x.links,
            Object::FavoriteBook(x) => x.links,
            Object::Genre(x) => x.links,
            Object::Group(x) => x.links,
            Object::GroupExternalLink(x) => x.links,
            Object::Location(x) => x.links,
            Object::NanoMessage(x) => x.links,
            Object::Notification(x) => x.links,
            Object::Page(x) => x.links,
            Object::Post(x) => x.links,
            Object::Project(x) => x.links,
            Object::ProjectSession(x) => x.links,
            Object::StopWatch(x) => x.links,
            Object::Timer(x) => x.links,
            Object::User(x) => x.links,
            Object::WritingLocation(x) => x.links,
            Object::WritingMethod(x) => x.links,
            Object::GroupUser(x) => x.links,
            Object::LocationGroup(x) => x.links,
            Object::ProjectChallenge(x) => x.links,
            Object::UserBadge(x) => x.links,
        }
    }

    open spec fn read_from(j: Json, x: Object) -> bool {
        match x {
            Object::Badge(y) => BadgeObject::read_from(j, y),
            Object::Challenge(y) => ChallengeObject::read_from(j, y),
            Object::DailyAggregate(y) => DailyAggregateObject::read_from(j, y),
            Object::FavoriteAuthor(y) => FavoriteAuthorObject::read_from(j, y),
            Object::FavoriteBook(y) => FavoriteBookObject::read_from(j, y),
            Object::Genre(y) => GenreObject::read_from(j, y),
            Object::Group(y) => GroupObject::read_from(j, y),
            Object::GroupExternalLink(y) => GroupExternalLinkObject::read_from(j, y),
            Object::Location(y) => LocationObject::read_from(j, y),
            Object::NanoMessage(y) => NanoMessageObject::read_from(j, y),
            Object::Notification(y) => NotificationObject::read_from(j, y),
            Object::Page(y) => PageObject::read_from(j, y),
            Object::Post(y) => PostObject::read_from(j, y),
            Object::Project(y) => ProjectObject::read_from(j, y),
            Object::ProjectSession(y) => ProjectSessionObject::read_from(j, y),
            Object::StopWatch(y) => StopWatchObject::read_from(j, y),
            Object::Timer(y) => TimerObject::read_from(j, y),
            Object::User(y) => UserObject::read_from(j, y),
            Object::WritingLocation(y) => WritingLocationObject::read_from(j, y),
            Object::WritingMethod(y) => WritingMethodObject::read_from(j, y),
            Object::GroupUser(y) => GroupUserObject::read_from(j, y),
            Object::LocationGroup(y) => LocationGroupObject::read_from(j, y),
            Object::ProjectChallenge(y) => ProjectChallengeObject::read_from(j, y),
            Object::UserBadge(y) => UserBadgeObject::read_from(j, y),
        }
    }

    open spec fn wire_ok(j: Json) -> bool {
        match tag_kind(j) {
            Some(NanoKind::Badge) => BadgeObject::wire_ok(j),
            Some(NanoKind::Challenge) => ChallengeObject::wire_ok(j),
            Some(NanoKind::DailyAggregate) => DailyAggregateObject::wire_ok(j),
            Some(NanoKind::FavoriteAuthor) => FavoriteAuthorObject::wire_ok(j),
            Some(NanoKind::FavoriteBook) => FavoriteBookObject::wire_ok(j),
            Some(NanoKind::Genre) => GenreObject::wire_ok(j),
            Some(NanoKind::Group) => GroupObject::wire_ok(j),
            Some(NanoKind::GroupExternalLink) => GroupExternalLinkObject::wire_ok(j),
            Some(NanoKind::Location) => LocationObject::wire_ok(j),
            Some(NanoKind::NanoMessage) => NanoMessageObject::wire_ok(j),
            Some(NanoKind::Notification) => NotificationObject::wire_ok(j),
            Some(NanoKind::Page) => PageObject::wire_ok(j),
            Some(NanoKind::Post) => PostObject::wire_ok(j),
            Some(NanoKind::Project) => ProjectObject::wire_ok(j),
            Some(NanoKind::ProjectSession) => ProjectSessionObject::wire_ok(j),
            Some(NanoKind::StopWatch) => StopWatchObject::wire_ok(j),
            Some(NanoKind::Timer) => TimerObject::wire_ok(j),
            Some(NanoKind::User) => UserObject::wire_ok(j),
            Some(NanoKind::WritingLocation) => WritingLocationObject::wire_ok(j),
            Some(NanoKind::WritingMethod) => WritingMethodObject::wire_ok(j),
            Some(NanoKind::GroupUser) => GroupUserObject::wire_ok(j),
            Some(NanoKind::LocationGroup) => LocationGroupObject::wire_ok(j),
            Some(NanoKind::ProjectChallenge) => ProjectChallengeObject::wire_ok(j),
            Some(NanoKind::UserBadge) => UserBadgeObject::wire_ok(j),
            None => false,
        }
    }

    open spec fn failed_at(j: Json, p: Seq<String>) -> bool {
        match tag_kind(j) {
            Some(NanoKind::Badge) => BadgeObject::failed_at(j, p),
            Some(NanoKind::Challenge) => ChallengeObject::failed_at(j, p),
            Some(NanoKind::DailyAggregate) => DailyAggregateObject::failed_at(j, p),
            Some(NanoKind::FavoriteAuthor) => FavoriteAuthorObject::failed_at(j, p),
            Some(NanoKind::FavoriteBook) => FavoriteBookObject::failed_at(j, p),
            Some(NanoKind::Genre) => GenreObject::failed_at(j, p),
            Some(NanoKind::Group) => GroupObject::failed_at(j, p),
            Some(NanoKind::GroupExternalLink) => GroupExternalLinkObject::failed_at(j, p),
            Some(NanoKind::Location) => LocationObject::failed_at(j, p),
            Some(NanoKind::NanoMessage) => NanoMessageObject::failed_at(j, p),
            Some(NanoKind::Notification) => NotificationObject::failed_at(j, p),
            Some(NanoKind::Page) => PageObject::failed_at(j, p),
            Some(NanoKind::Post) => PostObject::failed_at(j, p),
            Some(NanoKind::Project) => ProjectObject::failed_at(j, p),
            Some(NanoKind::ProjectSession) => ProjectSessionObject::failed_at(j, p),
            Some(NanoKind::StopWatch) => StopWatchObject::failed_at(j, p),
            Some(NanoKind::Timer) => TimerObject::failed_at(j, p),
            Some(NanoKind::User) => UserObject::failed_at(j, p),
            Some(NanoKind::WritingLocation) => WritingLocationObject::failed_at(j, p),
            Some(NanoKind::WritingMethod) => WritingMethodObject::failed_at(j, p),
            Some(NanoKind::GroupUser) => GroupUserObject::failed_at(j, p),
            Some(NanoKind::LocationGroup) => LocationGroupObject::failed_at(j, p),
            Some(NanoKind::ProjectChallenge) => ProjectChallengeObject::failed_at(j, p),
            Some(NanoKind::UserBadge) => UserBadgeObject::failed_at(j, p),
            None => if j is Object {
                p.len() == 1 && p[0]@ == "type"@
            } else {
                p.len() == 0
            },
        }
    }

    open spec fn written_as(j: Json, x: Object) -> bool {
        match x {
            Object::Badge(y) => BadgeObject::written_as(j, y),
            Object::Challenge(y) => ChallengeObject::written_as(j, y),
            Object::DailyAggregate(y) => DailyAggregateObject::written_as(j, y),
            Object::FavoriteAuthor(y) => FavoriteAuthorObject::written_as(j, y),
            Object::FavoriteBook(y) => FavoriteBookObject::written_as(j, y),
            Object::Genre(y) => GenreObject::written_as(j, y),
            Object::Group(y) => GroupObject::written_as(j, y),
            Object::GroupExternalLink(y) => GroupExternalLinkObject::written_as(j, y),
            Object::Location(y) => LocationObject::written_as(j, y),
            Object::NanoMessage(y) => NanoMessageObject::written_as(j, y),
            Object::Notification(y) => NotificationObject::written_as(j, y),
            Object::Page(y) => PageObject::written_as(j, y),
            Object::Post(y) => PostObject::written_as(j, y),
            Object::Project(y) => ProjectObject::written_as(j, y),
            Object::ProjectSession(y) => ProjectSessionObject::written_as(j, y),
            Object::StopWatch(y) => StopWatchObject::written_as(j, y),
            Object::Timer(y) => TimerObject::written_as(j, y),
            Object::User(y) => UserObject::written_as(j, y),
            Object::WritingLocation(y) => WritingLocationObject::written_as(j, y),
            Object::WritingMethod(y) => WritingMethodObject::written_as(j, y),
            Object::GroupUser(y) => GroupUserObject::written_as(j, y),
            Object::LocationGroup(y) => LocationGroupObject::written_as(j, y),
            Object::ProjectChallenge(y) => ProjectChallengeObject::written_as(j, y),
            Object::UserBadge(y) => UserBadgeObject::written_as(j, y),
        }
    }

    fn kind(&self) -> (r: NanoKind) {
        match self {
            Object::Badge(x) => x.kind(),
            Object::Challenge(x) => x.kind(),
            Object::DailyAggregate(x) => x.kind(),
            Object::FavoriteAuthor(x) => x.kind(),
            Object::FavoriteBook(x) => x.kind(),
            Object::Genre(x) => x.kind(),
            Object::Group(x) => x.kind(),
            Object::GroupExternalLink(x) => x.kind(),
            Object::Location(x) => x.kind(),
            Object::NanoMessage(x) => x.kind(),
            Object::Notification(x) => x.kind(),
            Object::Page(x) => x.kind(),
            Object::Post(x) => x.kind(),
            Object::Project(x) => x.kind(),
            Object::ProjectSession(x) => x.kind(),
            Object::StopWatch(x) => x.kind(),
            Object::Timer(x) => x.kind(),
            Object::User(x) => x.kind(),
            Object::WritingLocation(x) => x.kind(),
            Object::WritingMethod(x) => x.kind(),
            Object::GroupUser(x) => x.kind(),
            Object::LocationGroup(x) => x.kind(),
            Object::ProjectChallenge(x) => x.kind(),
            Object::UserBadge(x) => x.kind(),
        }
    }

    fn id(&self) -> (r: u64) {
        match self {
            Object::Badge(x) => x.id(),
            Object::Challenge(x) => x.id(),
            Object::DailyAggregate(x) => x.id(),
            Object::FavoriteAuthor(x) => x.id(),
            Object::FavoriteBook(x) => x.id(),
            Object::Genre(x) => x.id(),
            Object::Group(x) => x.id(),
            Object::GroupExternalLink(x) => x.id(),
            Object::Location(x) => x.id(),
            Object::NanoMessage(x) => x.id(),
            Object::Notification(x) => x.id(),
            Object::Page(x) => x.id(),
            Object::Post(x) => x.id(),
            Object::Project(x) => x.id(),
            Object::ProjectSession(x) => x.id(),
            Object::StopWatch(x) => x.id(),
            Object::Timer(x) => x.id(),
            Object::User(x) => x.id(),
            Object::WritingLocation(x) => x.id(),
            Object::WritingMethod(x) => x.id(),
            Object::GroupUser(x) => x.id(),
            Object::LocationGroup(x) => x.id(),
            Object::ProjectChallenge(x) => x.id(),
            Object::UserBadge(x) => x.id(),
        }
    }

    fn relationships(&self) -> (r: &Option<RelationInfo>) {
        match self {
            Object::Badge(x) => x.relationships(),
            Object::Challenge(x) => x.relationships(),
            Object::DailyAggregate(x) => x.relationships(),
            Object::FavoriteAuthor(x) => x.relationships(),
            Object::FavoriteBook(x) => x.relationships(),
            Object::Genre(x) => x.relationships(),
            Object::Group(x) => x.relationships(),
            Object::GroupExternalLink(x) => x.relationships(),
            Object::Location(x) => x.relationships(),
            Object::NanoMessage(x) => x.relationships(),
            Object::Notification(x) => x.relationships(),
            Object::Page(x) => x.relationships(),
            Object::Post(x) => x.relationships(),
            Object::Project(x) => x.relationships(),
            Object::ProjectSession(x) => x.relationships(),
            Object::StopWatch(x) => x.relationships(),
            Object::Timer(x) => x.relationships(),
            Object::User(x) => x.relationships(),
            Object::WritingLocation(x) => x.relationships(),
            Object::WritingMethod(x) => x.relationships(),
            Object::GroupUser(x) => x.relationships(),
            Object::LocationGroup(x) => x.relationships(),
            Object::ProjectChallenge(x) => x.relationships(),
            Object::UserBadge(x) => x.relationships(),
        }
    }

    fn links(&self) -> (r: &Option<LinkInfo>) {
        match self {
            Object::Badge(x) => x.links(),
            Object::Challenge(x) => x.links(),
            Object::DailyAggregate(x) => x.links(),
            Object::FavoriteAuthor(x) => x.links(),
            Object::FavoriteBook(x) => x.links(),
            Object::Genre(x) => x.links(),
            Object::Group(x) => x.links(),
            Object::GroupExternalLink(x) => x.links(),
            Object::Location(x) => x.links(),
            Object::NanoMessage(x) => x.links(),
            Object::Notification(x) => x.links(),
            Object::Page(x) => x.links(),
            Object::Post(x) => x.links(),
            Object::Project(x) => x.links(),
            Object::ProjectSession(x) => x.links(),
            Object::StopWatch(x) => x.links(),
            Object::Timer(x) => x.links(),
            Object::User(x) => x.links(),
            Object::WritingLocation(x) => x.links(),
            Object::WritingMethod(x) => x.links(),
            Object::GroupUser(x) => x.links(),
            Object::LocationGroup(x) => x.links(),
            Object::ProjectChallenge(x) => x.links(),
            Object::UserBadge(x) => x.links(),
        }
    }

    fn from_json(j: &Json) -> (r: Result<Object, DecodeError>) {
        match j {
            Json::Object(o) => {
                let kind = field_tag(o)?;
                match kind {
                    NanoKind::Badge => Ok(Object::Badge(BadgeObject::from_fields(o)?)),
                    NanoKind::Challenge => Ok(Object::Challenge(ChallengeObject::from_fields(o)?)),
                    NanoKind::DailyAggregate => Ok(Object::DailyAggregate(DailyAggregateObject::from_fields(o)?)),
                    NanoKind::FavoriteAuthor => Ok(Object::FavoriteAuthor(FavoriteAuthorObject::from_fields(o)?)),
                    NanoKind::FavoriteBook => Ok(Object::FavoriteBook(FavoriteBookObject::from_fields(o)?)),
                    NanoKind::Genre => Ok(Object::Genre(GenreObject::from_fields(o)?)),
                    NanoKind::Group => Ok(Object::Group(GroupObject::from_fields(o)?)),
                    NanoKind::GroupExternalLink => Ok(Object::GroupExternalLink(GroupExternalLinkObject::from_fields(o)?)),
                    NanoKind::Location => Ok(Object::Location(LocationObject::from_fields(o)?)),
                    NanoKind::NanoMessage => Ok(Object::NanoMessage(NanoMessageObject::from_fields(o)?)),
                    NanoKind::Notification => Ok(Object::Notification(NotificationObject::from_fields(o)?)),
                    NanoKind::Page => Ok(Object::Page(PageObject::from_fields(o)?)),
                    NanoKind::Post => Ok(Object::Post(PostObject::from_fields(o)?)),
                    NanoKind::Project => Ok(Object::Project(ProjectObject::from_fields(o)?)),
                    NanoKind::ProjectSession => Ok(Object::ProjectSession(ProjectSessionObject::from_fields(o)?)),
                    NanoKind::StopWatch => Ok(Object::StopWatch(StopWatchObject::from_fields(o)?)),
                    NanoKind::Timer => Ok(Object::Timer(TimerObject::from_fields(o)?)),
                    NanoKind::User => Ok(Object::User(UserObject::from_fields(o)?)),
                    NanoKind::WritingLocation => Ok(Object::WritingLocation(WritingLocationObject::from_fields(o)?)),
                    NanoKind::WritingMethod => Ok(Object::WritingMethod(WritingMethodObject::from_fields(o)?)),
                    NanoKind::GroupUser => Ok(Object::GroupUser(GroupUserObject::from_fields(o)?)),
                    NanoKind::LocationGroup => Ok(Object::LocationGroup(LocationGroupObject::from_fields(o)?)),
                    NanoKind::ProjectChallenge => Ok(Object::ProjectChallenge(ProjectChallengeObject::from_fields(o)?)),
                    NanoKind::UserBadge => Ok(Object::UserBadge(UserBadgeObject::from_fields(o)?)),
                }
            },
            _ => Err(not_an_object()),
        }
    }

    fn to_json(&self) -> (r: Json) {
        match self {
            Object::Badge(x) => x.to_json(),
            Object::Challenge(x) => x.to_json(),
            Object::DailyAggregate(x) => x.to_json(),
            Object::FavoriteAuthor(x) => x.to_json(),
            Object::FavoriteBook(x) => x.to_json(),
            Object::Genre(x) => x.to_json(),
            Object::Group(x) => x.to_json(),
            Object::GroupExternalLink(x) => x.to_json(),
            Object::Location(x) => x.to_json(),
            Object::NanoMessage(x) => x.to_json(),
            Object::Notification(x) => x.to_json(),
            Object::Page(x) => x.to_json(),
            Object::Post(x) => x.to_json(),
            Object::Project(x) => x.to_json(),
            Object::ProjectSession(x) => x.to_json(),
            Object::StopWatch(x) => x.to_json(),
            Object::Timer(x) => x.to_json(),
            Object::User(x) => x.to_json(),
            Object::WritingLocation(x) => x.to_json(),
            Object::WritingMethod(x) => x.to_json(),
            Object::GroupUser(x) => x.to_json(),
            Object::LocationGroup(x) => x.to_json(),
            Object::ProjectChallenge(x) => x.to_json(),
            Object::UserBadge(x) => x.to_json(),
        }
    }
}

} // verus!
