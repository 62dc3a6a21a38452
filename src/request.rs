//! Building requests: query parameters, paths, and outbound bodies.

use vstd::prelude::*;

use crate::attributes::{project_session_data_written_as, ProjectSessionData};
use crate::envelope::ItemResponse;
use crate::error::Error;
use crate::enums::UnitType;
use crate::json::{lookup, Json};
use crate::kind::{plural_name, unique_name, NanoKind};
use crate::objects::{encodes, Object, ProjectSessionObject};
use crate::relation::{writes_refs, ObjectRef, RelationInfo, RelationLink};
use crate::text::{decimal_text, u64_text};

verus! {

/// The plural names of `kinds`, joined by commas.
pub open spec fn joined_names(kinds: Seq<NanoKind>) -> Seq<char>
    decreases kinds.len(),
{
    if kinds.len() == 0 {
        Seq::empty()
    } else if kinds.len() == 1 {
        plural_name(kinds[0])
    } else {
        joined_names(kinds.drop_last()) + seq![','] + plural_name(kinds.last())
    }
}

/// Adds the `include` parameter naming the kinds whose resources the server
/// should side-load; nothing is added for an empty list.
pub fn add_included(data: &mut Vec<(String, String)>, kinds: &[NanoKind])
    ensures
        kinds@.len() == 0 ==> final(data)@ == old(data)@,
        kinds@.len() > 0 ==> final(data)@.len() == old(data)@.len() + 1 && final(data)@.subrange(
            0,
            old(data)@.len() as int,
        ) == old(data)@ && final(data)@.last().0@ == "include"@ && final(data)@.last().1@ == joined_names(
            kinds@,
        ),
{
    if kinds.len() == 0 {
        return;
    }
    let mut value = String::from_str(kinds[0].api_name());
    let mut i: usize = 1;
    proof {
        assert(kinds@.subrange(0, 1) =~= seq![kinds@[0]]);
    }
    while i < kinds.len()
        invariant
            1 <= i <= kinds@.len(),
            value@ == joined_names(kinds@.subrange(0, i as int)),
        decreases kinds@.len() - i,
    {
        value.append(",");
        value.append(kinds[i].api_name());
        proof {
            reveal_strlit(",");
            let next = kinds@.subrange(0, i + 1);
            assert(next.drop_last() =~= kinds@.subrange(0, i as int));
            assert(next.last() == kinds@[i as int]);
        }
        i = i + 1;
    }
    proof {
        assert(kinds@.subrange(0, kinds@.len() as int) =~= kinds@);
    }
    let ghost before = data@;
    data.push((String::from_str("include"), value));
    proof {
        assert(data@.subrange(0, before.len() as int) =~= before);
    }
}

/// Adds one `filter[<field>]=<id>` parameter per pair, in order. Which fields
/// the server accepts for which kind is its own business and is not checked.
pub fn add_filters(data: &mut Vec<(String, String)>, filter: &[(&str, u64)])
    ensures
        final(data)@.len() == old(data)@.len() + filter@.len(),
        final(data)@.subrange(0, old(data)@.len() as int) == old(data)@,
        forall|i: int| 0 <= i < filter@.len() ==> {
            &&& (#[trigger] final(data)@[old(data)@.len() + i]).0@ == "filter["@ + filter@[i].0@ + "]"@
            &&& final(data)@[old(data)@.len() + i].1@ == decimal_text(filter@[i].1 as nat)
        },
{
    let ghost start = data@;
    let mut i: usize = 0;
    while i < filter.len()
        invariant
            i <= filter@.len(),
            data@.len() == start.len() + i,
            data@.subrange(0, start.len() as int) == start,
            start == old(data)@,
            forall|k: int| 0 <= k < i ==> {
                &&& (#[trigger] data@[start.len() + k]).0@ == "filter["@ + filter@[k].0@ + "]"@
                &&& data@[start.len() + k].1@ == decimal_text(filter@[k].1 as nat)
            },
        decreases filter@.len() - i,
    {
        let mut name = String::from_str("filter[");
        name.append(filter[i].0);
        name.append("]");
        let ghost before = data@;
        data.push((name, u64_text(filter[i].1)));
        proof {
            assert(data@.subrange(0, start.len() as int) =~= before.subrange(0, start.len() as int));
            assert forall|k: int| 0 <= k < i + 1 implies {
                &&& (#[trigger] data@[start.len() + k]).0@ == "filter["@ + filter@[k].0@ + "]"@
                &&& data@[start.len() + k].1@ == decimal_text(filter@[k].1 as nat)
            } by {
                if k < i {
                    assert(data@[start.len() + k] == before[start.len() + k]);
                }
            }
        }
        i = i + 1;
    }
}

/// The path of one resource: its kind's plural name, a slash, and the id.
pub fn id_path(kind: NanoKind, id: u64) -> (r: String)
    ensures
        r@ == plural_name(kind) + "/"@ + decimal_text(id as nat),
{
    let mut p = String::from_str(kind.api_name());
    p.append("/");
    p.append(u64_text(id).as_str());
    p
}

/// The path of one resource found by its slug, a unique text identifier.
pub fn slug_path(kind: NanoKind, slug: &str) -> (r: String)
    ensures
        r@ == plural_name(kind) + "/"@ + slug@,
{
    let mut p = String::from_str(kind.api_name());
    p.append("/");
    p.append(slug);
    p
}

/// The path to follow a relation link with, for a caller that expects many
/// related resources (`many`) or one. A link is taken to lead to many when its
/// address ends in `s`, a known-imprecise rule kept as the API suggests it;
/// following it with the other operation is refused.
pub fn related_path(rel: &RelationLink, many: bool) -> (r: Result<String, Error>)
    ensures
        match r {
            Ok(p) => p@ == rel.related@ && many == (rel.related@.len() > 0 && rel.related@.last() == 's'),
            Err(e) => e == Error::WrongCardinality && many != (rel.related@.len() > 0 && rel.related@.last()
                == 's'),
        },
{
    if rel.is_many() == many {
        Ok(rel.related.clone())
    } else {
        Err(Error::WrongCardinality)
    }
}

/// The attributes of a new writing session of `words`: only the count, in
/// words, every other field unset.
pub open spec fn new_session_data(words: i64) -> ProjectSessionData {
    ProjectSessionData {
        count: words,
        created_at: None,
        end: None,
        feeling: None,
        how: None,
        project_challenge_id: None,
        project_id: None,
        session_date: None,
        start: None,
        unit_type: UnitType::Words,
        where_: None,
    }
}

/// Whether `r` is the wire resource of a new writing session of `words`: tag
/// `project-sessions`, no id, the attributes of [`new_session_data`], and
/// relationships holding exactly a reference to the project under `project`
/// and one to the project challenge under `project-challenge`.
pub open spec fn session_resource(r: Json, words: i64, project_id: u64, project_challenge_id: u64) -> bool {
    &&& encodes(r, NanoKind::ProjectSession, 0)
    &&& match r {
        Json::Object(d) => {
            &&& match lookup(d@, "attributes"@) {
                Some(Json::Object(a)) => project_session_data_written_as(a@, new_session_data(words)),
                _ => false,
            }
            &&& match lookup(d@, "relationships"@) {
                Some(Json::Object(re)) => {
                    &&& re@.len() == 2
                    &&& re@[0].0@ == unique_name(NanoKind::Project)
                    &&& writes_refs(re@[0].1, seq![ObjectRef { id: project_id, kind: NanoKind::Project }])
                    &&& re@[1].0@ == unique_name(NanoKind::ProjectChallenge)
                    &&& writes_refs(
                        re@[1].1,
                        seq![ObjectRef { id: project_challenge_id, kind: NanoKind::ProjectChallenge }],
                    )
                },
                _ => false,
            }
        },
        _ => false,
    }
}

/// The body that records a writing session of `words` for a project in a
/// challenge: a new project session (id `0`, so no id is sent) whose only
/// relationships are the project and the project challenge. Only a logged-in
/// session may post it.
pub fn add_project_session_body(logged_in: bool, project_id: u64, project_challenge_id: u64, words: i64) -> (r:
    Result<Json, Error>)
    ensures
        !logged_in ==> r matches Err(Error::NoCredentials),
        logged_in ==> (r matches Ok(Json::Object(e)) && e@.len() > 0 && e@[0].0@ == "data"@ && session_resource(
            e@[0].1,
            words,
            project_id,
            project_challenge_id,
        )),
{
    if !logged_in {
        return Err(Error::NoCredentials);
    }
    let mut included: Vec<(NanoKind, Vec<ObjectRef>)> = Vec::new();
    let p = vec![ObjectRef { id: project_id, kind: NanoKind::Project }];
    let c = vec![ObjectRef { id: project_challenge_id, kind: NanoKind::ProjectChallenge }];
    assert(p@ =~= seq![ObjectRef { id: project_id, kind: NanoKind::Project }]);
    assert(c@ =~= seq![ObjectRef { id: project_challenge_id, kind: NanoKind::ProjectChallenge }]);
    included.push((NanoKind::Project, p));
    included.push((NanoKind::ProjectChallenge, c));
    let session = ProjectSessionObject {
        id: 0,
        links: None,
        attributes: ProjectSessionData {
            count: words,
            created_at: None,
            end: None,
            feeling: None,
            how: None,
            project_challenge_id: None,
            project_id: None,
            session_date: None,
            start: None,
            unit_type: UnitType::Words,
            where_: None,
        },
        relationships: Some(RelationInfo { relations: Vec::new(), included }),
    };
    let ghost session_view = session;
    let body: ItemResponse<Object> = ItemResponse {
        data: Object::ProjectSession(session),
        included: None,
        post_info: None,
    };
    let r = body.to_json();
    proof {
        assert(session_view.attributes == new_session_data(words));
        assert(body.data == Object::ProjectSession(session_view));
    }
    Ok(r)
}

} // verus!
