use nanowrimo::attributes::{GenreData, ProjectSessionData};
use nanowrimo::codec::DecodeCause;
use nanowrimo::envelope::{CollectionResponse, ItemResponse};
use nanowrimo::json::Json;
use nanowrimo::kind::NanoKind;
use nanowrimo::objects::{GenreObject, Object, ObjectInfo, UserObject};
use nanowrimo::relation::{ObjectRef, RelationInfo, RelationLink};
use nanowrimo::request::add_project_session_body;

fn s(x: &str) -> Json {
    Json::Str(x.to_string())
}

fn num(x: &str) -> Json {
    Json::Number(x.to_string())
}

fn obj(entries: Vec<(&str, Json)>) -> Json {
    Json::Object(entries.into_iter().map(|(k, v)| (k.to_string(), v)).collect())
}

fn get<'a>(j: &'a Json, key: &str) -> Option<&'a Json> {
    match j {
        Json::Object(e) => e.iter().find(|(k, _)| k == key).map(|(_, v)| v),
        _ => None,
    }
}

fn genre(id: &str, name: &str) -> Json {
    obj(vec![
        ("type", s("genres")),
        ("id", s(id)),
        ("attributes", obj(vec![("name", s(name)), ("user-id", num("3"))])),
    ])
}

#[test]
fn numeric_string_id_is_read_and_written_as_string() {
    let r = ObjectRef::from_json(&obj(vec![("id", s("42")), ("type", s("projects"))])).unwrap();
    assert_eq!(r, ObjectRef { id: 42, kind: NanoKind::Project });
    let back = r.to_json();
    assert!(matches!(get(&back, "id"), Some(Json::Str(t)) if t == "42"));
    assert!(matches!(get(&back, "type"), Some(Json::Str(t)) if t == "projects"));

    let g = GenreObject::from_json(&genre("42", "Fantasy")).unwrap();
    assert_eq!(g.id, 42);
    assert!(matches!(get(&g.to_json(), "id"), Some(Json::Str(t)) if t == "42"));
}

#[test]
fn bare_number_id_is_refused() {
    let r = ObjectRef::from_json(&obj(vec![("id", num("42")), ("type", s("projects"))]));
    assert!(r.is_err());
    let extra = ObjectRef::from_json(&obj(vec![("id", s("1")), ("type", s("users")), ("x", s("y"))]));
    assert_eq!(extra.unwrap_err().cause, DecodeCause::UnknownField);
}

#[test]
fn unassigned_id_is_left_out_of_the_body() {
    let g = GenreObject {
        id: 0,
        relationships: None,
        links: None,
        attributes: GenreData { name: "Mystery".to_string(), user_id: 3 },
    };
    let j = g.to_json();
    assert!(get(&j, "id").is_none());
    assert!(matches!(get(&j, "type"), Some(Json::Str(t)) if t == "genres"));
    assert!(get(&j, "attributes").is_some());
}

#[test]
fn project_session_body_has_no_id_and_both_references() {
    let body = add_project_session_body(true, 5, 9, 250).unwrap();
    let data = get(&body, "data").unwrap();
    assert!(get(data, "id").is_none());
    assert!(matches!(get(data, "type"), Some(Json::Str(t)) if t == "project-sessions"));
    let rel = get(data, "relationships").unwrap();
    let project = get(get(rel, "project").unwrap(), "data").unwrap();
    assert!(matches!(get(project, "id"), Some(Json::Str(t)) if t == "5"));
    let pc = get(get(rel, "project-challenge").unwrap(), "data").unwrap();
    assert!(matches!(get(pc, "id"), Some(Json::Str(t)) if t == "9"));
    let attrs = get(data, "attributes").unwrap();
    assert!(matches!(get(attrs, "count"), Some(Json::Number(t)) if t == "250"));
    assert!(matches!(get(attrs, "unit-type"), Some(Json::Number(t)) if t == "0"));
    assert!(matches!(get(attrs, "where"), Some(Json::Null)));
}

#[test]
fn project_session_body_needs_a_login() {
    assert!(matches!(
        add_project_session_body(false, 5, 9, 250),
        Err(nanowrimo::error::Error::NoCredentials)
    ));
}

#[test]
fn generic_object_takes_any_kind() {
    let o = Object::from_json(&genre("7", "Horror")).unwrap();
    assert_eq!(o.kind(), NanoKind::Genre);
    assert_eq!(o.id(), 7);
    assert!(matches!(o, Object::Genre(ref g) if g.attributes.name == "Horror"));
    assert_eq!(o.unwrap_genre().attributes.user_id, 3);
}

#[test]
fn singular_name_is_no_type_tag() {
    let j = obj(vec![
        ("type", s("genre")),
        ("id", s("7")),
        ("attributes", obj(vec![("name", s("x")), ("user-id", num("3"))])),
    ]);
    let e = Object::from_json(&j).unwrap_err();
    assert_eq!(e.cause, DecodeCause::UnknownKind);
    assert_eq!(e.path, vec!["type".to_string()]);
}

#[test]
fn expected_kind_mismatch_is_a_type_error() {
    let e = UserObject::from_json(&genre("7", "Horror")).unwrap_err();
    assert_eq!(e.cause, DecodeCause::WrongKind);
    assert_eq!(e.path, vec!["type".to_string()]);
}

#[test]
fn decode_error_names_the_path() {
    let missing = obj(vec![
        ("type", s("genres")),
        ("id", s("7")),
        ("attributes", obj(vec![("name", s("x"))])),
    ]);
    let e = Object::from_json(&missing).unwrap_err();
    assert_eq!(e.cause, DecodeCause::MissingField);
    assert_eq!(e.path, vec!["attributes".to_string(), "user-id".to_string()]);

    let unknown = obj(vec![
        ("type", s("genres")),
        ("id", s("7")),
        ("attributes", obj(vec![("name", s("x")), ("user-id", num("3")), ("colour", s("red"))])),
    ]);
    let e = Object::from_json(&unknown).unwrap_err();
    assert_eq!(e.cause, DecodeCause::UnknownField);
    assert_eq!(e.path, vec!["attributes".to_string(), "colour".to_string()]);

    let body = obj(vec![("data", Json::Array(vec![genre("1", "a"), genre("x", "b")]))]);
    let e = CollectionResponse::<Object>::from_json(&body).unwrap_err();
    assert_eq!(e.path, vec!["data".to_string(), "1".to_string(), "id".to_string()]);
}

#[test]
fn resolver_finds_side_loaded_resource() {
    let body = obj(vec![
        ("data", genre("1", "Primary")),
        ("included", Json::Array(vec![genre("7", "Seven")])),
    ]);
    let item = ItemResponse::<Object>::from_json(&body).unwrap();
    let hit = item.get_ref(&ObjectRef { id: 7, kind: NanoKind::Genre }).unwrap();
    assert_eq!(hit.id(), 7);
    assert_eq!(hit.kind(), NanoKind::Genre);
    assert!(item.get_ref(&ObjectRef { id: 8, kind: NanoKind::Genre }).is_none());
    assert!(item.get_ref(&ObjectRef { id: 7, kind: NanoKind::User }).is_none());
}

#[test]
fn resolver_first_match_wins_and_absent_list_gives_nothing() {
    let body = obj(vec![
        ("data", Json::Array(vec![genre("1", "Primary")])),
        ("included", Json::Array(vec![genre("7", "first"), genre("7", "second")])),
    ]);
    let list = CollectionResponse::<GenreObject>::from_json(&body).unwrap();
    let hit = list.get_ref(&ObjectRef { id: 7, kind: NanoKind::Genre }).unwrap();
    assert!(matches!(hit, Object::Genre(g) if g.attributes.name == "first"));

    let bare = ItemResponse::<Object>::from_json(&obj(vec![("data", genre("1", "x"))])).unwrap();
    assert!(bare.included.is_none());
    assert!(bare.get_ref(&ObjectRef { id: 1, kind: NanoKind::Genre }).is_none());
}

#[test]
fn envelope_refuses_unknown_keys() {
    let body = obj(vec![("data", genre("1", "x")), ("meta", obj(vec![]))]);
    let e = ItemResponse::<Object>::from_json(&body).unwrap_err();
    assert_eq!(e.cause, DecodeCause::UnknownField);
}

#[test]
fn relationships_are_read_by_kind() {
    let rel = obj(vec![
        (
            "user",
            obj(vec![
                ("links", obj(vec![("self", s("/a/rel/user")), ("related", s("/a/user"))])),
                ("data", obj(vec![("type", s("users")), ("id", s("3"))])),
            ]),
        ),
        (
            "projects",
            obj(vec![
                ("links", obj(vec![("self", s("/a/rel/projects")), ("related", s("/a/projects"))])),
                (
                    "data",
                    Json::Array(vec![
                        obj(vec![("type", s("projects")), ("id", s("4"))]),
                        obj(vec![("type", s("projects")), ("id", s("5"))]),
                    ]),
                ),
            ]),
        ),
        ("genres", obj(vec![("links", obj(vec![("self", s("/g")), ("related", s("/gs"))]))])),
    ]);
    let info = RelationInfo::from_json(&rel).unwrap();
    assert_eq!(info.relations.len(), 3);
    assert_eq!(info.included.len(), 2);
    assert_eq!(info.included[0], (NanoKind::User, vec![ObjectRef { id: 3, kind: NanoKind::User }]));
    assert_eq!(info.included[1].1.len(), 2);
    assert_eq!(
        info.relations[1],
        (
            NanoKind::Project,
            RelationLink { this: "/a/rel/projects".to_string(), related: "/a/projects".to_string() }
        )
    );
    let bad = obj(vec![("widgets", obj(vec![]))]);
    assert_eq!(RelationInfo::from_json(&bad).unwrap_err().cause, DecodeCause::UnknownKind);
}

#[test]
fn relationships_are_written_singular_for_one_reference() {
    let info = RelationInfo {
        included: vec![
            (NanoKind::Project, vec![ObjectRef { id: 5, kind: NanoKind::Project }]),
            (
                NanoKind::Badge,
                vec![ObjectRef { id: 1, kind: NanoKind::Badge }, ObjectRef { id: 2, kind: NanoKind::Badge }],
            ),
        ],
        relations: vec![],
    };
    let j = info.to_json();
    assert!(matches!(get(get(&j, "project").unwrap(), "data"), Some(Json::Object(_))));
    assert!(matches!(get(get(&j, "badges").unwrap(), "data"), Some(Json::Array(a)) if a.len() == 2));
    let back = RelationInfo::from_json(&obj(vec![(
        "project",
        obj(vec![
            ("links", obj(vec![("self", s("/s")), ("related", s("/r"))])),
            ("data", obj(vec![("id", s("5")), ("type", s("projects"))])),
        ]),
    )]))
    .unwrap();
    assert_eq!(back.included[0].1[0].id, 5);
}

#[test]
fn project_session_attributes_read_optional_codes() {
    let attrs = obj(vec![
        ("count", num("-40")),
        ("feeling", num("4")),
        ("how", num("77")),
        ("unit-type", num("1")),
        ("where", Json::Null),
    ]);
    let d = ProjectSessionData::from_json(&attrs).unwrap();
    assert_eq!(d.count, -40);
    assert_eq!(d.feeling, Some(nanowrimo::enums::Feeling::PrettyGood));
    assert_eq!(d.how, Some(nanowrimo::enums::How::Other(77)));
    assert_eq!(d.unit_type, nanowrimo::enums::UnitType::Hours);
    assert!(d.where_.is_none());
    assert!(d.start.is_none());
    let bad = obj(vec![("count", num("1")), ("unit-type", num("2"))]);
    assert!(ProjectSessionData::from_json(&bad).is_err());
}

fn post(id: &str, headline: &str) -> Json {
    obj(vec![
        ("type", s("posts")),
        ("id", s(id)),
        (
            "attributes",
            obj(vec![
                ("body", s("text")),
                ("content-type", s("Pep Talk")),
                ("headline", s(headline)),
                ("published", Json::Bool(true)),
            ]),
        ),
    ])
}

#[test]
fn post_context_is_read_at_every_level() {
    let inner = obj(vec![
        ("data", post("3", "inner")),
        ("after_posts", Json::Array(vec![obj(vec![("data", post("4", "deepest"))])])),
        ("author_cards", obj(vec![("data", Json::Array(vec![]))])),
        ("before_posts", Json::Array(vec![])),
    ]);
    let body = obj(vec![
        ("data", post("1", "outer")),
        ("after_posts", Json::Array(vec![inner])),
        ("author_cards", obj(vec![("data", Json::Array(vec![post("2", "card")]))])),
        ("before_posts", Json::Array(vec![])),
    ]);
    let item = ItemResponse::<nanowrimo::objects::PostObject>::from_json(&body).unwrap();
    let ctx = item.post_info.as_ref().unwrap();
    assert_eq!(ctx.author_cards.data[0].attributes.headline, "card");
    let nested = ctx.after_posts[0].post_info.as_ref().unwrap();
    assert_eq!(nested.after_posts[0].data.id, 4);

    let partial = obj(vec![("data", post("1", "outer")), ("after_posts", Json::Array(vec![]))]);
    let e = ItemResponse::<Object>::from_json(&partial).unwrap_err();
    assert_eq!(e.cause, DecodeCause::MissingField);
    assert_eq!(e.path, vec!["author_cards".to_string()]);
}

#[test]
fn two_keys_for_one_kind_are_refused() {
    let link = || obj(vec![("links", obj(vec![("self", s("/s")), ("related", s("/r"))]))]);
    let rel = obj(vec![("user", link()), ("users", link())]);
    let e = RelationInfo::from_json(&rel).unwrap_err();
    assert_eq!(e.cause, DecodeCause::DuplicateKind);
    assert_eq!(e.path, vec!["users".to_string()]);
    let missing_links = obj(vec![("user", obj(vec![]))]);
    let e = RelationInfo::from_json(&missing_links).unwrap_err();
    assert_eq!(e.path, vec!["user".to_string(), "links".to_string()]);
}
