use nanowrimo::error::{Error, NanoError};
use nanowrimo::json::Json;
use nanowrimo::objects::Object;
use nanowrimo::response::{classify, decode_collection, decode_item, decode_login, StoreItem};

fn s(x: &str) -> Json {
    Json::Str(x.to_string())
}

fn num(x: &str) -> Json {
    Json::Number(x.to_string())
}

fn obj(entries: Vec<(&str, Json)>) -> Json {
    Json::Object(entries.into_iter().map(|(k, v)| (k.to_string(), v)).collect())
}

fn genre_body() -> Json {
    obj(vec![(
        "data",
        obj(vec![
            ("type", s("genres")),
            ("id", s("7")),
            ("attributes", obj(vec![("name", s("Fantasy")), ("user-id", num("3"))])),
        ]),
    )])
}

#[test]
fn simple_error_body_is_surfaced() {
    let r = classify(200, &obj(vec![("error", s("bad thing"))]));
    assert_eq!(r, Err(Error::SimpleNanoError(200, "bad thing".to_string())));
}

#[test]
fn error_list_body_is_surfaced() {
    let e = obj(vec![("code", num("1")), ("status", num("404")), ("title", s("T")), ("detail", s("D"))]);
    let r = classify(422, &obj(vec![("errors", Json::Array(vec![e]))]));
    match r {
        Err(Error::NanoErrors(list)) => {
            assert_eq!(list.len(), 1);
            assert_eq!(list[0].code, 1);
            assert_eq!(list[0].status, 404);
            assert_eq!(list[0].title, "T");
            assert_eq!(list[0].detail, "D");
        },
        other => panic!("unexpected {:?}", other),
    }
}

#[test]
fn error_codes_may_be_numerals_in_strings() {
    let e = obj(vec![("code", s("12")), ("status", s("400")), ("title", s("T")), ("detail", s("D"))]);
    let n = NanoError::from_json(&obj(vec![("errors", Json::Array(vec![e]))])).unwrap();
    assert!(matches!(n, NanoError::ErrorList { ref errors } if errors[0].code == 12 && errors[0].status == 400));
}

#[test]
fn malformed_error_body_is_bad_json() {
    let r = classify(200, &obj(vec![("error", num("3"))]));
    assert!(matches!(r, Err(Error::BadJson(_))));
    let r = classify(200, &obj(vec![("errors", s("nope"))]));
    assert!(matches!(r, Err(Error::BadJson(_))));
}

#[test]
fn data_body_passes_to_typed_decode() {
    assert_eq!(classify(200, &genre_body()), Ok(()));
    let item = decode_item::<Object>(200, &genre_body()).unwrap();
    assert!(matches!(item.data, Object::Genre(ref g) if g.id == 7 && g.attributes.name == "Fantasy"));
}

#[test]
fn server_error_status_wins_over_a_valid_body() {
    let r = decode_item::<Object>(500, &genre_body());
    assert!(matches!(r, Err(Error::SimpleNanoError(500, ref m)) if m == "Internal Server Error"));
    let r = decode_collection::<Object>(404, &obj(vec![("data", Json::Array(vec![]))]));
    assert!(matches!(r, Err(Error::SimpleNanoError(404, ref m)) if m == "Page Not Found"));
}

#[test]
fn unparsed_body_fails_the_typed_decode() {
    let r = decode_item::<Object>(200, &Json::Null);
    assert!(matches!(r, Err(Error::ResponseDecoding(_))));
}

#[test]
fn login_answer_gives_the_token() {
    let ok = decode_login(200, &obj(vec![("auth_token", s("SECRET-REDACTED"))])).unwrap();
    assert_eq!(ok.auth_token, "SECRET-REDACTED");
    let refused = decode_login(401, &obj(vec![("error", s("Invalid credentials"))]));
    assert_eq!(refused.unwrap_err(), Error::SimpleNanoError(401, "Invalid credentials".to_string()));
}

#[test]
fn store_item_image_is_unwrapped() {
    let j = obj(vec![
        ("handle", s("mug")),
        ("image", obj(vec![("src", s("https://img/mug.png")), ("width", num("100"))])),
        ("title", s("Mug")),
    ]);
    let item = StoreItem::from_json(&j).unwrap();
    assert_eq!(item.image, "https://img/mug.png");
}

#[test]
fn error_messages_read_well() {
    assert_eq!(Error::NoCredentials.message(), "No credentials available");
    assert_eq!(
        Error::SimpleNanoError(404, "Page Not Found".to_string()).message(),
        "NanoWrimo API Error: Page Not Found (status code 404)"
    );
}

#[test]
fn error_list_message_concatenates_entries() {
    let errs = vec![
        nanowrimo::error::ErrorData { code: 1, detail: "D".to_string(), status: 404, title: "T".to_string() },
        nanowrimo::error::ErrorData { code: 2, detail: "E".to_string(), status: 400, title: "U".to_string() },
    ];
    assert_eq!(
        Error::NanoErrors(errs[..1].to_vec()).message(),
        "T (1): D (status code 404)"
    );
    assert_eq!(
        Error::NanoErrors(errs).message(),
        "T (1): D (status code 404)U (2): E (status code 400)"
    );
}

#[test]
fn decode_error_message_names_the_path() {
    let body = obj(vec![(
        "data",
        obj(vec![
            ("type", s("genres")),
            ("id", s("7")),
            ("attributes", obj(vec![("name", num("1")), ("user-id", num("3"))])),
        ]),
    )]);
    let e = decode_item::<Object>(200, &body).unwrap_err();
    assert_eq!(e.message(), "Error decoding response, at data.attributes.name: invalid value, expected a string");
    assert_eq!(Error::Transport("timed out".to_string()).message(), "Transport Error: timed out");
}

#[test]
fn bad_side_loaded_resource_fails_the_decode() {
    let body = obj(vec![
        ("data", obj(vec![
            ("type", s("genres")),
            ("id", s("7")),
            ("attributes", obj(vec![("name", s("x")), ("user-id", num("3"))])),
        ])),
        ("included", Json::Array(vec![obj(vec![("type", s("genres"))])])),
    ]);
    match decode_item::<Object>(200, &body) {
        Err(Error::ResponseDecoding(e)) => assert_eq!(e.path[0], "included"),
        other => panic!("unexpected {:?}", other.map(|_| ())),
    }
}
