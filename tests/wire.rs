use nanowrimo::json::Json;
use nanowrimo::response::{classify, decode_item, decode_store_items};
use nanowrimo::error::Error;
use nanowrimo::objects::{Object, ObjectInfo};
use nanowrimo::wire::{body_json, json_text, parse_json};

#[test]
fn text_is_read_into_the_tree() {
    let j = parse_json(r#"{"a": [1, "x", null, true, -2.5], "b": {}}"#).unwrap();
    match j {
        Json::Object(e) => {
            assert_eq!(e.len(), 2);
            assert_eq!(e[0].0, "a");
            match &e[0].1 {
                Json::Array(a) => {
                    assert!(matches!(&a[0], Json::Number(t) if t == "1"));
                    assert!(matches!(&a[1], Json::Str(t) if t == "x"));
                    assert!(matches!(&a[2], Json::Null));
                    assert!(matches!(&a[3], Json::Bool(true)));
                    assert!(matches!(&a[4], Json::Number(t) if t == "-2.5"));
                },
                _ => panic!("array expected"),
            }
        },
        _ => panic!("object expected"),
    }
    assert!(parse_json("{").is_none());
    assert!(parse_json("").is_none());
    assert!(matches!(body_json("<html>oops</html>"), Json::Null));
}

#[test]
fn tree_is_written_as_text() {
    let j = Json::Object(vec![
        ("id".to_string(), Json::Str("42".to_string())),
        ("n".to_string(), Json::Number("7".to_string())),
        ("l".to_string(), Json::Array(vec![Json::Null, Json::Bool(false)])),
    ]);
    assert_eq!(json_text(&j).unwrap(), r#"{"id":"42","l":[null,false],"n":7}"#);
    assert!(json_text(&Json::Number("seven".to_string())).is_none());
}

#[test]
fn deep_nesting_is_refused() {
    let deep = "[".repeat(200) + &"]".repeat(200);
    assert!(parse_json(&deep).is_none());
}

#[test]
fn text_body_through_classification_and_decode() {
    let text = r#"{"data":{"type":"genres","id":"42","attributes":{"name":"Fantasy","user-id":3}}}"#;
    let body = body_json(text);
    let item = decode_item::<Object>(200, &body).unwrap();
    assert_eq!(item.data.id(), 42);
    let err = classify(200, &body_json(r#"{"error":"bad thing"}"#));
    assert_eq!(err, Err(Error::SimpleNanoError(200, "bad thing".to_string())));
}

#[test]
fn store_items_array() {
    let body = body_json(r#"[{"handle":"mug","image":{"src":"https://i/m.png"},"title":"Mug"}]"#);
    let items = decode_store_items(200, &body).unwrap();
    assert_eq!(items.len(), 1);
    assert_eq!(items[0].handle, "mug");
}
