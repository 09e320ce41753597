use protobuf_json_benchmark::document::{Document, FilterError, Member};
use protobuf_json_benchmark::json::{
    filter_document, filter_json, parse_document, render_document, JsonFilterError,
};

fn text(s: &str) -> Document {
    Document::Text(s.to_string())
}

fn member(key: &str, value: Document) -> Member {
    Member { key: key.to_string(), value }
}

fn number(n: i64) -> Document {
    Document::Number(serde_json::Number::from(n))
}

const EVOLVED: &str = "{\"name\":\"Test Person\",\"id\":12345,\"email\":\"test@example.com\",\
\"phones\":[{\"number\":\"555-1000\",\"type_\":0,\"is_primary\":true},\
{\"number\":\"555-1001\",\"type_\":1,\"is_primary\":false}],\
\"addresses\":[{\"street\":\"100 Main St\",\"city\":\"City 0\",\"state\":\"State 0\",\
\"zip\":\"10000\",\"country\":\"Country\",\"additional_info\":\"Extra address details\"}],\
\"metadata\":{\"key0\":\"value0\",\"key1\":\"value1\"},\
\"additional_field\":\"New information\",\"priority\":5}";

const BASE: &str = "{\"addresses\":[{\"city\":\"City 0\",\"country\":\"Country\",\
\"state\":\"State 0\",\"street\":\"100 Main St\",\"zip\":\"10000\"}],\
\"email\":\"test@example.com\",\"id\":12345,\
\"metadata\":{\"key0\":\"value0\",\"key1\":\"value1\"},\"name\":\"Test Person\",\
\"phones\":[{\"number\":\"555-1000\",\"type_\":0},{\"number\":\"555-1001\",\"type_\":1}]}";

#[test]
fn filter_keeps_only_base_keys() {
    assert_eq!(filter_json(EVOLVED), Ok(BASE.to_string()));
}

#[test]
fn filter_twice_changes_nothing_more() {
    let once = filter_json(EVOLVED).unwrap();
    assert_eq!(filter_json(&once), Ok(once.clone()));
}

#[test]
fn filter_rejects_malformed_text() {
    assert_eq!(filter_json("{\"name\":"), Err(JsonFilterError::Malformed));
    assert_eq!(filter_json(""), Err(JsonFilterError::Malformed));
    assert_eq!(filter_json("{} {}"), Err(JsonFilterError::Malformed));
    assert_eq!(filter_document(None), Err(JsonFilterError::Malformed));
}

#[test]
fn filter_rejects_records_without_arrays() {
    assert_eq!(
        filter_json("{\"name\":\"x\"}"),
        Err(JsonFilterError::Shape(FilterError::PhonesNotArray))
    );
    assert_eq!(
        filter_json("{\"phones\":[],\"addresses\":{}}"),
        Err(JsonFilterError::Shape(FilterError::AddressesNotArray))
    );
    assert_eq!(
        filter_json("{\"phones\":\"none\",\"addresses\":5}"),
        Err(JsonFilterError::Shape(FilterError::PhonesNotArray))
    );
    assert_eq!(filter_json("[1,2]"), Err(JsonFilterError::Shape(FilterError::PhonesNotArray)));
}

#[test]
fn filter_binds_missing_members_to_null() {
    assert_eq!(
        filter_json("{\"phones\":[{\"number\":\"1\"},7],\"addresses\":[]}"),
        Ok("{\"addresses\":[],\"email\":null,\"id\":null,\"metadata\":null,\"name\":null,\
\"phones\":[{\"number\":\"1\",\"type_\":null},{\"number\":null,\"type_\":null}]}"
            .to_string())
    );
}

#[test]
fn parse_gives_the_members_in_key_order() {
    let document = parse_document("{\"b\":[true,null],\"a\":-3,\"c\":\"x\"}").unwrap();
    match &document {
        Document::Object(members) => {
            assert_eq!(members.len(), 3);
            assert_eq!(members[0].key, "a");
            assert_eq!(members[1].key, "b");
            assert_eq!(members[2].key, "c");
            assert!(matches!(&members[0].value, Document::Number(n) if n.as_i64() == Some(-3)));
            match &members[1].value {
                Document::Array(items) => {
                    assert_eq!(items.len(), 2);
                    assert!(matches!(items[0], Document::Bool(true)));
                    assert!(matches!(items[1], Document::Null));
                }
                _ => panic!("not an array"),
            }
            assert!(matches!(&members[2].value, Document::Text(s) if s == "x"));
        }
        _ => panic!("not an object"),
    }
    assert!(parse_document("nonsense").is_none());
}

#[test]
fn render_writes_a_document() {
    let document = Document::Object(vec![
        member("z", number(1)),
        member("a", Document::Array(vec![text("q\"uote"), Document::Bool(false), Document::Null])),
        member("z", number(2)),
    ]);
    assert_eq!(render_document(&document), "{\"a\":[\"q\\\"uote\",false,null],\"z\":2}");
    assert_eq!(render_document(&Document::Null), "null");
    assert_eq!(render_document(&text("plain")), "\"plain\"");
}

#[test]
fn render_after_parse_gives_compact_text() {
    let document = parse_document(" { \"k\" : [ 1 , 2.5 , \"t\" ] } ").unwrap();
    assert_eq!(render_document(&document), "{\"k\":[1,2.5,\"t\"]}");
}

#[test]
fn field_takes_the_last_member_with_the_key() {
    let document = Document::Object(vec![
        member("a", number(1)),
        member("b", text("x")),
        member("a", number(2)),
    ]);
    assert!(matches!(document.field(&"a".to_string()), Document::Number(n) if n.as_i64() == Some(2)));
    assert!(matches!(document.field(&"b".to_string()), Document::Text(s) if s == "x"));
    assert!(matches!(document.field(&"c".to_string()), Document::Null));
    assert!(matches!(text("t").field(&"a".to_string()), Document::Null));
    assert!(matches!(Document::Array(vec![]).field(&"a".to_string()), Document::Null));
}

#[test]
fn pick_orders_members_as_the_keys() {
    let document = Document::Object(vec![member("a", number(1)), member("b", number(2))]);
    let picked = document.pick(&vec!["b".to_string(), "missing".to_string(), "a".to_string()]);
    assert_eq!(
        format!("{:?}", picked),
        format!(
            "{:?}",
            Document::Object(vec![
                member("b", number(2)),
                member("missing", Document::Null),
                member("a", number(1)),
            ])
        )
    );
    assert!(document.pick_each(&vec!["a".to_string()]).is_none());
    let array = Document::Array(vec![document.duplicate(), Document::Bool(true)]);
    let each = array.pick_each(&vec!["a".to_string()]).unwrap();
    assert_eq!(
        format!("{:?}", each),
        format!(
            "{:?}",
            Document::Array(vec![
                Document::Object(vec![member("a", number(1))]),
                Document::Object(vec![member("a", Document::Null)]),
            ])
        )
    );
}

#[test]
fn duplicate_copies_every_level() {
    let document = parse_document(EVOLVED).unwrap();
    let copy = document.duplicate();
    assert_eq!(format!("{:?}", copy), format!("{:?}", document));
    assert_eq!(render_document(&copy), render_document(&document));
}

#[test]
fn filter_to_base_orders_the_six_members() {
    let document = parse_document(EVOLVED).unwrap();
    let kept = document.filter_to_base().unwrap();
    match &kept {
        Document::Object(members) => {
            let keys: Vec<&str> = members.iter().map(|m| m.key.as_str()).collect();
            assert_eq!(keys, vec!["name", "id", "email", "phones", "addresses", "metadata"]);
        }
        _ => panic!("not an object"),
    }
    assert_eq!(render_document(&kept), BASE);
    assert_eq!(
        text("x").filter_to_base().err(),
        Some(FilterError::PhonesNotArray)
    );
}
