use cloud_init::document::{parse_json, parse_toml, read_optional_text, read_text, Entry, Node};

fn entries(node: &Node) -> &Vec<Entry> {
    match node {
        Node::Table(entries) => entries,
        other => panic!("expected a table, got {:?}", other),
    }
}

fn keys(node: &Node) -> Vec<&str> {
    entries(node).iter().map(|entry| entry.key.as_str()).collect()
}

#[test]
fn toml_document_is_a_table_of_its_keys() {
    let document = parse_toml("b = 2\na = \"one\"\n[t]\nflag = true\n").unwrap();
    assert_eq!(keys(&document), vec!["a", "b", "t"]);
    assert!(matches!(document.get("a"), Some(Node::Text(text)) if text == "one"));
    assert!(matches!(document.get("b"), Some(Node::Integer(2))));
    let inner = document.get("t").unwrap();
    assert_eq!(keys(inner), vec!["flag"]);
    assert!(matches!(inner.get("flag"), Some(Node::Boolean(true))));
}

#[test]
fn empty_toml_document_is_an_empty_table() {
    let document = parse_toml("").unwrap();
    assert!(entries(&document).is_empty());
    let document = parse_toml("# only a comment\n").unwrap();
    assert!(entries(&document).is_empty());
}

#[test]
fn toml_lists_keep_their_items_in_order() {
    let document = parse_toml("list = [\"x\", \"y\", \"z\"]\nnested = [[1], [2, 3]]\n").unwrap();
    match document.get("list") {
        Some(Node::List(items)) => {
            assert_eq!(items.len(), 3);
            assert!(matches!(&items[0], Node::Text(text) if text == "x"));
            assert!(matches!(&items[2], Node::Text(text) if text == "z"));
        }
        other => panic!("expected a list, got {:?}", other),
    }
    match document.get("nested") {
        Some(Node::List(items)) => {
            assert_eq!(items.len(), 2);
            assert!(matches!(&items[1], Node::List(inner) if inner.len() == 2));
        }
        other => panic!("expected a list, got {:?}", other),
    }
}

#[test]
fn toml_fractions_and_dates_are_of_another_kind() {
    let document = parse_toml("f = 1.5\nd = 1979-05-27T07:32:00Z\nn = -7\n").unwrap();
    assert!(matches!(document.get("f"), Some(Node::Other)));
    assert!(matches!(document.get("d"), Some(Node::Other)));
    assert!(matches!(document.get("n"), Some(Node::Integer(-7))));
}

#[test]
fn text_that_is_no_toml_has_no_document() {
    assert!(parse_toml("a = ").is_none());
    assert!(parse_toml("a = 1\na = 2\n").is_none());
    assert!(parse_toml("{\"a\": 1}").is_none());
}

#[test]
fn json_values_of_every_kind_are_read() {
    assert!(matches!(parse_json("null"), Some(Node::Null)));
    assert!(matches!(parse_json("true"), Some(Node::Boolean(true))));
    assert!(matches!(parse_json("false"), Some(Node::Boolean(false))));
    assert!(matches!(parse_json("-12"), Some(Node::Integer(-12))));
    assert!(matches!(parse_json("18446744073709551615"), Some(Node::Integer(18446744073709551615))));
    assert!(matches!(parse_json("-9223372036854775808"), Some(Node::Integer(-9223372036854775808))));
    assert!(matches!(parse_json("1.5"), Some(Node::Other)));
    assert!(matches!(parse_json("1e3"), Some(Node::Other)));
    assert!(matches!(parse_json("\"a\\nb\""), Some(Node::Text(text)) if text == "a\nb"));
    assert!(matches!(parse_json("[]"), Some(Node::List(items)) if items.is_empty()));
    assert!(matches!(parse_json("{}"), Some(Node::Table(entries)) if entries.is_empty()));
}

#[test]
fn json_object_is_a_table_of_its_keys() {
    let document = parse_json("{\"b\": [1, null], \"a\": {\"x\": \"y\"}}").unwrap();
    assert_eq!(keys(&document), vec!["a", "b"]);
    assert!(matches!(document.get("a").unwrap().get("x"), Some(Node::Text(text)) if text == "y"));
    match document.get("b") {
        Some(Node::List(items)) => {
            assert!(matches!(&items[0], Node::Integer(1)));
            assert!(matches!(&items[1], Node::Null));
        }
        other => panic!("expected a list, got {:?}", other),
    }
}

#[test]
fn text_that_is_no_json_has_no_document() {
    assert!(parse_json("").is_none());
    assert!(parse_json("{").is_none());
    assert!(parse_json("a = 1").is_none());
    assert!(parse_json("[1,]").is_none());
}

#[test]
fn text_fields_are_read_by_key() {
    let node = parse_json("{\"s\": \"text\", \"n\": 1, \"z\": null}").unwrap();
    assert_eq!(read_text(&node, "s"), Some("text".to_string()));
    assert_eq!(read_text(&node, "n"), None);
    assert_eq!(read_text(&node, "z"), None);
    assert_eq!(read_text(&node, "missing"), None);
    assert_eq!(read_text(&Node::Null, "s"), None);
    assert_eq!(read_optional_text(&node, "s"), Some(Some("text".to_string())));
    assert_eq!(read_optional_text(&node, "z"), Some(None));
    assert_eq!(read_optional_text(&node, "missing"), Some(None));
    assert_eq!(read_optional_text(&node, "n"), None);
    assert_eq!(read_optional_text(&Node::Integer(3), "s"), Some(None));
}
