use vstd::prelude::*;
use vstd::string::*;

verus! {

/// A parsed structured document: what a TOML or a JSON text holds, as far
/// as this library reads it.
#[derive(Debug)]
pub enum Node {
    /// The JSON `null`.
    Null,
    Boolean(bool),
    /// An integer of either notation.
    Integer(i128),
    Text(String),
    List(Vec<Node>),
    /// The entries of a table or object.
    Table(Vec<Entry>),
    /// A value of a kind that nothing here reads: a fraction or a date.
    Other,
}

/// One entry of a table: a key and the value under it.
#[derive(Debug)]
pub struct Entry {
    pub key: String,
    pub value: Node,
}

/// The value of the first entry of `entries` whose key is `key`.
pub open spec fn table_entry(entries: Seq<Entry>, key: Seq<char>) -> Option<Node>
    decreases entries.len(),
{
    if entries.len() == 0 {
        None
    } else if entries[0].key@ == key {
        Some(entries[0].value)
    } else {
        table_entry(entries.skip(1), key)
    }
}

impl Node {
    /// The value under `key`, where this node is a table that has the key.
    pub open spec fn entry(self, key: Seq<char>) -> Option<Node> {
        match self {
            Node::Table(entries) => table_entry(entries@, key),
            _ => None,
        }
    }

    /// Looks `key` up in a table. `None` where the node is no table or the
    /// table lacks the key.
    pub fn get(&self, key: &str) -> (found: Option<&Node>)
        ensures
            match found {
                Some(node) => self.entry(key@) == Some(*node),
                None => self.entry(key@) is None,
            },
    {
        match self {
            Node::Table(entries) => {
                let wanted = String::from_str(key);
                let mut i: usize = 0;
                assert(entries@.skip(0) == entries@);
                while i < entries.len()
                    invariant
                        i <= entries.len(),
                        wanted@ == key@,
                        self.entry(key@) == table_entry(entries@.skip(i as int), key@),
                    decreases entries.len() - i,
                {
                    assert(entries@.skip(i as int)[0] == entries@[i as int]);
                    if entries[i].key == wanted {
                        return Some(&entries[i].value);
                    }
                    assert(entries@.skip(i as int).skip(1) == entries@.skip(i + 1));
                    i = i + 1;
                }
                None
            },
            _ => None,
        }
    }
}

/// The text under `key`: `Some` where the table has the key with a string
/// under it.
pub open spec fn text_field(node: Node, key: Seq<char>) -> Option<Seq<char>> {
    match node.entry(key) {
        Some(Node::Text(text)) => Some(text@),
        _ => None,
    }
}

/// The text under `key` where it may be absent: no text where the table
/// lacks the key or has `null` under it, the text where it is a string, and
/// `None` for anything else.
pub open spec fn optional_text_field(node: Node, key: Seq<char>) -> Option<Option<Seq<char>>> {
    match node.entry(key) {
        None => Some(None),
        Some(Node::Null) => Some(None),
        Some(Node::Text(text)) => Some(Some(text@)),
        Some(_) => None,
    }
}

/// Reads the string under `key`.
pub fn read_text(node: &Node, key: &str) -> (text: Option<String>)
    ensures
        match text {
            Some(found) => text_field(*node, key@) == Some(found@),
            None => text_field(*node, key@) is None,
        },
{
    match node.get(key) {
        Some(Node::Text(found)) => Some(found.clone()),
        _ => None,
    }
}

/// Reads the string under `key` where it may be absent.
pub fn read_optional_text(node: &Node, key: &str) -> (text: Option<Option<String>>)
    ensures
        match text {
            Some(Some(found)) => optional_text_field(*node, key@) == Some(Some(found@)),
            Some(None) => optional_text_field(*node, key@) == Some(None::<Seq<char>>),
            None => optional_text_field(*node, key@) is None,
        },
{
    match node.get(key) {
        None => Some(None),
        Some(Node::Null) => Some(None),
        Some(Node::Text(found)) => Some(Some(found.clone())),
        Some(_) => None,
    }
}

/// `toml::Value`, a parsed TOML value.
#[verifier::external_type_specification]
#[verifier::external_body]
pub struct ExTomlValue(toml::Value);

/// `toml::de::Error`, why a text is no TOML document.
#[verifier::external_type_specification]
#[verifier::external_body]
pub struct ExTomlError(toml::de::Error);

/// `serde_json::Value`, a parsed JSON value.
#[verifier::external_type_specification]
#[verifier::external_body]
pub struct ExJsonValue(serde_json::Value);

/// `serde_json::Error`, why a text is no JSON value.
#[verifier::external_type_specification]
#[verifier::external_body]
pub struct ExJsonError(serde_json::Error);

/// What a text holds when read as a TOML document, or `None` where it is
/// not one.
pub uninterp spec fn toml_document(text: Seq<char>) -> Option<Node>;

/// What a parsed TOML value holds.
pub uninterp spec fn toml_contents(value: toml::Value) -> Node;

/// What a text holds when read as a JSON value, or `None` where it is not
/// one.
pub uninterp spec fn json_document(text: Seq<char>) -> Option<Node>;

/// What a parsed JSON value holds.
pub uninterp spec fn json_contents(value: serde_json::Value) -> Node;

/// Parses a TOML document with `toml::from_str`. Whether the text is a
/// document, and what the document holds, depends on the text alone.
#[verifier::external_body]
fn read_toml(text: &str) -> (parsed: Result<toml::Value, toml::de::Error>)
    ensures
        match parsed {
            Ok(value) => toml_document(text@) == Some(toml_contents(value)),
            Err(_) => toml_document(text@) is None,
        },
{
    toml::from_str::<toml::Value>(text)
}

/// Copies what a `toml::Value` holds into a `Node`, variant by variant:
/// strings, integers, booleans, arrays and tables keep their contents,
/// tables in the order in which `toml` walks them; floats and dates become
/// `Other`.
#[verifier::external_body]
fn node_of_toml(value: &toml::Value) -> (node: Node)
    ensures
        node == toml_contents(*value),
{
    match value {
        toml::Value::String(text) => Node::Text(text.clone()),
        toml::Value::Integer(number) => Node::Integer(i128::from(*number)),
        toml::Value::Boolean(flag) => Node::Boolean(*flag),
        toml::Value::Array(items) => Node::List(items.iter().map(node_of_toml).collect()),
        toml::Value::Table(entries) => Node::Table(
            entries.iter().map(|(key, item)| Entry { key: key.clone(), value: node_of_toml(item) }).collect(),
        ),
        toml::Value::Float(_) | toml::Value::Datetime(_) => Node::Other,
    }
}

/// Parses a JSON text with `serde_json::from_str`. Whether the text is a
/// JSON value, and what the value holds, depends on the text alone.
#[verifier::external_body]
fn read_json(text: &str) -> (parsed: Result<serde_json::Value, serde_json::Error>)
    ensures
        match parsed {
            Ok(value) => json_document(text@) == Some(json_contents(value)),
            Err(_) => json_document(text@) is None,
        },
{
    serde_json::from_str::<serde_json::Value>(text)
}

/// Copies what a `serde_json::Value` holds into a `Node`, variant by
/// variant. A number is an `Integer` where `serde_json::Number::as_i128`
/// gives one, and `Other` where it does not.
#[verifier::external_body]
fn node_of_json(value: &serde_json::Value) -> (node: Node)
    ensures
        node == json_contents(*value),
{
    match value {
        serde_json::Value::Null => Node::Null,
        serde_json::Value::Bool(flag) => Node::Boolean(*flag),
        serde_json::Value::Number(number) => number.as_i128().map_or(Node::Other, Node::Integer),
        serde_json::Value::String(text) => Node::Text(text.clone()),
        serde_json::Value::Array(items) => Node::List(items.iter().map(node_of_json).collect()),
        serde_json::Value::Object(entries) => Node::Table(
            entries.iter().map(|(key, item)| Entry { key: key.clone(), value: node_of_json(item) }).collect(),
        ),
    }
}

/// Reads a text as a TOML document: `None` where it is not one.
pub fn parse_toml(text: &str) -> (document: Option<Node>)
    ensures
        document == toml_document(text@),
{
    match read_toml(text) {
        Ok(value) => Some(node_of_toml(&value)),
        Err(_) => None,
    }
}

/// Reads a text as a JSON value: `None` where it is not one.
pub fn parse_json(text: &str) -> (document: Option<Node>)
    ensures
        document == json_document(text@),
{
    match read_json(text) {
        Ok(value) => Some(node_of_json(&value)),
        Err(_) => None,
    }
}

} // verus!
