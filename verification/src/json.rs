//! Reading JSON documents, which the `serde_json` crate parses.
//!
//! A parsed document is addressed by JSON Pointers (RFC 6901): the empty text
//! names the document itself, `/a/0` names the first item of the member `a`.
//! To the verifier a document is the map from each pointer that names
//! something in it to what stands there.

use vstd::prelude::*;
use vstd::string::StringExecFns;

verus! {

/// What stands at one place of a JSON document. Of an array only its length
/// is held, of an object nothing: their parts have pointers of their own.
#[derive(Debug)]
pub enum Node {
    Null,
    Bool(bool),
    /// A number, in the decimal notation in which `serde_json` prints it.
    Number(String),
    Text(String),
    /// An array, with the number of its items.
    Array(usize),
    Object,
}

/// The mathematical value of a `Node`.
pub enum NodeView {
    Null,
    Bool(bool),
    Number(Seq<char>),
    Text(Seq<char>),
    Array(nat),
    Object,
}

impl View for Node {
    type V = NodeView;

    open spec fn view(&self) -> NodeView {
        match self {
            Node::Null => NodeView::Null,
            Node::Bool(b) => NodeView::Bool(*b),
            Node::Number(n) => NodeView::Number(n@),
            Node::Text(t) => NodeView::Text(t@),
            Node::Array(len) => NodeView::Array(*len as nat),
            Node::Object => NodeView::Object,
        }
    }
}

impl DeepView for Node {
    type V = NodeView;

    open spec fn deep_view(&self) -> NodeView {
        self@
    }
}

/// A JSON document as the verifier sees it: each pointer that names a place
/// in the document, with what stands there.
pub type Document = Map<Seq<char>, NodeView>;

/// Makes `serde_json::Value`, a parsed JSON document, known to the verifier,
/// which sees nothing inside it: what a document holds is told by
/// `json_nodes`.
#[verifier::external_type_specification]
#[verifier::external_body]
pub struct ExJsonValue(serde_json::Value);

/// What stands at `pointer` in `doc`, if anything does.
pub open spec fn node_of(doc: Document, pointer: Seq<char>) -> Option<NodeView> {
    if doc.contains_key(pointer) {
        Some(doc[pointer])
    } else {
        None
    }
}

/// What the parsed document `doc` holds.
pub uninterp spec fn json_nodes(doc: serde_json::Value) -> Document;

/// The document that `text` is the JSON notation of; `None` where `text` is
/// not JSON that `serde_json` accepts.
pub uninterp spec fn json_document(text: Seq<char>) -> Option<Document>;

/// Parses `text` with `serde_json::from_str` into a `serde_json::Value`.
///
/// Nothing is proved of this function. Its contract claims that whether
/// `text` parses, and to what, depends on `text` alone, which gives the
/// outcome the name `json_document`.
#[verifier::external_body]
pub(crate) fn parse_document(text: &str) -> (doc: Option<serde_json::Value>)
    ensures
        match doc {
            Some(d) => json_document(text@) == Some(json_nodes(d)),
            None => json_document(text@) is None,
        },
{
    serde_json::from_str::<serde_json::Value>(text).ok()
}

/// Looks `pointer` up in `doc` with `serde_json::Value::pointer` and tells
/// what stands there.
///
/// Nothing is proved of this function. Its contract claims that the lookup
/// succeeds exactly for the pointers that `json_nodes(doc)` holds, and gives
/// what the map holds there: the variant of the value found, the truth value
/// of a boolean, the text of a string, a number as `serde_json` prints it, and
/// the length of an array.
#[verifier::external_body]
pub(crate) fn node_at(doc: &serde_json::Value, pointer: &str) -> (node: Option<Node>)
    ensures
        node.deep_view() == node_of(json_nodes(*doc), pointer@),
{
    doc.pointer(pointer).map(
        |value| match value {
            serde_json::Value::Null => Node::Null,
            serde_json::Value::Bool(b) => Node::Bool(*b),
            serde_json::Value::Number(n) => Node::Number(n.to_string()),
            serde_json::Value::String(s) => Node::Text(s.clone()),
            serde_json::Value::Array(items) => Node::Array(items.len()),
            serde_json::Value::Object(_) => Node::Object,
        },
    )
}

/// The text of the string at `pointer`; `None` where no string stands there.
pub open spec fn text_at(doc: Document, pointer: Seq<char>) -> Option<Seq<char>> {
    match node_of(doc, pointer) {
        Some(NodeView::Text(t)) => Some(t),
        _ => None,
    }
}

/// The truth value at `pointer`; `None` where no boolean stands there.
pub open spec fn bool_at(doc: Document, pointer: Seq<char>) -> Option<bool> {
    match node_of(doc, pointer) {
        Some(NodeView::Bool(b)) => Some(b),
        _ => None,
    }
}

/// The notation of the number at `pointer`; `None` where no number stands there.
pub open spec fn number_at(doc: Document, pointer: Seq<char>) -> Option<Seq<char>> {
    match node_of(doc, pointer) {
        Some(NodeView::Number(n)) => Some(n),
        _ => None,
    }
}

/// The length of the array at `pointer`; `None` where no array stands there.
pub open spec fn len_at(doc: Document, pointer: Seq<char>) -> Option<nat> {
    match node_of(doc, pointer) {
        Some(NodeView::Array(len)) => Some(len),
        _ => None,
    }
}

/// Whether an object stands at `pointer`.
pub open spec fn object_at(doc: Document, pointer: Seq<char>) -> bool {
    node_of(doc, pointer) == Some(NodeView::Object)
}

/// Whether nothing stands at `pointer`, or `null` does.
pub open spec fn vacant_at(doc: Document, pointer: Seq<char>) -> bool {
    node_of(doc, pointer) is None || node_of(doc, pointer) == Some(NodeView::Null)
}

/// The pointer to the member `key` of the object at `base`. `key` must hold
/// neither `/` nor `~`.
pub open spec fn member(base: Seq<char>, key: Seq<char>) -> Seq<char> {
    base + "/"@ + key
}

/// The one-character notation of a number below ten.
pub open spec fn digit(d: nat) -> Seq<char> {
    if d == 0 {
        "0"@
    } else if d == 1 {
        "1"@
    } else if d == 2 {
        "2"@
    } else if d == 3 {
        "3"@
    } else if d == 4 {
        "4"@
    } else if d == 5 {
        "5"@
    } else if d == 6 {
        "6"@
    } else if d == 7 {
        "7"@
    } else if d == 8 {
        "8"@
    } else {
        "9"@
    }
}

/// The decimal notation of `n`, without leading zeros.
pub open spec fn decimal(n: nat) -> Seq<char>
    decreases n,
{
    if n < 10 {
        digit(n)
    } else {
        decimal(n / 10) + digit(n % 10)
    }
}

/// The pointer to item `index` of the array at `base`.
pub open spec fn item(base: Seq<char>, index: nat) -> Seq<char> {
    base + "/"@ + decimal(index)
}

fn digit_text(d: usize) -> (text: &'static str)
    requires
        d < 10,
    ensures
        text@ == digit(d as nat),
{
    if d == 0 {
        "0"
    } else if d == 1 {
        "1"
    } else if d == 2 {
        "2"
    } else if d == 3 {
        "3"
    } else if d == 4 {
        "4"
    } else if d == 5 {
        "5"
    } else if d == 6 {
        "6"
    } else if d == 7 {
        "7"
    } else if d == 8 {
        "8"
    } else {
        "9"
    }
}

/// Writes `n` in decimal notation.
pub fn decimal_text(n: usize) -> (text: String)
    ensures
        text@ == decimal(n as nat),
    decreases n,
{
    if n < 10 {
        String::from_str(digit_text(n))
    } else {
        decimal_text(n / 10).concat(digit_text(n % 10))
    }
}

/// The pointer to the member `key` of the object at `base`.
pub fn member_pointer(base: &str, key: &str) -> (pointer: String)
    ensures
        pointer@ == member(base@, key@),
{
    String::from_str(base).concat("/").concat(key)
}

/// The pointer to item `index` of the array at `base`.
pub fn item_pointer(base: &str, index: usize) -> (pointer: String)
    ensures
        pointer@ == item(base@, index as nat),
{
    let number = decimal_text(index);
    String::from_str(base).concat("/").concat(number.as_str())
}

/// Reads the string at `pointer`.
pub fn read_text(doc: &serde_json::Value, pointer: &str) -> (text: Option<String>)
    ensures
        text.deep_view() == text_at(json_nodes(*doc), pointer@),
{
    match node_at(doc, pointer) {
        Some(Node::Text(t)) => Some(t),
        _ => None,
    }
}

/// Reads the boolean at `pointer`.
pub fn read_bool(doc: &serde_json::Value, pointer: &str) -> (value: Option<bool>)
    ensures
        value == bool_at(json_nodes(*doc), pointer@),
{
    match node_at(doc, pointer) {
        Some(Node::Bool(b)) => Some(b),
        _ => None,
    }
}

/// Reads the number at `pointer`, in decimal notation.
pub fn read_number(doc: &serde_json::Value, pointer: &str) -> (number: Option<String>)
    ensures
        number.deep_view() == number_at(json_nodes(*doc), pointer@),
{
    match node_at(doc, pointer) {
        Some(Node::Number(n)) => Some(n),
        _ => None,
    }
}

/// Reads the length of the array at `pointer`.
pub fn read_len(doc: &serde_json::Value, pointer: &str) -> (len: Option<usize>)
    ensures
        len_at(json_nodes(*doc), pointer@) == match len {
            Some(n) => Some(n as nat),
            None => None,
        },
{
    match node_at(doc, pointer) {
        Some(Node::Array(n)) => Some(n),
        _ => None,
    }
}

/// Tells whether an object stands at `pointer`.
pub fn is_object(doc: &serde_json::Value, pointer: &str) -> (is: bool)
    ensures
        is == object_at(json_nodes(*doc), pointer@),
{
    match node_at(doc, pointer) {
        Some(Node::Object) => true,
        _ => false,
    }
}

/// Tells whether nothing stands at `pointer`, or `null` does.
pub fn is_vacant(doc: &serde_json::Value, pointer: &str) -> (is: bool)
    ensures
        is == vacant_at(json_nodes(*doc), pointer@),
{
    match node_at(doc, pointer) {
        None => true,
        Some(Node::Null) => true,
        _ => false,
    }
}

/// Reads the string at `pointer` where one may stand: nothing, or `null`,
/// reads as no string; anything but a string is an error.
pub open spec fn optional_text_at(doc: Document, pointer: Seq<char>) -> Option<Option<Seq<char>>> {
    if vacant_at(doc, pointer) {
        Some(None)
    } else {
        match text_at(doc, pointer) {
            Some(t) => Some(Some(t)),
            None => None,
        }
    }
}

/// Reads the string at `pointer` where one may stand.
pub fn read_optional_text(doc: &serde_json::Value, pointer: &str) -> (text: Option<Option<String>>)
    ensures
        text.deep_view() == optional_text_at(json_nodes(*doc), pointer@),
{
    match node_at(doc, pointer) {
        None => Some(None),
        Some(Node::Null) => Some(None),
        Some(Node::Text(t)) => Some(Some(t)),
        _ => None,
    }
}

/// Reads the boolean at `pointer` where one may stand: nothing, or `null`,
/// reads as no boolean; anything but a boolean is an error.
pub open spec fn optional_bool_at(doc: Document, pointer: Seq<char>) -> Option<Option<bool>> {
    if vacant_at(doc, pointer) {
        Some(None)
    } else {
        match bool_at(doc, pointer) {
            Some(b) => Some(Some(b)),
            None => None,
        }
    }
}

/// Reads the boolean at `pointer` where one may stand.
pub fn read_optional_bool(doc: &serde_json::Value, pointer: &str) -> (value: Option<Option<bool>>)
    ensures
        value == optional_bool_at(json_nodes(*doc), pointer@),
{
    match node_at(doc, pointer) {
        None => Some(None),
        Some(Node::Null) => Some(None),
        Some(Node::Bool(b)) => Some(Some(b)),
        _ => None,
    }
}

} // verus!
