//! JSON documents: a plain value to read them by, and the `serde_json` calls that parse,
//! build, and write them.

use serde_json::Value;
use vstd::prelude::*;
use vstd::utf8::*;

use crate::text::{decimal, same_text};

verus! {

/// A JSON document held as plain data. A number is held as the text `serde_json` writes
/// for it, and an object's members in the order they stand in.
pub enum Json {
    Null,
    Bool(bool),
    Number(String),
    Text(String),
    List(Vec<Json>),
    Object(Vec<Member>),
}

/// One member of a JSON object.
pub struct Member {
    pub name: String,
    pub value: Json,
}

/// The mathematical value of a JSON document.
#[verifier::ext_equal]
pub enum Tree {
    Null,
    Bool(bool),
    Number(Seq<char>),
    Text(Seq<char>),
    List(Seq<Tree>),
    Object(Seq<(Seq<char>, Tree)>),
}

/// What `json` stands for.
pub open spec fn tree(json: Json) -> Tree
    decreases json,
{
    match json {
        Json::Null => Tree::Null,
        Json::Bool(b) => Tree::Bool(b),
        Json::Number(n) => Tree::Number(n@),
        Json::Text(t) => Tree::Text(t@),
        Json::List(items) => Tree::List(
            Seq::new(
                items@.len(),
                |i: int| if 0 <= i < items@.len() { tree(items@[i]) } else { Tree::Null },
            ),
        ),
        Json::Object(members) => Tree::Object(
            Seq::new(
                members@.len(),
                |i: int|
                    if 0 <= i < members@.len() {
                        (members@[i].name@, tree(members@[i].value))
                    } else {
                        (Seq::<char>::empty(), Tree::Null)
                    },
            ),
        ),
    }
}

/// The value of the first member called `name`.
pub open spec fn member_of(members: Seq<(Seq<char>, Tree)>, name: Seq<char>) -> Option<Tree>
    decreases members.len(),
{
    if members.len() == 0 {
        None
    } else if members[0].0 == name {
        Some(members[0].1)
    } else {
        member_of(members.drop_first(), name)
    }
}

/// The member of `t` called `name`, where `t` is an object that has one.
pub open spec fn member(t: Tree, name: Seq<char>) -> Option<Tree> {
    match t {
        Tree::Object(members) => member_of(members, name),
        _ => None,
    }
}

/// The text that `t` is, where it is a text.
pub open spec fn text_in(t: Option<Tree>) -> Option<Seq<char>> {
    match t {
        Some(Tree::Text(text)) => Some(text),
        _ => None,
    }
}

/// Whether two number texts write the same number. The texts are those that `serde_json`
/// writes, which differ for different numbers but for the two zeros of a fraction.
pub open spec fn same_number(a: Seq<char>, b: Seq<char>) -> bool {
    a == b || (is_zero_fraction(a) && is_zero_fraction(b))
}

/// Whether a number text writes zero as a fraction, of either sign.
pub open spec fn is_zero_fraction(text: Seq<char>) -> bool {
    text == "0.0"@ || text == "-0.0"@
}

/// Whether two documents say the same: the order of an object's members aside, they are
/// equal in every part.
pub open spec fn same(a: Tree, b: Tree) -> bool
    decreases a,
{
    match (a, b) {
        (Tree::Null, Tree::Null) => true,
        (Tree::Bool(x), Tree::Bool(y)) => x == y,
        (Tree::Number(x), Tree::Number(y)) => same_number(x, y),
        (Tree::Text(x), Tree::Text(y)) => x == y,
        (Tree::List(xs), Tree::List(ys)) => {
            &&& xs.len() == ys.len()
            &&& forall|i: int| 0 <= i < xs.len() ==> same(#[trigger] xs[i], ys[i])
        },
        (Tree::Object(xs), Tree::Object(ys)) => {
            &&& xs.len() == ys.len()
            &&& forall|i: int|
                0 <= i < xs.len() ==> match member_of(ys, (#[trigger] xs[i]).0) {
                    Some(y) => same(xs[i].1, y),
                    None => false,
                }
        },
        _ => false,
    }
}

/// The name that `serde_json` keeps for itself as the first of an object's members.
pub const RESERVED_NAME: &'static str = "$serde_json::private::RawValue";

/// Whether `serde_json` reads back what it writes for `t`: lists and objects nest at most
/// `levels` deep, and no object starts with the reserved name.
pub open spec fn readable(t: Tree, levels: nat) -> bool
    decreases t,
{
    match t {
        Tree::List(items) => levels > 0 && forall|i: int|
            0 <= i < items.len() ==> readable(#[trigger] items[i], (levels - 1) as nat),
        Tree::Object(members) => levels > 0 && (members.len() > 0 ==> members[0].0
            != RESERVED_NAME@) && forall|i: int|
            0 <= i < members.len() ==> readable((#[trigger] members[i]).1, (levels - 1) as nat),
        _ => true,
    }
}

/// Whether no two members have the same name.
pub open spec fn names_differ(members: Seq<(Seq<char>, Tree)>) -> bool {
    forall|i: int, j: int|
        0 <= i < j < members.len() ==> (#[trigger] members[i]).0 != (#[trigger] members[j]).0
}

/// A `serde_json` document.
#[verifier::external_type_specification]
#[verifier::external_body]
pub struct ExValue(Value);

/// The document a `serde_json::Value` holds.
pub uninterp spec fn json_tree(value: Value) -> Tree;

/// The document `serde_json::from_slice` reads from bytes, or `None` where it refuses
/// them.
pub uninterp spec fn json_parse(bytes: Seq<u8>) -> Option<Tree>;

/// The text `serde_json` writes for a document.
pub uninterp spec fn json_text(t: Tree) -> Seq<char>;

/// The documents that `values` hold.
pub open spec fn json_trees(values: Seq<Value>) -> Seq<Tree> {
    Seq::new(values.len(), |i: int| json_tree(values[i]))
}

/// The members that names and values make.
pub open spec fn json_members(members: Seq<(String, Value)>) -> Seq<(Seq<char>, Tree)> {
    Seq::new(members.len(), |i: int| (members[i].0@, json_tree(members[i].1)))
}

/// `serde_json::from_slice`: reads one JSON document from bytes. Claims that what it
/// reads depends on the bytes alone.
#[verifier::external_body]
pub(crate) fn parse(bytes: &[u8]) -> (value: Option<Value>)
    ensures
        value is Some == json_parse(bytes@) is Some,
        value is Some ==> json_parse(bytes@) == Some(json_tree(value->0)),
{
    serde_json::from_slice(bytes).ok()
}

/// `Value`'s `Display`: writes a document compactly. Claims that the text depends on the
/// document alone, and that reading the text gives the document back while it nests no
/// deeper than `serde_json` reads and no object starts with the reserved name.
#[verifier::external_body]
pub(crate) fn write_text(value: &Value) -> (text: String)
    ensures
        text@ == json_text(json_tree(*value)),
        readable(json_tree(*value), 127) ==> json_parse(encode_utf8(text@)) == Some(
            json_tree(*value),
        ),
{
    value.to_string()
}

/// The variants of `serde_json::Value`, taken apart one for one; a number becomes the text
/// of its `Display`. Claims that the result is the document the value holds.
#[verifier::external_body]
pub(crate) fn read(value: &Value) -> (json: Json)
    ensures
        tree(json) == json_tree(*value),
{
    match value {
        Value::Null => Json::Null,
        Value::Bool(b) => Json::Bool(*b),
        Value::Number(n) => Json::Number(n.to_string()),
        Value::String(t) => Json::Text(t.clone()),
        Value::Array(items) => Json::List(items.iter().map(read).collect()),
        Value::Object(members) => Json::Object(
            members.iter().map(|(n, v)| Member { name: n.clone(), value: read(v) }).collect(),
        ),
    }
}

/// `Value::String`: the document that is this text.
#[verifier::external_body]
pub(crate) fn text_value(text: &str) -> (value: Value)
    ensures
        json_tree(value) == Tree::Text(text@),
{
    Value::String(text.to_owned())
}

/// `Value::from(u64)`: the document that is this number, written in decimal.
#[verifier::external_body]
pub(crate) fn number_value(n: u64) -> (value: Value)
    ensures
        json_tree(value) == Tree::Number(decimal(n as nat)),
{
    Value::from(n)
}

/// `Value::Array`: the list of these documents.
#[verifier::external_body]
pub(crate) fn list_value(items: Vec<Value>) -> (value: Value)
    ensures
        json_tree(value) == Tree::List(json_trees(items@)),
{
    Value::Array(items)
}

/// `Value::Object` over `Map::from_iter`: the object with these members, in this order.
/// Names that occur twice are left out of the claim: the map would keep one of them.
#[verifier::external_body]
pub(crate) fn object_value(members: Vec<(String, Value)>) -> (value: Value)
    requires
        names_differ(json_members(members@)),
    ensures
        json_tree(value) == Tree::Object(json_members(members@)),
{
    Value::Object(members.into_iter().collect())
}

/// The object with one member.
pub(crate) fn object_of_one(name: &str, value: Value) -> (object: Value)
    ensures
        json_tree(object) == Tree::Object(seq![(name@, json_tree(value))]),
{
    let mut members: Vec<(String, Value)> = Vec::new();
    members.push((name.to_owned(), value));
    let object = object_value(members);
    assert(json_members(members@) == seq![(name@, json_tree(value))]);
    object
}

impl Json {
    /// The member called `name`, where this is an object that has one.
    pub fn get(&self, name: &str) -> (value: Option<&Json>)
        ensures
            match value {
                Some(value) => member(tree(*self), name@) == Some(tree(*value)),
                None => member(tree(*self), name@) is None,
            },
    {
        match self {
            Json::Object(members) => find_member(members, name),
            _ => None,
        }
    }

    /// The text this is, where it is one.
    pub fn as_str(&self) -> (text: Option<&String>)
        ensures
            match text {
                Some(text) => tree(*self) == Tree::Text(text@),
                None => !(tree(*self) is Text),
            },
    {
        match self {
            Json::Text(text) => Some(text),
            _ => None,
        }
    }

    /// Whether this is `true`.
    pub fn is_true(&self) -> (r: bool)
        ensures
            r == (tree(*self) == Tree::Bool(true)),
    {
        match self {
            Json::Bool(b) => *b,
            _ => false,
        }
    }

    /// Whether two documents say the same.
    pub fn same(&self, other: &Json) -> (r: bool)
        ensures
            r == same(tree(*self), tree(*other)),
        decreases self,
    {
        match (self, other) {
            (Json::Null, Json::Null) => true,
            (Json::Bool(x), Json::Bool(y)) => *x == *y,
            (Json::Number(x), Json::Number(y)) => same_text(x, y) || (zero_fraction(x)
                && zero_fraction(y)),
            (Json::Text(x), Json::Text(y)) => same_text(x, y),
            (Json::List(xs), Json::List(ys)) => {
                let ghost left = tree(*self)->List_0;
                let ghost right = tree(*other)->List_0;
                if xs.len() != ys.len() {
                    return false;
                }
                let mut i: usize = 0;
                while i < xs.len()
                    invariant
                        i <= xs@.len() == ys@.len(),
                        *self == Json::List(*xs),
                        left == tree(*self)->List_0,
                        right == tree(*other)->List_0,
                        tree(*other) is List,
                        *other == Json::List(*ys),
                        forall|k: int| 0 <= k < i ==> same(#[trigger] left[k], right[k]),
                    decreases xs@.len() - i,
                {
                    assert(left[i as int] == tree(xs@[i as int]));
                    assert(right[i as int] == tree(ys@[i as int]));
                    if !xs[i].same(&ys[i]) {
                        return false;
                    }
                    i = i + 1;
                }
                true
            },
            (Json::Object(xs), Json::Object(ys)) => {
                let ghost left = tree(*self)->Object_0;
                let ghost right = tree(*other)->Object_0;
                if xs.len() != ys.len() {
                    return false;
                }
                let mut i: usize = 0;
                while i < xs.len()
                    invariant
                        i <= xs@.len() == ys@.len(),
                        *self == Json::Object(*xs),
                        *other == Json::Object(*ys),
                        left == tree(*self)->Object_0,
                        right == tree(*other)->Object_0,
                        tree(*other) == Tree::Object(right),
                        forall|k: int|
                            0 <= k < i ==> match member_of(right, (#[trigger] left[k]).0) {
                                Some(y) => same(left[k].1, y),
                                None => false,
                            },
                    decreases xs@.len() - i,
                {
                    assert(left[i as int] == (xs@[i as int].name@, tree(xs@[i as int].value)));
                    match find_member(ys, &xs[i].name) {
                        Some(value) => {
                            if !xs[i].value.same(value) {
                                return false;
                            }
                        },
                        None => {
                            return false;
                        },
                    }
                    i = i + 1;
                }
                true
            },
            _ => false,
        }
    }
}

/// Whether a number text writes zero as a fraction, of either sign.
fn zero_fraction(text: &str) -> (r: bool)
    ensures
        r == is_zero_fraction(text@),
{
    same_text(text, "0.0") || same_text(text, "-0.0")
}

/// The value of the first member called `name`.
fn find_member<'a>(members: &'a Vec<Member>, name: &str) -> (value: Option<&'a Json>)
    ensures
        match value {
            Some(value) => member(tree(Json::Object(*members)), name@) == Some(tree(*value)),
            None => member(tree(Json::Object(*members)), name@) is None,
        },
{
    let ghost all = tree(Json::Object(*members))->Object_0;
    let mut i: usize = 0;
    assert(all.subrange(0, all.len() as int) == all);
    while i < members.len()
        invariant
            i <= members@.len() == all.len(),
            all == tree(Json::Object(*members))->Object_0,
            member_of(all, name@) == member_of(all.subrange(i as int, all.len() as int), name@),
        decreases members@.len() - i,
    {
        assert(all[i as int] == (members@[i as int].name@, tree(members@[i as int].value)));
        assert(all.subrange(i as int, all.len() as int).drop_first() == all.subrange(
            i + 1,
            all.len() as int,
        ));
        if same_text(&members[i].name, name) {
            return Some(&members[i].value);
        }
        i = i + 1;
    }
    None
}

} // verus!
