//! JSON values as the library builds them, and the JSON layout of the
//! machine-readable report. Writing a value out as text is up to the printer.
use vstd::prelude::*;

verus! {

/// A JSON value.
pub enum JsonValue {
    Bool(bool),
    Number(u64),
    Text(String),
    Array(Vec<JsonValue>),
    /// An object's members, in order.
    Object(Vec<JsonMember>),
}

/// A member of a JSON object.
pub struct JsonMember {
    pub key: String,
    pub value: JsonValue,
}

/// A JSON value in the abstract.
#[verifier::ext_equal]
pub enum JsonTree {
    Bool(bool),
    Number(u64),
    Text(Seq<char>),
    Array(Seq<JsonTree>),
    Object(Seq<(Seq<char>, JsonTree)>),
}

impl JsonValue {
    /// The value in the abstract.
    pub open spec fn tree(self) -> JsonTree
        decreases self,
    {
        match self {
            JsonValue::Bool(b) => JsonTree::Bool(b),
            JsonValue::Number(n) => JsonTree::Number(n),
            JsonValue::Text(s) => JsonTree::Text(s@),
            JsonValue::Array(items) => JsonTree::Array(
                Seq::new(
                    items@.len(),
                    |i: int|
                        if 0 <= i < items@.len() {
                            items@[i].tree()
                        } else {
                            JsonTree::Bool(false)
                        },
                ),
            ),
            JsonValue::Object(members) => JsonTree::Object(
                Seq::new(
                    members@.len(),
                    |i: int|
                        if 0 <= i < members@.len() {
                            (members@[i].key@, members@[i].value.tree())
                        } else {
                            (Seq::empty(), JsonTree::Bool(false))
                        },
                ),
            ),
        }
    }
}

/// The members of an object in the abstract.
pub open spec fn member_trees(members: Seq<JsonMember>) -> Seq<(Seq<char>, JsonTree)> {
    members.map_values(|m: JsonMember| (m.key@, m.value.tree()))
}

/// The values of an array in the abstract.
pub open spec fn value_trees(items: Seq<JsonValue>) -> Seq<JsonTree> {
    items.map_values(|v: JsonValue| v.tree())
}

/// An array holds the trees of its items.
pub proof fn lemma_array_tree(items: Vec<JsonValue>)
    ensures
        JsonValue::Array(items).tree() == JsonTree::Array(value_trees(items@)),
{
    let t = JsonValue::Array(items).tree();
    assert(t->Array_0 =~= value_trees(items@));
}

/// An object holds the keys and trees of its members.
pub proof fn lemma_object_tree(members: Vec<JsonMember>)
    ensures
        JsonValue::Object(members).tree() == JsonTree::Object(member_trees(members@)),
{
    let t = JsonValue::Object(members).tree();
    assert(t->Object_0 =~= member_trees(members@));
}

/// A member named `key`.
pub fn member(key: &str, value: JsonValue) -> (r: JsonMember)
    ensures
        r.key@ == key@,
        r.value == value,
{
    JsonMember { key: String::from_str(key), value }
}

/// A text value holding a copy of `s`.
pub fn text_value(s: &String) -> (r: JsonValue)
    ensures
        r.tree() == JsonTree::Text(s@),
{
    JsonValue::Text(s.clone())
}

/// A text value holding `s`.
pub fn str_value(s: &str) -> (r: JsonValue)
    ensures
        r.tree() == JsonTree::Text(s@),
{
    JsonValue::Text(String::from_str(s))
}

/// A number value.
pub fn number_value(n: usize) -> (r: JsonValue)
    ensures
        r.tree() == JsonTree::Number(n as u64),
{
    JsonValue::Number(n as u64)
}

/// An object made of `members`, in order.
pub fn object_value(members: Vec<JsonMember>) -> (r: JsonValue)
    ensures
        r.tree() == JsonTree::Object(member_trees(members@)),
{
    proof {
        lemma_object_tree(members);
    }
    JsonValue::Object(members)
}

/// A value that the report writes as a JSON value of its own.
pub trait ToJson {
    /// The value in the abstract.
    spec fn json_tree(&self) -> JsonTree;

    /// The value.
    fn to_json(&self) -> (r: JsonValue)
        ensures
            r.tree() == self.json_tree(),
    ;
}

/// A value that the report writes as the members of an object.
pub trait JsonRecord {
    /// The members in the abstract, in order.
    spec fn json_members(&self) -> Seq<(Seq<char>, JsonTree)>;

    /// The members, in order.
    fn to_members(&self) -> (r: Vec<JsonMember>)
        ensures
            member_trees(r@) == self.json_members(),
    ;
}

/// A list written as an array of the values of its items.
pub open spec fn list_tree<T: ToJson>(items: Seq<T>) -> JsonTree {
    JsonTree::Array(items.map_values(|x: T| x.json_tree()))
}

/// The array of the values of `items`, in order.
pub fn array_of<T: ToJson>(items: &Vec<T>) -> (r: JsonValue)
    ensures
        r.tree() == list_tree(items@),
{
    let mut values: Vec<JsonValue> = Vec::new();
    let mut i: usize = 0;
    while i < items.len()
        invariant
            i <= items.len(),
            values@.len() == i,
            forall|k: int| 0 <= k < i ==> #[trigger] values@[k].tree() == items@[k].json_tree(),
        decreases items.len() - i,
    {
        values.push(items[i].to_json());
        i += 1;
    }
    proof {
        lemma_array_tree(values);
        assert(value_trees(values@) =~= items@.map_values(|x: T| x.json_tree()));
    }
    JsonValue::Array(values)
}

impl ToJson for String {
    open spec fn json_tree(&self) -> JsonTree {
        JsonTree::Text(self@)
    }

    fn to_json(&self) -> (r: JsonValue) {
        text_value(self)
    }
}

} // verus!
