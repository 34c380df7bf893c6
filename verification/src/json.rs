//! JSON documents: the tree that the parser yields, and its mathematical model.

use vstd::prelude::*;

verus! {

/// A double-precision number, carried by its IEEE-754 bit pattern.
///
/// No arithmetic is ever done on it here: a number is read, kept and handed on.
#[derive(Clone, Copy, Debug, PartialEq, Eq)]
pub struct Real {
    pub bits: u64,
}

/// A number of a document, as the three readings that the parser offers of it.
///
/// Each field holds what the reading of that name gives: `unsigned` is there
/// for an integer that is not negative, `signed` for an integer that an `i64`
/// can hold, `real` for the nearest double.
#[derive(Clone, Copy, Debug, PartialEq, Eq)]
pub struct Number {
    pub unsigned: Option<u64>,
    pub signed: Option<i64>,
    pub real: Option<Real>,
}

/// A member of an object: a key and the value under it.
#[derive(Debug, PartialEq, Eq)]
pub struct Member {
    pub key: String,
    pub value: Json,
}

/// A JSON document or a part of one.
#[derive(Debug, PartialEq, Eq)]
pub enum Json {
    Null,
    Bool(bool),
    Number(Number),
    Text(String),
    Array(Vec<Json>),
    Object(Vec<Member>),
}

/// The mathematical model of a [`Json`] value.
pub enum Tree {
    Null,
    Bool(bool),
    Number(Number),
    Text(Seq<char>),
    Array(Seq<Tree>),
    Object(Seq<(Seq<char>, Tree)>),
}

/// The tree that a [`Json`] value stands for.
pub open spec fn tree_of(json: Json) -> Tree
    decreases json,
{
    match json {
        Json::Null => Tree::Null,
        Json::Bool(flag) => Tree::Bool(flag),
        Json::Number(n) => Tree::Number(n),
        Json::Text(text) => Tree::Text(text@),
        Json::Array(items) => Tree::Array(
            Seq::new(
                items.len() as nat,
                |i: int|
                    if 0 <= i < items.len() {
                        tree_of(items[i])
                    } else {
                        Tree::Null
                    },
            ),
        ),
        Json::Object(members) => Tree::Object(
            Seq::new(
                members.len() as nat,
                |i: int|
                    if 0 <= i < members.len() {
                        (members[i].key@, tree_of(members[i].value))
                    } else {
                        (Seq::empty(), Tree::Null)
                    },
            ),
        ),
    }
}

impl View for Json {
    type V = Tree;

    open spec fn view(&self) -> Tree {
        tree_of(*self)
    }
}

impl View for Member {
    type V = (Seq<char>, Tree);

    open spec fn view(&self) -> (Seq<char>, Tree) {
        (self.key@, self.value@)
    }
}

impl Tree {
    /// Whether `i` is the place of the first member of `members` under `key`.
    pub open spec fn is_first(members: Seq<(Seq<char>, Tree)>, key: Seq<char>, i: int) -> bool {
        &&& 0 <= i < members.len()
        &&& members[i].0 == key
        &&& forall|j: int| 0 <= j < i ==> members[j].0 != key
    }

    /// The value of the first member of `members` under `key`.
    pub open spec fn lookup(members: Seq<(Seq<char>, Tree)>, key: Seq<char>) -> Option<Tree> {
        if exists|i: int| Tree::is_first(members, key, i) {
            Some(members[choose|i: int| Tree::is_first(members, key, i)].1)
        } else {
            None
        }
    }

    /// The value under `key`, where this is an object that has such a member.
    pub open spec fn member(self, key: Seq<char>) -> Option<Tree> {
        match self {
            Tree::Object(members) => Tree::lookup(members, key),
            _ => None,
        }
    }
}

/// The first member under `key` is the only candidate: two first places are one.
pub proof fn lemma_first_is_unique(members: Seq<(Seq<char>, Tree)>, key: Seq<char>, i: int, j: int)
    requires
        Tree::is_first(members, key, i),
        Tree::is_first(members, key, j),
    ensures
        i == j,
{
    if i < j {
        assert(members[i].0 != key);
    } else if j < i {
        assert(members[j].0 != key);
    }
}

/// The member at a place with no member of the same key before it is the
/// one that a lookup finds.
pub proof fn lemma_lookup_at(members: Seq<(Seq<char>, Tree)>, key: Seq<char>, i: int)
    requires
        Tree::is_first(members, key, i),
    ensures
        Tree::lookup(members, key) == Some(members[i].1),
{
    let chosen = choose|c: int| Tree::is_first(members, key, c);
    lemma_first_is_unique(members, key, i, chosen);
}

/// The model of an object lists the views of its members, in their order.
pub proof fn lemma_object_view(json: Json)
    requires
        json is Object,
    ensures
        json@ is Object,
        json@->Object_0.len() == json->Object_0.len(),
        forall|k: int| 0 <= k < json->Object_0.len() ==> json@->Object_0[k] == #[trigger] json->Object_0[k]@,
{
}

/// The model of an array lists the views of its items, in their order.
pub proof fn lemma_array_view(json: Json)
    requires
        json is Array,
    ensures
        json@ is Array,
        json@->Array_0.len() == json->Array_0.len(),
        forall|k: int| 0 <= k < json->Array_0.len() ==> json@->Array_0[k] == #[trigger] json->Array_0[k]@,
{
}

impl Json {
    /// The value under `key`, where this is an object that has such a member;
    /// of several members under one key the first counts.
    pub fn member(&self, key: &str) -> (found: Option<&Json>)
        ensures
            match self@.member(key@) {
                Some(tree) => found matches Some(json) && json@ == tree,
                None => found is None,
            },
    {
        match self {
            Json::Object(members) => {
                let wanted = key.to_owned();
                let ghost model = self@->Object_0;
                proof {
                    lemma_object_view(*self);
                }
                let mut i: usize = 0;
                while i < members.len()
                    invariant
                        i <= members.len(),
                        wanted@ == key@,
                        self@ == Tree::Object(model),
                        model.len() == members.len(),
                        forall|k: int| 0 <= k < members.len() ==> model[k] == #[trigger] members[k]@,
                        forall|j: int| 0 <= j < i ==> model[j].0 != key@,
                    decreases members.len() - i,
                {
                    if members[i].key == wanted {
                        proof {
                            assert(model[i as int] == members[i as int]@);
                            lemma_lookup_at(model, key@, i as int);
                        }
                        return Some(&members[i].value);
                    }
                    assert(model[i as int] == members[i as int]@);
                    i += 1;
                }
                proof {
                    assert forall|c: int| !Tree::is_first(model, key@, c) by {
                        if 0 <= c < model.len() {
                            assert(model[c].0 != key@);
                        }
                    }
                }
                None
            },
            _ => None,
        }
    }
}

/// What `serde_json::from_str` makes of a text when asked for a `Value`:
/// the tree of the document, or nothing where the text is no JSON document.
pub uninterp spec fn document(text: Seq<char>) -> Option<Tree>;

/// The tree that a `serde_json::Value` holds.
pub uninterp spec fn value_tree(value: serde_json::Value) -> Tree;

#[verifier::external_type_specification]
#[verifier::external_body]
pub struct ExValue(serde_json::Value);

#[verifier::external_type_specification]
#[verifier::external_body]
pub struct ExSyntaxError(serde_json::Error);

/// `serde_json::from_str::<Value>`. The contract claims only that the outcome
/// is a function of the text: the value that comes back holds
/// `document(text)`, and an error comes back exactly where that is `None`.
#[verifier::external_body]
fn value_from_str(text: &str) -> (outcome: Result<serde_json::Value, serde_json::Error>)
    ensures
        outcome matches Ok(value) ==> document(text@) == Some(value_tree(value)),
        outcome is Err ==> document(text@) is None,
{
    serde_json::from_str::<serde_json::Value>(text)
}

/// Moves a `serde_json::Value` into a [`Json`], variant by variant; a number
/// becomes what `Number::as_u64`, `Number::as_i64` and `Number::as_f64` give
/// for it. The contract claims that nothing is lost or changed on the way:
/// the result's view is the tree that the value holds.
#[verifier::external_body]
fn json_from_value(value: serde_json::Value) -> (json: Json)
    ensures
        json@ == value_tree(value),
{
    match value {
        serde_json::Value::Null => Json::Null,
        serde_json::Value::Bool(flag) => Json::Bool(flag),
        serde_json::Value::Number(n) => Json::Number(Number {
            unsigned: n.as_u64(),
            signed: n.as_i64(),
            real: n.as_f64().map(|x| Real { bits: x.to_bits() }),
        }),
        serde_json::Value::String(text) => Json::Text(text),
        serde_json::Value::Array(items) => Json::Array(items.into_iter().map(json_from_value).collect()),
        serde_json::Value::Object(members) => Json::Object(
            members.into_iter().map(|(key, value)| Member { key, value: json_from_value(value) }).collect(),
        ),
    }
}

/// The `Display` text of a `serde_json::Error`. Nothing is claimed of it.
#[verifier::external_body]
fn syntax_message(error: &serde_json::Error) -> (message: String) {
    error.to_string()
}

/// Reads a text as a JSON document.
///
/// Succeeds exactly where the text is a document, with its tree; fails with
/// the parser's own message otherwise.
pub fn parse(text: &str) -> (outcome: Result<Json, String>)
    ensures
        match document(text@) {
            Some(tree) => outcome matches Ok(json) && json@ == tree,
            None => outcome is Err,
        },
{
    match value_from_str(text) {
        Ok(value) => Ok(json_from_value(value)),
        Err(error) => Err(syntax_message(&error)),
    }
}

} // verus!
