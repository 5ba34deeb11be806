//! JSON documents as plain values.
//!
//! Parsing is left to `serde_json`; what comes back is copied into [`Json`],
//! a tree of the library's own, so that the rules on the shape of a document
//! can be stated and proved over its model [`JsonModel`].

use vstd::prelude::*;

verus! {

/// A JSON value. Where an object holds two members of one name, the first
/// one counts.
#[derive(Debug, PartialEq, Eq)]
pub enum Json {
    Null,
    Bool(bool),
    /// A number: its value where it is an unsigned integer below 2^64, and
    /// `None` for any other number.
    Number(Option<u64>),
    Text(String),
    Array(Vec<Json>),
    /// The members of an object, in the order in which they are held.
    Object(Vec<Member>),
}

/// One member of a JSON object.
#[derive(Debug, PartialEq, Eq)]
pub struct Member {
    pub name: String,
    pub value: Json,
}

/// The mathematical model of a [`Json`] value.
pub enum JsonModel {
    Null,
    Bool(bool),
    Number(Option<u64>),
    Text(Seq<char>),
    Array(Seq<JsonModel>),
    Object(Seq<(Seq<char>, JsonModel)>),
}

/// The value of the first member called `name`, if there is one.
pub open spec fn lookup(members: Seq<(Seq<char>, JsonModel)>, name: Seq<char>) -> Option<
    JsonModel,
>
    decreases members.len(),
{
    if members.len() == 0 {
        None
    } else if members[0].0 == name {
        Some(members[0].1)
    } else {
        lookup(members.skip(1), name)
    }
}

impl JsonModel {
    /// The member `name` of an object; `None` for a missing member and for a
    /// value that is no object.
    pub open spec fn member(self, name: Seq<char>) -> Option<JsonModel> {
        match self {
            JsonModel::Object(members) => lookup(members, name),
            _ => None,
        }
    }
}

/// The models of the items of an array, in order.
pub open spec fn item_models(items: Seq<Json>) -> Seq<JsonModel>
    decreases items,
{
    if items.len() == 0 {
        Seq::empty()
    } else {
        item_models(items.drop_last()).push(items.last().view())
    }
}

/// The names and the models of the members of an object, in order.
pub open spec fn member_models(members: Seq<Member>) -> Seq<(Seq<char>, JsonModel)>
    decreases members,
{
    if members.len() == 0 {
        Seq::empty()
    } else {
        member_models(members.drop_last()).push(
            (members.last().name@, members.last().value.view()),
        )
    }
}

impl View for Member {
    type V = (Seq<char>, JsonModel);

    open spec fn view(&self) -> (Seq<char>, JsonModel) {
        (self.name@, self.value@)
    }
}

impl View for Json {
    type V = JsonModel;

    open spec fn view(&self) -> JsonModel
        decreases self,
    {
        match self {
            Json::Null => JsonModel::Null,
            Json::Bool(b) => JsonModel::Bool(*b),
            Json::Number(n) => JsonModel::Number(*n),
            Json::Text(s) => JsonModel::Text(s@),
            Json::Array(items) => JsonModel::Array(item_models(items@)),
            Json::Object(members) => JsonModel::Object(member_models(members@)),
        }
    }
}

/// `item_models` keeps the length and maps item by item.
pub proof fn lemma_item_models(items: Seq<Json>)
    ensures
        item_models(items).len() == items.len(),
        forall|i: int| 0 <= i < items.len() ==> item_models(items)[i] == #[trigger] items[i]@,
    decreases items.len(),
{
    if items.len() > 0 {
        let front = items.drop_last();
        lemma_item_models(front);
        assert(item_models(items) == item_models(front).push(items.last()@));
        assert forall|i: int| 0 <= i < items.len() implies item_models(items)[i]
            == #[trigger] items[i]@ by {
            if i < front.len() {
                assert(front[i]@ == items[i]@);
            }
        }
    } else {
        assert(item_models(items) == Seq::<JsonModel>::empty());
    }
}

/// `member_models` keeps the length and maps member by member.
pub proof fn lemma_member_models(members: Seq<Member>)
    ensures
        member_models(members).len() == members.len(),
        forall|i: int|
            0 <= i < members.len() ==> member_models(members)[i] == #[trigger] members[i]@,
    decreases members.len(),
{
    if members.len() > 0 {
        let front = members.drop_last();
        lemma_member_models(front);
        assert(member_models(members) == member_models(front).push(members.last()@));
        assert forall|i: int| 0 <= i < members.len() implies member_models(members)[i]
            == #[trigger] members[i]@ by {
            if i < front.len() {
                assert(front[i]@ == members[i]@);
            }
        }
    } else {
        assert(member_models(members) == Seq::<(Seq<char>, JsonModel)>::empty());
    }
}

/// The model of an array holds the models of its items, and the model of an
/// object the names and the models of its members, in the same order.
pub proof fn lemma_model_in_order(json: Json)
    ensures
        json matches Json::Array(items) ==> {
            &&& json@ is Array
            &&& json@->Array_0.len() == items@.len()
            &&& forall|i: int| 0 <= i < items@.len() ==> json@->Array_0[i] == #[trigger] items@[i]@
        },
        json matches Json::Object(members) ==> {
            &&& json@ is Object
            &&& json@->Object_0.len() == members@.len()
            &&& forall|i: int|
                0 <= i < members@.len() ==> json@->Object_0[i] == #[trigger] members@[i]@
        },
{
    match json {
        Json::Array(items) => {
            lemma_item_models(items@);
            assert(json@ == JsonModel::Array(item_models(items@)));
        },
        Json::Object(members) => {
            lemma_member_models(members@);
            assert(json@ == JsonModel::Object(member_models(members@)));
        },
        _ => {},
    }
}

impl Json {
    /// Looks up the member `name` of an object: the first one of that name.
    /// A value that is no object has no members.
    pub fn get(&self, name: &str) -> (found: Option<&Json>)
        ensures
            match found {
                Some(value) => self@.member(name@) == Some(value@),
                None => self@.member(name@) is None,
            },
    {
        match self {
            Json::Object(members) => {
                let key = name.to_owned();
                let ghost held = self@->Object_0;
                proof {
                    lemma_model_in_order(*self);
                    assert(held.skip(0) =~= held);
                }
                let mut i: usize = 0;
                while i < members.len()
                    invariant
                        i <= members@.len(),
                        key@ == name@,
                        self@ == JsonModel::Object(held),
                        held.len() == members@.len(),
                        forall|j: int| 0 <= j < held.len() ==> held[j] == #[trigger] members@[j]@,
                        lookup(held, name@) == lookup(held.skip(i as int), name@),
                    decreases members@.len() - i,
                {
                    proof {
                        assert(held.skip(i as int)[0] == held[i as int]);
                        assert(held.skip(i as int).skip(1) =~= held.skip(i as int + 1));
                        assert(held[i as int] == members@[i as int]@);
                    }
                    if members[i].name == key {
                        return Some(&members[i].value);
                    }
                    i += 1;
                }
                None
            },
            _ => None,
        }
    }
}

/// The document that `serde_json` reads from a text: the model of the value
/// it returns, or `None` where it rejects the text.
pub uninterp spec fn json_document(text: Seq<char>) -> Option<JsonModel>;

/// What a `serde_json::Value` holds, as a model: its variant, and under it the
/// flag, the number seen through `Number::as_u64`, the text, the items in
/// order, or the members in the order of `Map::into_iter`.
pub uninterp spec fn value_model(value: serde_json::Value) -> JsonModel;

/// `serde_json::Value`, carried from the parser to the copy; nothing is known
/// of it but its [`value_model`].
#[verifier::external_type_specification]
#[verifier::external_body]
pub struct ExValue(serde_json::Value);

/// `serde_json::Error`, of which nothing is read.
#[verifier::external_type_specification]
#[verifier::external_body]
pub struct ExJsonError(serde_json::Error);

/// Calls `serde_json::from_str` for a `serde_json::Value`. Trusted: the call
/// succeeds exactly where [`json_document`] is defined, and the value it
/// returns holds that document.
#[verifier::external_body]
fn read_value(text: &str) -> (read: Result<serde_json::Value, serde_json::Error>)
    ensures
        read is Ok <==> json_document(text@) is Some,
        read matches Ok(value) ==> json_document(text@) == Some(value_model(value)),
{
    serde_json::from_str::<serde_json::Value>(text)
}

/// Copies a `serde_json::Value` into a [`Json`], variant by variant, through
/// `Number::as_u64`, `Vec::into_iter` and `Map::into_iter`. Trusted: the copy
/// holds what the value held.
#[verifier::external_body]
fn json_from_value(value: serde_json::Value) -> (json: Json)
    ensures
        json@ == value_model(value),
{
    match value {
        serde_json::Value::Null => Json::Null,
        serde_json::Value::Bool(b) => Json::Bool(b),
        serde_json::Value::Number(n) => Json::Number(n.as_u64()),
        serde_json::Value::String(s) => Json::Text(s),
        serde_json::Value::Array(items) => Json::Array(
            items.into_iter().map(json_from_value).collect(),
        ),
        serde_json::Value::Object(map) => Json::Object(
            map.into_iter().map(|(name, v)| Member { name, value: json_from_value(v) }).collect(),
        ),
    }
}

/// Reads a JSON document from a text.
pub fn parse(text: &str) -> (document: Option<Json>)
    ensures
        match document {
            Some(json) => json_document(text@) == Some(json@),
            None => json_document(text@) is None,
        },
{
    match read_value(text) {
        Ok(value) => Some(json_from_value(value)),
        Err(_) => None,
    }
}

} // verus!
