//! JSON values as plain data.

use crate::text;
use crate::text::{decimal, same_text};
use vstd::prelude::*;
use vstd::string::*;

verus! {

/// A number, by what is read of it.
#[derive(Debug, PartialEq, Eq)]
pub struct JsonNumber {
    /// The value, where it is a whole number that fits.
    pub unsigned: Option<u64>,
    /// The number as it is written.
    pub shown: String,
}

/// A JSON value. The keys of an object differ from each other.
#[derive(Debug, PartialEq, Eq)]
pub enum Json {
    Null,
    Bool(bool),
    Number(JsonNumber),
    Text(String),
    List(Vec<Json>),
    Object(Vec<(String, Json)>),
}

/// The value of the first member with the given key.
pub open spec fn member(members: Seq<(String, Json)>, key: Seq<char>) -> Option<Json>
    decreases members.len(),
{
    if members.len() == 0 {
        None
    } else if members[0].0@ == key {
        Some(members[0].1)
    } else {
        member(members.skip(1), key)
    }
}

/// The value under a key of an object.
pub open spec fn field(v: Json, key: Seq<char>) -> Option<Json> {
    match v {
        Json::Object(members) => member(members@, key),
        _ => None,
    }
}

/// The text of a text value.
pub open spec fn text_value(v: Json) -> Option<Seq<char>> {
    match v {
        Json::Text(s) => Some(s@),
        _ => None,
    }
}

/// The text under a key of an object.
pub open spec fn text_field(v: Json, key: Seq<char>) -> Option<Seq<char>> {
    match field(v, key) {
        Some(f) => text_value(f),
        None => None,
    }
}

/// The whole number of a number value.
pub open spec fn unsigned_value(v: Json) -> Option<u64> {
    match v {
        Json::Number(n) => n.unsigned,
        _ => None,
    }
}

/// The whole number under a key of an object.
pub open spec fn unsigned_field(v: Json, key: Seq<char>) -> Option<u64> {
    match field(v, key) {
        Some(f) => unsigned_value(f),
        None => None,
    }
}

/// What kind of value this is, in words.
pub open spec fn kind_name(v: Json) -> Seq<char> {
    match v {
        Json::Null => "null"@,
        Json::Bool(_) => "boolean"@,
        Json::Number(_) => "number"@,
        Json::Text(_) => "string"@,
        Json::List(_) => "array"@,
        Json::Object(_) => "object"@,
    }
}

/// What kind of value this is, in words.
pub fn json_type_name(v: &Json) -> (r: &'static str)
    ensures
        r@ == kind_name(*v),
{
    match v {
        Json::Null => "null",
        Json::Bool(_) => "boolean",
        Json::Number(_) => "number",
        Json::Text(_) => "string",
        Json::List(_) => "array",
        Json::Object(_) => "object",
    }
}

impl Json {
    /// The value under a key of an object.
    pub fn get(&self, key: &str) -> (r: Option<&Json>)
        ensures
            match r {
                Some(v) => field(*self, key@) == Some(*v),
                None => field(*self, key@) is None,
            },
    {
        let members = match self {
            Json::Object(members) => members,
            _ => {
                return None;
            },
        };
        let mut i: usize = 0;
        assert(members@.skip(0) =~= members@);
        while i < members.len()
            invariant
                i <= members@.len(),
                field(*self, key@) == member(members@, key@),
                member(members@, key@) == member(members@.skip(i as int), key@),
            decreases members@.len() - i,
        {
            assert(members@.skip(i as int)[0] == members@[i as int]);
            assert(members@.skip(i as int).skip(1) =~= members@.skip(i + 1));
            if same_text(members[i].0.as_str(), key) {
                return Some(&members[i].1);
            }
            i += 1;
        }
        assert(members@.skip(i as int).len() == 0);
        None
    }

    /// The text of a text value.
    pub fn as_text(&self) -> (r: Option<&str>)
        ensures
            match r {
                Some(s) => text_value(*self) == Some(s@),
                None => text_value(*self) is None,
            },
    {
        match self {
            Json::Text(s) => Some(s.as_str()),
            _ => None,
        }
    }

    /// The text under a key of an object.
    pub fn text_at(&self, key: &str) -> (r: Option<&str>)
        ensures
            match r {
                Some(s) => text_field(*self, key@) == Some(s@),
                None => text_field(*self, key@) is None,
            },
    {
        match self.get(key) {
            Some(v) => v.as_text(),
            None => None,
        }
    }

    /// The whole number of a number value.
    pub fn as_unsigned(&self) -> (r: Option<u64>)
        ensures
            r == unsigned_value(*self),
    {
        match self {
            Json::Number(n) => n.unsigned,
            _ => None,
        }
    }

    /// The whole number under a key of an object.
    pub fn unsigned_at(&self, key: &str) -> (r: Option<u64>)
        ensures
            r == unsigned_field(*self, key@),
    {
        match self.get(key) {
            Some(v) => v.as_unsigned(),
            None => None,
        }
    }
}

// ---------------------------------------------------------------------------
// Models
// ---------------------------------------------------------------------------

/// The model of a value.
#[verifier::ext_equal]
pub enum JsonModel {
    Null,
    Bool(bool),
    Number(Option<u64>, Seq<char>),
    Text(Seq<char>),
    List(Seq<JsonModel>),
    Object(Seq<(Seq<char>, JsonModel)>),
}

impl View for Json {
    type V = JsonModel;

    open spec fn view(&self) -> JsonModel
        decreases self,
    {
        match self {
            Json::Null => JsonModel::Null,
            Json::Bool(b) => JsonModel::Bool(*b),
            Json::Number(n) => JsonModel::Number(n.unsigned, n.shown@),
            Json::Text(s) => JsonModel::Text(s@),
            Json::List(v) => JsonModel::List(
                Seq::new(
                    v@.len(),
                    |i: int|
                        if 0 <= i < v@.len() {
                            v@[i].view()
                        } else {
                            JsonModel::Null
                        },
                ),
            ),
            Json::Object(v) => JsonModel::Object(
                Seq::new(
                    v@.len(),
                    |i: int|
                        if 0 <= i < v@.len() {
                            (v@[i].0@, v@[i].1.view())
                        } else {
                            (Seq::empty(), JsonModel::Null)
                        },
                ),
            ),
        }
    }
}

/// The models of a list.
pub open spec fn models(v: Seq<Json>) -> Seq<JsonModel> {
    v.map_values(|j: Json| j@)
}

/// The models of the members of an object.
pub open spec fn member_models(v: Seq<(String, Json)>) -> Seq<(Seq<char>, JsonModel)> {
    v.map_values(|m: (String, Json)| (m.0@, m.1@))
}

/// The model of a list holds the models of its items.
pub proof fn lemma_list_view(v: Vec<Json>)
    ensures
        Json::List(v)@ == JsonModel::List(models(v@)),
{
    reveal_with_fuel(<Json as View>::view, 2);
    let a = Json::List(v)@->List_0;
    assert forall|i: int| 0 <= i < v@.len() implies a[i] == models(v@)[i] by {
        assert(a[i] == v@[i]@);
    }
    assert(a =~= models(v@));
}

/// The model of an object holds the models of its members.
pub proof fn lemma_object_view(v: Vec<(String, Json)>)
    ensures
        Json::Object(v)@ == JsonModel::Object(member_models(v@)),
{
    reveal_with_fuel(<Json as View>::view, 2);
    let a = Json::Object(v)@->Object_0;
    assert forall|i: int| 0 <= i < v@.len() implies a[i] == member_models(v@)[i] by {
        assert(a[i] == (v@[i].0@, v@[i].1@));
    }
    assert(a =~= member_models(v@));
}

/// The value of the first member with the given key.
pub open spec fn value_of(members: Seq<(Seq<char>, JsonModel)>, key: Seq<char>) -> Option<JsonModel>
    decreases members.len(),
{
    if members.len() == 0 {
        None
    } else if members[0].0 == key {
        Some(members[0].1)
    } else {
        value_of(members.skip(1), key)
    }
}

/// The value under a key of an object.
pub open spec fn at(v: JsonModel, key: Seq<char>) -> Option<JsonModel> {
    match v {
        JsonModel::Object(members) => value_of(members, key),
        _ => None,
    }
}

/// The text under a key of an object.
pub open spec fn text_under(v: JsonModel, key: Seq<char>) -> Option<Seq<char>> {
    match at(v, key) {
        Some(JsonModel::Text(s)) => Some(s),
        _ => None,
    }
}

/// The whole number under a key of an object.
pub open spec fn unsigned_under(v: JsonModel, key: Seq<char>) -> Option<u64> {
    match at(v, key) {
        Some(JsonModel::Number(n, _)) => n,
        _ => None,
    }
}

/// The list under a key of an object.
pub open spec fn list_under(v: JsonModel, key: Seq<char>) -> Option<Seq<JsonModel>> {
    match at(v, key) {
        Some(JsonModel::List(items)) => Some(items),
        _ => None,
    }
}

/// The members with a value under a key, in its place where there was one.
pub open spec fn members_with(
    members: Seq<(Seq<char>, JsonModel)>,
    key: Seq<char>,
    value: JsonModel,
) -> Seq<(Seq<char>, JsonModel)>
    decreases members.len(),
{
    if members.len() == 0 {
        seq![(key, value)]
    } else if members[0].0 == key {
        members.update(0, (key, value))
    } else {
        seq![members[0]] + members_with(members.skip(1), key, value)
    }
}

/// An object with a value under a key. Nothing becomes an object; another value
/// stays as it is.
pub open spec fn with_field(v: JsonModel, key: Seq<char>, value: JsonModel) -> JsonModel {
    match v {
        JsonModel::Object(members) => JsonModel::Object(members_with(members, key, value)),
        JsonModel::Null => JsonModel::Object(seq![(key, value)]),
        other => other,
    }
}

/// The model of a whole number.
pub open spec fn whole(n: u64) -> JsonModel {
    JsonModel::Number(Some(n), text::numeral(n as nat))
}

proof fn lemma_member_view(members: Seq<(String, Json)>, key: Seq<char>)
    ensures
        match member(members, key) {
            Some(v) => value_of(member_models(members), key) == Some(v@),
            None => value_of(member_models(members), key) is None,
        },
    decreases members.len(),
{
    if members.len() > 0 && members[0].0@ != key {
        lemma_member_view(members.skip(1), key);
        assert(member_models(members).skip(1) =~= member_models(members.skip(1)));
    }
}

/// Looking up a key finds the value with the model that the model has there.
pub proof fn lemma_field_view(v: Json, key: Seq<char>)
    ensures
        match field(v, key) {
            Some(f) => at(v@, key) == Some(f@),
            None => at(v@, key) is None,
        },
{
    match v {
        Json::Object(members) => {
            lemma_object_view(members);
            lemma_member_view(members@, key);
        },
        Json::List(_) => {},
        _ => {},
    }
}

proof fn lemma_members_with(
    members: Seq<(Seq<char>, JsonModel)>,
    key: Seq<char>,
    value: JsonModel,
    other: Seq<char>,
)
    ensures
        value_of(members_with(members, key, value), key) == Some(value),
        other != key ==> value_of(members_with(members, key, value), other) == value_of(
            members,
            other,
        ),
    decreases members.len(),
{
    let after = members_with(members, key, value);
    if members.len() == 0 {
        assert(after.skip(1) =~= Seq::<(Seq<char>, JsonModel)>::empty());
        assert(value_of(after.skip(1), other) is None);
    } else if members[0].0 == key {
        assert(after.skip(1) =~= members.skip(1));
    } else {
        lemma_members_with(members.skip(1), key, value, other);
        assert(after.skip(1) =~= members_with(members.skip(1), key, value));
    }
}

/// A value that is set is found under its key, and what stands under other keys
/// stays.
pub proof fn law_set_is_read_back(
    v: JsonModel,
    key: Seq<char>,
    value: JsonModel,
    other: Seq<char>,
)
    requires
        v is Object || v is Null,
    ensures
        at(with_field(v, key, value), key) == Some(value),
        other != key ==> at(with_field(v, key, value), other) == at(v, other),
{
    match v {
        JsonModel::Object(members) => {
            lemma_members_with(members, key, value, other);
        },
        _ => {
            let members = seq![(key, value)];
            assert(members.skip(1) =~= Seq::<(Seq<char>, JsonModel)>::empty());
            assert(value_of(members.skip(1), other) is None);
        },
    }
}

/// Adds a member to an object that is being put together.
pub fn push_member(members: &mut Vec<(String, Json)>, key: &str, value: Json)
    ensures
        member_models(final(members)@) == member_models(old(members)@).push((key@, value@)),
{
    let ghost before = members@;
    members.push((key.to_owned(), value));
    assert(member_models(members@) =~= member_models(before).push((key@, value@)));
}

/// Adds an item to a list that is being put together.
pub fn push_item(items: &mut Vec<Json>, value: Json)
    ensures
        models(final(items)@) == models(old(items)@).push(value@),
{
    let ghost before = items@;
    items.push(value);
    assert(models(items@) =~= models(before).push(value@));
}

/// A whole number.
pub fn whole_number(n: u64) -> (r: Json)
    ensures
        r@ == whole(n),
{
    Json::Number(JsonNumber { unsigned: Some(n), shown: decimal(n) })
}

/// A text.
pub fn text_json(s: &str) -> (r: Json)
    ensures
        r@ == JsonModel::Text(s@),
{
    Json::Text(s.to_owned())
}

impl Json {
    /// The value under a key of an object.
    pub fn value_at(&self, key: &str) -> (r: Option<&Json>)
        ensures
            match r {
                Some(v) => at(self@, key@) == Some(v@),
                None => at(self@, key@) is None,
            },
    {
        proof {
            lemma_field_view(*self, key@);
        }
        self.get(key)
    }

    /// The list under a key of an object.
    pub fn list_at(&self, key: &str) -> (r: Option<&Vec<Json>>)
        ensures
            match r {
                Some(v) => list_under(self@, key@) == Some(models(v@)),
                None => list_under(self@, key@) is None,
            },
    {
        match self.value_at(key) {
            Some(Json::List(v)) => {
                proof {
                    lemma_list_view(*v);
                }
                Some(v)
            },
            _ => None,
        }
    }

    /// The text under a key of an object.
    pub fn words_at(&self, key: &str) -> (r: Option<&str>)
        ensures
            match r {
                Some(s) => text_under(self@, key@) == Some(s@),
                None => text_under(self@, key@) is None,
            },
    {
        match self.value_at(key) {
            Some(Json::Text(s)) => Some(s.as_str()),
            _ => None,
        }
    }

    /// The whole number under a key of an object.
    pub fn whole_at(&self, key: &str) -> (r: Option<u64>)
        ensures
            r == unsigned_under(self@, key@),
    {
        match self.value_at(key) {
            Some(Json::Number(n)) => n.unsigned,
            _ => None,
        }
    }

    /// Puts a value under a key of an object.
    pub fn set(&mut self, key: &str, value: Json)
        ensures
            final(self)@ == with_field(old(self)@, key@, value@),
    {
        let ghost model = self@;
        if let Json::Null = self {
            let mut members: Vec<(String, Json)> = Vec::new();
            push_member(&mut members, key, value);
            proof {
                lemma_object_view(members);
                assert(member_models(members@) =~= seq![(key@, value@)]);
            }
            *self = Json::Object(members);
        } else if let Json::Object(members) = self {
            set_member(members, key, value);
        }
        proof {
            match *old(self) {
                Json::Object(members) => {
                    lemma_object_view(members);
                    lemma_object_view((*self)->Object_0);
                },
                _ => {},
            }
        }
    }
}

/// Where a key stands first among the members, or their number.
pub open spec fn first_key(members: Seq<(Seq<char>, JsonModel)>, key: Seq<char>, i: int) -> bool {
    &&& 0 <= i <= members.len()
    &&& forall|j: int| 0 <= j < i ==> (#[trigger] members[j]).0 != key
    &&& i < members.len() ==> members[i].0 == key
}

/// What stands under a key, and what setting it gives, by where it stands first.
pub proof fn lemma_first_key(
    members: Seq<(Seq<char>, JsonModel)>,
    key: Seq<char>,
    value: JsonModel,
    i: int,
)
    requires
        first_key(members, key, i),
    ensures
        members_with(members, key, value) == (if i < members.len() {
            members.update(i, (key, value))
        } else {
            members.push((key, value))
        }),
        value_of(members, key) == (if i < members.len() {
            Some(members[i].1)
        } else {
            None
        }),
    decreases i,
{
    let after = members_with(members, key, value);
    if i == 0 {
        if members.len() == 0 {
            assert(after =~= members.push((key, value)));
        }
    } else {
        let rest = members.skip(1);
        assert(members[0].0 != key);
        assert forall|j: int| 0 <= j < i - 1 implies (#[trigger] rest[j]).0 != key by {
            assert(rest[j] == members[j + 1]);
        }
        lemma_first_key(rest, key, value, i - 1);
        if i < members.len() {
            assert(after =~= members.update(i, (key, value)));
        } else {
            assert(after =~= members.push((key, value)));
        }
    }
}

/// Where a key stands first among the members, or their number.
pub fn member_index(members: &Vec<(String, Json)>, key: &str) -> (i: usize)
    ensures
        first_key(member_models(members@), key@, i as int),
{
    let ghost all = member_models(members@);
    let mut i: usize = 0;
    while i < members.len() && !same_text(members[i].0.as_str(), key)
        invariant
            i <= members@.len(),
            all == member_models(members@),
            forall|j: int| 0 <= j < i ==> (#[trigger] all[j]).0 != key@,
        decreases members@.len() - i,
    {
        assert(all[i as int].0 == members@[i as int].0@);
        i += 1;
    }
    assert(i < members@.len() ==> all[i as int].0 == members@[i as int].0@);
    i
}

/// Puts a value under a key.
pub fn set_member(members: &mut Vec<(String, Json)>, key: &str, value: Json)
    ensures
        member_models(final(members)@) == members_with(
            member_models(old(members)@),
            key@,
            value@,
        ),
{
    let ghost before = member_models(members@);
    let i: usize = member_index(members, key);
    proof {
        lemma_first_key(before, key@, value@, i as int);
    }
    if i < members.len() {
        members[i] = (key.to_owned(), value);
        assert(member_models(members@) =~= before.update(i as int, (key@, value@)));
    } else {
        push_member(members, key, value);
    }
}

} // verus!
