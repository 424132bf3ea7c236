//! JSON documents as the decoders read them, and the parser that makes them.

use vstd::prelude::*;

verus! {

/// A JSON document held in memory.
#[derive(Debug, PartialEq)]
pub enum Json {
    Null,
    Bool(bool),
    /// A number, with its value where it is written as a non-negative integer
    /// below 2^64. No decoder reads any other number.
    Number(Option<u64>),
    Text(String),
    Array(Vec<Json>),
    /// The members of an object, each a key with its value.
    Object(Vec<(String, Json)>),
}

/// What a [`Json`] document says: the same tree over mathematical sequences.
pub enum JsonValue {
    Null,
    Bool(bool),
    Number(Option<u64>),
    Text(Seq<char>),
    Array(Seq<JsonValue>),
    Object(Seq<(Seq<char>, JsonValue)>),
}

impl Json {
    /// The document that `self` stands for.
    pub open spec fn tree(self) -> JsonValue
        decreases self,
    {
        match self {
            Json::Null => JsonValue::Null,
            Json::Bool(b) => JsonValue::Bool(b),
            Json::Number(n) => JsonValue::Number(n),
            Json::Text(s) => JsonValue::Text(s@),
            Json::Array(items) => JsonValue::Array(
                Seq::new(
                    items@.len(),
                    |i: int|
                        if 0 <= i < items@.len() {
                            items@[i].tree()
                        } else {
                            JsonValue::Null
                        },
                ),
            ),
            Json::Object(members) => JsonValue::Object(
                Seq::new(
                    members@.len(),
                    |i: int|
                        if 0 <= i < members@.len() {
                            (members@[i].0@, members@[i].1.tree())
                        } else {
                            (Seq::empty(), JsonValue::Null)
                        },
                ),
            ),
        }
    }
}

impl View for Json {
    type V = JsonValue;

    open spec fn view(&self) -> JsonValue {
        self.tree()
    }
}

/// The value of the first of `members` whose key is `key`.
pub open spec fn first_named(members: Seq<(Seq<char>, JsonValue)>, key: Seq<char>) -> Option<
    JsonValue,
>
    decreases members.len(),
{
    if members.len() == 0 {
        None
    } else if members[0].0 == key {
        Some(members[0].1)
    } else {
        first_named(members.drop_first(), key)
    }
}

impl JsonValue {
    /// The member `key` of an object: the value of its first member of that
    /// name. Anything but an object has no members.
    pub open spec fn member(self, key: Seq<char>) -> Option<JsonValue> {
        match self {
            JsonValue::Object(members) => first_named(members, key),
            _ => None,
        }
    }

    /// The member `key` where it is a text.
    pub open spec fn text_member(self, key: Seq<char>) -> Option<Seq<char>> {
        match self.member(key) {
            Some(JsonValue::Text(text)) => Some(text),
            _ => None,
        }
    }

    /// The items of the member `key` where it is an array.
    pub open spec fn array_member(self, key: Seq<char>) -> Option<Seq<JsonValue>> {
        match self.member(key) {
            Some(JsonValue::Array(items)) => Some(items),
            _ => None,
        }
    }
}

/// Reads every one of `items` with `read`: what each holds, in order, where
/// `read` accepts them all, and `None` where it refuses one.
pub open spec fn read_all<T>(items: Seq<JsonValue>, read: spec_fn(JsonValue) -> Option<T>) -> Option<
    Seq<T>,
> {
    if forall|i: int| 0 <= i < items.len() ==> (#[trigger] read(items[i])) is Some {
        Some(Seq::new(items.len(), |i: int| read(items[i])->0))
    } else {
        None
    }
}

impl Json {
    /// The documents that the items of an array stand for, in order.
    pub open spec fn items_view(items: Seq<Json>) -> Seq<JsonValue> {
        Seq::new(items.len(), |i: int| items[i]@)
    }

    /// The keys and documents that the members of an object stand for, in order.
    pub open spec fn members_view(members: Seq<(String, Json)>) -> Seq<(Seq<char>, JsonValue)> {
        Seq::new(members.len(), |i: int| (members[i].0@, members[i].1@))
    }

    /// An array stands for the array of what its items stand for.
    pub proof fn array_view(items: Vec<Json>)
        ensures
            Json::Array(items)@ == JsonValue::Array(Json::items_view(items@)),
    {
        assert(Json::Array(items)@->Array_0 =~= Json::items_view(items@));
    }

    /// An object stands for the object of what its members stand for.
    pub proof fn object_view(members: Vec<(String, Json)>)
        ensures
            Json::Object(members)@ == JsonValue::Object(Json::members_view(members@)),
    {
        assert(Json::Object(members)@->Object_0 =~= Json::members_view(members@));
    }

    /// The member `key` of an object: the value of its first member of that
    /// name, or `None` where there is none or `self` is no object.
    pub fn member(&self, key: &str) -> (r: Option<&Json>)
        ensures
            match r {
                Some(j) => self@.member(key@) == Some(j@),
                None => self@.member(key@) is None,
            },
    {
        match self {
            Json::Object(members) => {
                let wanted = key.to_owned();
                let ghost all = Json::members_view(members@);
                proof {
                    Json::object_view(*members);
                    assert(all.subrange(0, all.len() as int) =~= all);
                }
                let mut i: usize = 0;
                while i < members.len()
                    invariant
                        i <= members.len(),
                        wanted@ == key@,
                        all == Json::members_view(members@),
                        self@.member(key@) == first_named(all, key@),
                        first_named(all, key@) == first_named(
                            all.subrange(i as int, all.len() as int),
                            key@,
                        ),
                    decreases members.len() - i,
                {
                    let ghost rest = all.subrange(i as int, all.len() as int);
                    proof {
                        assert(rest.drop_first() =~= all.subrange(i + 1, all.len() as int));
                        assert(rest[0] == (members@[i as int].0@, members@[i as int].1@));
                    }
                    if members[i].0 == wanted {
                        return Some(&members[i].1);
                    }
                    i += 1;
                }
                None
            },
            _ => None,
        }
    }

    /// The member `key` where it is a text.
    pub fn text_member(&self, key: &str) -> (r: Option<&String>)
        ensures
            match r {
                Some(text) => self@.text_member(key@) == Some(text@),
                None => self@.text_member(key@) is None,
            },
    {
        match self.member(key) {
            Some(Json::Text(text)) => Some(text),
            _ => None,
        }
    }

    /// The items of the member `key` where it is an array.
    pub fn array_member(&self, key: &str) -> (r: Option<&Vec<Json>>)
        ensures
            match r {
                Some(items) => self@.array_member(key@) == Some(Json::items_view(items@)),
                None => self@.array_member(key@) is None,
            },
    {
        match self.member(key) {
            Some(Json::Array(items)) => {
                proof {
                    Json::array_view(*items);
                }
                Some(items)
            },
            _ => None,
        }
    }
}

/// A member of another name does not change what a name finds: with
/// `(other, value)` put in at any place among `members`, the first member
/// named `key` is the one that it was.
pub proof fn other_member_is_passed_over(
    members: Seq<(Seq<char>, JsonValue)>,
    at: int,
    other: Seq<char>,
    value: JsonValue,
    key: Seq<char>,
)
    requires
        0 <= at <= members.len(),
        other != key,
    ensures
        first_named(members.insert(at, (other, value)), key) == first_named(members, key),
    decreases members.len(),
{
    let wider = members.insert(at, (other, value));
    if at == 0 {
        assert(wider.drop_first() =~= members);
    } else {
        assert(wider[0] == members[0]);
        assert(wider.drop_first() =~= members.drop_first().insert(at - 1, (other, value)));
        other_member_is_passed_over(members.drop_first(), at - 1, other, value, key);
    }
}

/// A member gives a document nothing but its value: with the value of the
/// member at `at` replaced, a name finds the new value where it found the old
/// one, and what it found elsewhere where it found that.
pub proof fn replaced_member_is_found_in_place(
    members: Seq<(Seq<char>, JsonValue)>,
    at: int,
    value: JsonValue,
    key: Seq<char>,
)
    requires
        0 <= at < members.len(),
    ensures
        first_named(members.update(at, (members[at].0, value)), key) == if members[at].0 == key
            && first_named(members.subrange(0, at), key) is None {
            Some(value)
        } else {
            first_named(members, key)
        },
        members[at].0 == key && first_named(members.subrange(0, at), key) is None ==> first_named(
            members,
            key,
        ) == Some(members[at].1),
    decreases members.len(),
{
    let changed = members.update(at, (members[at].0, value));
    if at == 0 {
        assert(changed.drop_first() =~= members.drop_first());
        assert(members.subrange(0, 0).len() == 0);
    } else {
        let rest = members.drop_first();
        assert(changed[0] == members[0]);
        assert(changed.drop_first() =~= rest.update(at - 1, (rest[at - 1].0, value)));
        assert(members.subrange(0, at).drop_first() =~= rest.subrange(0, at - 1));
        assert(members.subrange(0, at)[0] == members[0]);
        replaced_member_is_found_in_place(rest, at - 1, value, key);
    }
}

/// A list is read through its items alone: two lists of one length whose
/// items `read` takes alike are read alike.
pub proof fn lists_read_by_their_items<T>(
    a: Seq<JsonValue>,
    b: Seq<JsonValue>,
    read: spec_fn(JsonValue) -> Option<T>,
)
    requires
        a.len() == b.len(),
        forall|i: int| 0 <= i < a.len() ==> read(#[trigger] a[i]) == read(b[i]),
    ensures
        read_all(a, read) == read_all(b, read),
{
    if read_all(a, read) is Some {
        assert forall|i: int| 0 <= i < b.len() implies (#[trigger] read(b[i])) is Some by {
            assert(read(a[i]) is Some);
        }
        assert(read_all(a, read)->0 =~= read_all(b, read)->0);
    } else {
        let i = choose|i: int| 0 <= i < a.len() && !((#[trigger] read(a[i])) is Some);
        assert(read(b[i]) == read(a[i]));
    }
}

/// `serde_json::Value`, the parser's own tree. It is opaque here: [`lift`]
/// turns one into a [`Json`].
#[verifier::external_type_specification]
#[verifier::external_body]
pub struct ExValue(serde_json::Value);

/// What `serde_json::from_slice` makes of the bytes `body` when asked for a
/// `serde_json::Value`: the document that they are the JSON text of, or the
/// text of the parser's error where they are none.
pub uninterp spec fn parsed(body: Seq<u8>) -> Result<JsonValue, Seq<char>>;

/// The document that a `serde_json::Value` holds.
pub uninterp spec fn value_tree(value: serde_json::Value) -> JsonValue;

/// Calls `serde_json::from_slice` for a `serde_json::Value`, and turns the
/// parser's error into its text.
///
/// Trusted: the parser's answer is a function of the bytes alone, the one
/// that [`parsed`] names. On `Ok` the value holds the document of that name;
/// on `Err` the text is the complaint of that name.
#[verifier::external_body]
fn read_value(body: &[u8]) -> (r: Result<serde_json::Value, String>)
    ensures
        match r {
            Ok(value) => parsed(body@) == Ok::<_, Seq<char>>(value_tree(value)),
            Err(complaint) => parsed(body@) == Err::<JsonValue, _>(complaint@),
        },
{
    match serde_json::from_slice::<serde_json::Value>(body) {
        Ok(value) => Ok(value),
        Err(error) => Err(error.to_string()),
    }
}

/// Moves a `serde_json::Value` into a [`Json`], variant by variant; of a
/// number it keeps what `serde_json::Number::as_u64` returns. It is called on
/// what the parser returned, which the parser nests no deeper than 128 levels.
///
/// Trusted: the result stands for the document that the value holds.
#[verifier::external_body]
fn lift(value: serde_json::Value) -> (j: Json)
    ensures
        j@ == value_tree(value),
{
    match value {
        serde_json::Value::Null => Json::Null,
        serde_json::Value::Bool(b) => Json::Bool(b),
        serde_json::Value::Number(n) => Json::Number(n.as_u64()),
        serde_json::Value::String(s) => Json::Text(s),
        serde_json::Value::Array(items) => Json::Array(items.into_iter().map(lift).collect()),
        serde_json::Value::Object(members) => Json::Object(
            members.into_iter().map(|(key, value)| (key, lift(value))).collect(),
        ),
    }
}

/// Reads `body` as JSON text: the document that the parser reads from these
/// bytes, or its complaint where it reads none.
pub fn parse(body: &[u8]) -> (r: Result<Json, String>)
    ensures
        match r {
            Ok(j) => parsed(body@) == Ok::<_, Seq<char>>(j@),
            Err(complaint) => parsed(body@) == Err::<JsonValue, _>(complaint@),
        },
{
    match read_value(body) {
        Ok(value) => Ok(lift(value)),
        Err(complaint) => Err(complaint),
    }
}

} // verus!
