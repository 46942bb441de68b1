//! A JSON document model: an executable tree, its mathematical view, lookups,
//! ordered object editing, and decoding of JSON text.

use serde_json::Value;
use vstd::prelude::*;
use crate::text::str_eq;

verus! {

/// Mathematical content of a JSON value. A real number is carried by the bit
/// pattern of its IEEE-754 double; an object keeps its members in order.
pub ghost enum JsonV {
    Null,
    Bool(bool),
    Int(int),
    Real(u64),
    Str(Seq<char>),
    Array(Seq<JsonV>),
    Object(Seq<(Seq<char>, JsonV)>),
}

/// The ordered members of an object, by key and content.
pub type Fields = Seq<(Seq<char>, JsonV)>;

/// One member of a JSON object.
#[derive(Debug, PartialEq)]
pub struct Member {
    pub key: String,
    pub value: Json,
}

/// Executable JSON value. `UInt` holds integers above `i64::MAX`; `Real`
/// holds the bits of a double.
#[derive(Debug, PartialEq)]
pub enum Json {
    Null,
    Bool(bool),
    Int(i64),
    UInt(u64),
    Real(u64),
    Str(String),
    Array(Vec<Json>),
    Object(Vec<Member>),
}

/// The contents of a sequence of values, item by item.
pub open spec fn items_view(items: Seq<Json>) -> Seq<JsonV>
    decreases items,
{
    if items.len() == 0 {
        Seq::empty()
    } else {
        items_view(items.drop_last()).push(items.last().view())
    }
}

/// The contents of a sequence of members, member by member.
pub open spec fn members_view(members: Seq<Member>) -> Fields
    decreases members,
{
    if members.len() == 0 {
        Seq::empty()
    } else {
        members_view(members.drop_last()).push(
            (members.last().key@, members.last().value.view()),
        )
    }
}

impl View for Json {
    type V = JsonV;

    open spec fn view(&self) -> JsonV
        decreases self,
    {
        match self {
            Json::Null => JsonV::Null,
            Json::Bool(b) => JsonV::Bool(*b),
            Json::Int(i) => JsonV::Int(*i as int),
            Json::UInt(u) => JsonV::Int(*u as int),
            Json::Real(bits) => JsonV::Real(*bits),
            Json::Str(s) => JsonV::Str(s@),
            Json::Array(items) => JsonV::Array(items_view(items@)),
            Json::Object(members) => JsonV::Object(members_view(members@)),
        }
    }
}

/// `items_view` keeps the length and views each item in place.
pub proof fn lemma_items_view(items: Seq<Json>)
    ensures
        items_view(items).len() == items.len(),
        forall|i: int| 0 <= i < items.len() ==> (#[trigger] items_view(items)[i]) == items[i]@,
    decreases items.len(),
{
    if items.len() > 0 {
        lemma_items_view(items.drop_last());
        assert(items_view(items) == items_view(items.drop_last()).push(items.last()@));
    }
}

/// `items_view` of a sequence with one more item.
pub proof fn lemma_items_view_push(items: Seq<Json>, item: Json)
    ensures
        items_view(items.push(item)) == items_view(items).push(item@),
{
    assert(items.push(item).drop_last() =~= items);
}

/// `members_view` of a sequence with one more member.
pub proof fn lemma_members_view_push(members: Seq<Member>, member: Member)
    ensures
        members_view(members.push(member)) == members_view(members).push(
            (member.key@, member.value@),
        ),
{
    assert(members.push(member).drop_last() =~= members);
}

/// `members_view` keeps the length and views each member in place.
pub proof fn lemma_members_view(members: Seq<Member>)
    ensures
        members_view(members).len() == members.len(),
        forall|i: int|
            0 <= i < members.len() ==> (#[trigger] members_view(members)[i]) == (
                members[i].key@,
                members[i].value@,
            ),
    decreases members.len(),
{
    if members.len() > 0 {
        lemma_members_view(members.drop_last());
        assert(members_view(members) == members_view(members.drop_last()).push(
            (members.last().key@, members.last().value@),
        ));
    }
}

/// The position of the first member of `fields` named `key`.
pub open spec fn fields_position(fields: Fields, key: Seq<char>) -> Option<int>
    decreases fields.len(),
{
    if fields.len() == 0 {
        None
    } else if fields[0].0 == key {
        Some(0)
    } else {
        match fields_position(fields.drop_first(), key) {
            Some(i) => Some(i + 1),
            None => None,
        }
    }
}

/// The content of the first member of `fields` named `key`.
pub open spec fn fields_get(fields: Fields, key: Seq<char>) -> Option<JsonV> {
    match fields_position(fields, key) {
        Some(i) => Some(fields[i].1),
        None => None,
    }
}

/// `fields` with `key` bound to `value`: the first member of that name has
/// its content replaced in place; without one, a member is added at the end.
pub open spec fn fields_set(fields: Fields, key: Seq<char>, value: JsonV) -> Fields {
    match fields_position(fields, key) {
        Some(i) => fields.update(i, (key, value)),
        None => fields.push((key, value)),
    }
}

/// `fields` after binding each member of `extra`, in order.
pub open spec fn fields_merge(fields: Fields, extra: Fields) -> Fields
    decreases extra.len(),
{
    if extra.len() == 0 {
        fields
    } else {
        fields_set(
            fields_merge(fields, extra.drop_last()),
            extra.last().0,
            extra.last().1,
        )
    }
}

/// What `fields_position` returns: the least index that holds `key`.
pub proof fn lemma_fields_position(fields: Fields, key: Seq<char>)
    ensures
        match fields_position(fields, key) {
            Some(i) => 0 <= i < fields.len() && fields[i].0 == key && forall|j: int|
                0 <= j < i ==> (#[trigger] fields[j]).0 != key,
            None => forall|j: int| 0 <= j < fields.len() ==> (#[trigger] fields[j]).0 != key,
        },
    decreases fields.len(),
{
    if fields.len() > 0 && fields[0].0 != key {
        let rest = fields.drop_first();
        lemma_fields_position(rest, key);
        match fields_position(rest, key) {
            Some(i) => {
                assert forall|j: int| 0 <= j < i + 1 implies (#[trigger] fields[j]).0 != key by {
                    if j > 0 {
                        assert(fields[j] == rest[j - 1]);
                    }
                }
            },
            None => {
                assert forall|j: int| 0 <= j < fields.len() implies (#[trigger] fields[j]).0
                    != key by {
                    if j > 0 {
                        assert(fields[j] == rest[j - 1]);
                    }
                }
            },
        }
    }
}

/// An index that holds `key` with none before it is the position of `key`.
pub proof fn lemma_fields_position_is(fields: Fields, key: Seq<char>, i: int)
    requires
        0 <= i < fields.len(),
        fields[i].0 == key,
        forall|j: int| 0 <= j < i ==> (#[trigger] fields[j]).0 != key,
    ensures
        fields_position(fields, key) == Some(i),
{
    lemma_fields_position(fields, key);
}

/// Without a member named `key` there is no position for it.
pub proof fn lemma_fields_position_none(fields: Fields, key: Seq<char>)
    requires
        forall|j: int| 0 <= j < fields.len() ==> (#[trigger] fields[j]).0 != key,
    ensures
        fields_position(fields, key) is None,
{
    lemma_fields_position(fields, key);
}

/// Reading back after `fields_set`: the bound key gives the new content and
/// every other key gives what it gave before.
pub proof fn lemma_fields_get_set(fields: Fields, key: Seq<char>, value: JsonV, other: Seq<char>)
    ensures
        fields_get(fields_set(fields, key, value), other) == if other == key {
            Some(value)
        } else {
            fields_get(fields, other)
        },
{
    let after = fields_set(fields, key, value);
    lemma_fields_position(fields, key);
    lemma_fields_position(fields, other);
    lemma_fields_position(after, other);
    match fields_position(fields, key) {
        Some(i) => {
            if other == key {
                lemma_fields_position_is(after, key, i);
            } else {
                match fields_position(fields, other) {
                    Some(k) => {
                        lemma_fields_position_is(after, other, k);
                    },
                    None => {
                        lemma_fields_position_none(after, other);
                    },
                }
            }
        },
        None => {
            if other == key {
                lemma_fields_position_is(after, key, fields.len() as int);
            } else {
                match fields_position(fields, other) {
                    Some(k) => {
                        lemma_fields_position_is(after, other, k);
                    },
                    None => {
                        lemma_fields_position_none(after, other);
                    },
                }
            }
        },
    }
}

impl JsonV {
    /// The content of member `key`, where this is an object that has one.
    pub open spec fn member(self, key: Seq<char>) -> Option<JsonV> {
        match self {
            JsonV::Object(fields) => fields_get(fields, key),
            _ => None,
        }
    }

    /// The item at `index`, where this is an array that long.
    pub open spec fn element(self, index: int) -> Option<JsonV> {
        match self {
            JsonV::Array(items) => if 0 <= index < items.len() {
                Some(items[index])
            } else {
                None
            },
            _ => None,
        }
    }

    /// The text, where this is a string.
    pub open spec fn text(self) -> Option<Seq<char>> {
        match self {
            JsonV::Str(s) => Some(s),
            _ => None,
        }
    }

    /// The number, where this is an integer that fits `i64`.
    pub open spec fn integer(self) -> Option<i64> {
        match self {
            JsonV::Int(i) => if i64::MIN <= i <= i64::MAX {
                Some(i as i64)
            } else {
                None
            },
            _ => None,
        }
    }
}

/// The index in `members` of the first member named `key`.
pub fn position(members: &Vec<Member>, key: &str) -> (found: Option<usize>)
    ensures
        match found {
            Some(i) => fields_position(members_view(members@), key@) == Some(i as int) && i
                < members.len(),
            None => fields_position(members_view(members@), key@) is None,
        },
{
    let mut i: usize = 0;
    proof {
        lemma_members_view(members@);
    }
    while i < members.len()
        invariant
            i <= members.len(),
            members_view(members@).len() == members.len(),
            forall|j: int|
                0 <= j < members.len() ==> (#[trigger] members_view(members@)[j]) == (
                    members[j].key@,
                    members[j].value@,
                ),
            forall|j: int| 0 <= j < i ==> (#[trigger] members_view(members@)[j]).0 != key@,
        decreases members.len() - i,
    {
        if str_eq(members[i].key.as_str(), key) {
            proof {
                lemma_fields_position_is(members_view(members@), key@, i as int);
            }
            return Some(i);
        }
        i += 1;
    }
    proof {
        lemma_fields_position_none(members_view(members@), key@);
    }
    None
}

/// The value of the first member of `members` named `key`.
pub fn get_member<'a>(members: &'a Vec<Member>, key: &str) -> (found: Option<&'a Json>)
    ensures
        match found {
            Some(v) => fields_get(members_view(members@), key@) == Some(v@),
            None => fields_get(members_view(members@), key@) is None,
        },
{
    proof {
        lemma_members_view(members@);
    }
    match position(members, key) {
        Some(i) => Some(&members[i].value),
        None => None,
    }
}

/// Binds `key` to `value` in `members`: replaces the content of the first
/// member of that name, or adds a member at the end.
pub fn set_member(members: &mut Vec<Member>, key: &str, value: Json)
    ensures
        members_view(final(members)@) == fields_set(members_view(old(members)@), key@, value@),
{
    proof {
        lemma_members_view(members@);
    }
    let ghost before = members@;
    let member = Member { key: crate::text::owned(key), value };
    match position(members, key) {
        Some(i) => {
            members.set(i, member);
            proof {
                lemma_members_view(members@);
            }
        },
        None => {
            members.push(member);
            proof {
                assert(members@.drop_last() =~= before);
            }
        },
    }
}

impl Json {
    /// The value of member `key`, where this is an object that has one.
    pub fn get(&self, key: &str) -> (found: Option<&Json>)
        ensures
            match found {
                Some(v) => self@.member(key@) == Some(v@),
                None => self@.member(key@) is None,
            },
    {
        match self {
            Json::Object(members) => get_member(members, key),
            _ => None,
        }
    }

    /// The item at `index`, where this is an array that long.
    pub fn at(&self, index: usize) -> (found: Option<&Json>)
        ensures
            match found {
                Some(v) => self@.element(index as int) == Some(v@),
                None => self@.element(index as int) is None,
            },
    {
        match self {
            Json::Array(items) => {
                proof {
                    lemma_items_view(items@);
                }
                if index < items.len() {
                    Some(&items[index])
                } else {
                    None
                }
            },
            _ => None,
        }
    }

    /// The text, where this is a string.
    pub fn as_str(&self) -> (found: Option<&str>)
        ensures
            match found {
                Some(s) => self@.text() == Some(s@),
                None => self@.text() is None,
            },
    {
        match self {
            Json::Str(s) => Some(s.as_str()),
            _ => None,
        }
    }

    /// The number, where this is an integer that fits `i64`.
    pub fn as_i64(&self) -> (found: Option<i64>)
        ensures
            found == self@.integer(),
    {
        match self {
            Json::Int(i) => Some(*i),
            Json::UInt(u) => if *u <= 0x7fff_ffff_ffff_ffff {
                Some(*u as i64)
            } else {
                None
            },
            _ => None,
        }
    }

    /// A deep copy.
    pub fn duplicate(&self) -> (copy: Json)
        ensures
            copy@ == self@,
        decreases self,
    {
        match self {
            Json::Null => Json::Null,
            Json::Bool(b) => Json::Bool(*b),
            Json::Int(i) => Json::Int(*i),
            Json::UInt(u) => Json::UInt(*u),
            Json::Real(bits) => Json::Real(*bits),
            Json::Str(s) => Json::Str(s.clone()),
            Json::Array(items) => {
                let mut out: Vec<Json> = Vec::new();
                let mut i: usize = 0;
                while i < items.len()
                    invariant
                        i <= items.len(),
                        out@.len() == i,
                        self is Array && self->Array_0 == *items,
                        items_view(out@) == items_view(items@.take(i as int)),
                    decreases items.len() - i,
                {
                    proof {
                        vstd::std_specs::vec::axiom_vec_index_decreases(*items, i as int);
                    }
                    let item = items[i].duplicate();
                    proof {
                        lemma_items_view_push(out@, item);
                        lemma_items_view_push(items@.take(i as int), items@[i as int]);
                        assert(items@.take(i + 1) =~= items@.take(i as int).push(items@[i as int]));
                    }
                    out.push(item);
                    i += 1;
                }
                proof {
                    assert(items@.take(i as int) =~= items@);
                }
                Json::Array(out)
            },
            Json::Object(members) => {
                let mut out: Vec<Member> = Vec::new();
                let mut i: usize = 0;
                while i < members.len()
                    invariant
                        i <= members.len(),
                        out@.len() == i,
                        self is Object && self->Object_0 == *members,
                        members_view(out@) == members_view(members@.take(i as int)),
                    decreases members.len() - i,
                {
                    proof {
                        vstd::std_specs::vec::axiom_vec_index_decreases(*members, i as int);
                    }
                    let value = members[i].value.duplicate();
                    let member = Member { key: members[i].key.clone(), value };
                    proof {
                        lemma_members_view_push(out@, member);
                        lemma_members_view_push(members@.take(i as int), members@[i as int]);
                        assert(members@.take(i + 1) =~= members@.take(i as int).push(
                            members@[i as int],
                        ));
                    }
                    out.push(member);
                    i += 1;
                }
                proof {
                    assert(members@.take(i as int) =~= members@);
                }
                Json::Object(out)
            },
        }
    }
}

/// Adds a member at the end of `members`.
pub fn push_member(members: &mut Vec<Member>, key: &str, value: Json)
    ensures
        members_view(final(members)@) == members_view(old(members)@).push((key@, value@)),
{
    let member = Member { key: crate::text::owned(key), value };
    proof {
        lemma_members_view_push(members@, member);
    }
    members.push(member);
}

/// Adds an item at the end of `items`.
pub fn push_item(items: &mut Vec<Json>, item: Json)
    ensures
        items_view(final(items)@) == items_view(old(items)@).push(item@),
{
    proof {
        lemma_items_view_push(items@, item);
    }
    items.push(item);
}

/// A text value.
pub fn text(value: &str) -> (json: Json)
    ensures
        json@ == JsonV::Str(value@),
{
    Json::Str(crate::text::owned(value))
}

/// An object with one member.
pub fn object1(key: &str, value: Json) -> (object: Json)
    ensures
        object@ == JsonV::Object(seq![(key@, value@)]),
{
    let mut members: Vec<Member> = Vec::new();
    push_member(&mut members, key, value);
    Json::Object(members)
}

/// An object with two members.
pub fn object2(first_key: &str, first: Json, second_key: &str, second: Json) -> (object: Json)
    ensures
        object@ == JsonV::Object(seq![(first_key@, first@), (second_key@, second@)]),
{
    let mut members: Vec<Member> = Vec::new();
    push_member(&mut members, first_key, first);
    push_member(&mut members, second_key, second);
    assert(members_view(members@) =~= seq![(first_key@, first@), (second_key@, second@)]);
    Json::Object(members)
}

/// An object with three members.
pub fn object3(
    first_key: &str,
    first: Json,
    second_key: &str,
    second: Json,
    third_key: &str,
    third: Json,
) -> (object: Json)
    ensures
        object@ == JsonV::Object(
            seq![(first_key@, first@), (second_key@, second@), (third_key@, third@)],
        ),
{
    let mut members: Vec<Member> = Vec::new();
    push_member(&mut members, first_key, first);
    push_member(&mut members, second_key, second);
    push_member(&mut members, third_key, third);
    assert(members_view(members@) =~= seq![
        (first_key@, first@),
        (second_key@, second@),
        (third_key@, third@),
    ]);
    Json::Object(members)
}

/// An array with one item.
pub fn array1(item: Json) -> (array: Json)
    ensures
        array@ == JsonV::Array(seq![item@]),
{
    let mut items: Vec<Json> = Vec::new();
    push_item(&mut items, item);
    Json::Array(items)
}

/// A copy of a list of members.
pub fn duplicate_members(members: &Vec<Member>) -> (copy: Vec<Member>)
    ensures
        members_view(copy@) == members_view(members@),
{
    let mut out: Vec<Member> = Vec::new();
    let mut i: usize = 0;
    while i < members.len()
        invariant
            i <= members.len(),
            out@.len() == i,
            members_view(out@) == members_view(members@.take(i as int)),
        decreases members.len() - i,
    {
        let member = Member { key: members[i].key.clone(), value: members[i].value.duplicate() };
        proof {
            lemma_members_view_push(out@, member);
            lemma_members_view_push(members@.take(i as int), members@[i as int]);
            assert(members@.take(i + 1) =~= members@.take(i as int).push(members@[i as int]));
        }
        out.push(member);
        i += 1;
    }
    proof {
        assert(members@.take(i as int) =~= members@);
    }
    out
}

/// Binds each member of `extra` in `members`, in order; a later binding of
/// a key overrides an earlier one.
pub fn merge_members(members: &mut Vec<Member>, extra: &Vec<Member>)
    ensures
        members_view(final(members)@) == fields_merge(
            members_view(old(members)@),
            members_view(extra@),
        ),
{
    let mut i: usize = 0;
    while i < extra.len()
        invariant
            i <= extra.len(),
            members_view(members@) == fields_merge(
                members_view(old(members)@),
                members_view(extra@.take(i as int)),
            ),
        decreases extra.len() - i,
    {
        let value = extra[i].value.duplicate();
        set_member(members, extra[i].key.as_str(), value);
        proof {
            lemma_members_view_push(extra@.take(i as int), extra@[i as int]);
            assert(extra@.take(i + 1) =~= extra@.take(i as int).push(extra@[i as int]));
            let grown = members_view(extra@.take(i + 1));
            assert(grown.drop_last() =~= members_view(extra@.take(i as int)));
        }
        i += 1;
    }
    proof {
        assert(extra@.take(i as int) =~= extra@);
    }
}

/// What decoding a text as JSON gives: a value, or the reason there is none,
/// in the decoder's own words.
pub ghost enum DecodingV {
    /// The text is one complete JSON value.
    Value(JsonV),
    /// The text ends before its value is complete.
    Truncated(Seq<char>),
    /// The text is not JSON, however it might go on.
    Malformed(Seq<char>),
}

impl DecodingV {
    /// The decoder's words for why there is no value; none where there is one.
    pub open spec fn words(self) -> Seq<char> {
        match self {
            DecodingV::Value(_) => Seq::empty(),
            DecodingV::Truncated(words) => words,
            DecodingV::Malformed(words) => words,
        }
    }
}

/// The outcome of decoding a text as JSON.
#[derive(Debug, PartialEq)]
pub enum Decoded {
    Value(Json),
    Truncated(String),
    Malformed(String),
}

impl View for Decoded {
    type V = DecodingV;

    open spec fn view(&self) -> DecodingV {
        match self {
            Decoded::Value(j) => DecodingV::Value(j@),
            Decoded::Truncated(words) => DecodingV::Truncated(words@),
            Decoded::Malformed(words) => DecodingV::Malformed(words@),
        }
    }
}

#[verifier::external_type_specification]
#[verifier::external_body]
pub struct ExValue(Value);

/// What `serde_json::from_str` makes of a text, as a function of the text:
/// the value, or the class of the failure with the words of the error.
pub uninterp spec fn json_decoding(text: Seq<char>) -> DecodingV;

/// The content of a `serde_json::Value`: its members in the order in which
/// its map hands them out, its numbers as integers where they are integers.
pub uninterp spec fn value_content(value: Value) -> JsonV;

/// A parsed text before its value is brought into the library's own tree.
enum Parsed {
    Value(Value),
    Truncated(String),
    Malformed(String),
}

/// `serde_json::from_str` at type `serde_json::Value`. The contract names the
/// outcome after the text alone. A failure comes with `to_string` of the
/// error, and a failure that `serde_json::Error::is_eof` reports, the text
/// having ended too early, is told from every other failure.
#[verifier::external_body]
fn parse_text(text: &str) -> (parsed: Parsed)
    ensures
        match parsed {
            Parsed::Value(v) => json_decoding(text@) == DecodingV::Value(value_content(v)),
            Parsed::Truncated(words) => json_decoding(text@) == DecodingV::Truncated(words@),
            Parsed::Malformed(words) => json_decoding(text@) == DecodingV::Malformed(words@),
        },
{
    match serde_json::from_str::<Value>(text) {
        Ok(value) => Parsed::Value(value),
        Err(e) => if e.is_eof() {
            Parsed::Truncated(e.to_string())
        } else {
            Parsed::Malformed(e.to_string())
        },
    }
}

/// Moves a `serde_json::Value` into the library's tree, variant by variant:
/// a number through `as_i64`, `as_u64` and `as_f64`, an object through the
/// iteration of its map. The contract claims that the tree holds what the
/// value held.
#[verifier::external_body]
fn from_value(value: Value) -> (tree: Json)
    ensures
        tree@ == value_content(value),
{
    match value {
        Value::Null => Json::Null,
        Value::Bool(b) => Json::Bool(b),
        Value::Number(n) => n.as_i64().map(Json::Int).or(n.as_u64().map(Json::UInt)).or(
            n.as_f64().map(|r| Json::Real(r.to_bits())),
        ).unwrap_or(Json::Null),
        Value::String(s) => Json::Str(s),
        Value::Array(a) => Json::Array(a.into_iter().map(from_value).collect()),
        Value::Object(o) => Json::Object(
            o.into_iter().map(|(key, v)| Member { key, value: from_value(v) }).collect(),
        ),
    }
}

/// Decodes `text` as one JSON value.
pub fn decode(text: &str) -> (decoded: Decoded)
    ensures
        decoded@ == json_decoding(text@),
{
    match parse_text(text) {
        Parsed::Value(value) => Decoded::Value(from_value(value)),
        Parsed::Truncated(words) => Decoded::Truncated(words),
        Parsed::Malformed(words) => Decoded::Malformed(words),
    }
}

} // verus!
