//! JSON documents as trees, with the mathematical model that contracts speak of.
//!
//! Text is not handled here: a caller turns bytes into a [`Json`] tree and back
//! with the JSON codec of its choice.

use vstd::prelude::*;
use vstd::std_specs::vec::axiom_vec_index_decreases;

use crate::text::same_text;

verus! {

/// A JSON document.
#[derive(Debug, PartialEq, Eq)]
pub enum Json {
    Null,
    Bool(bool),
    /// A number without fraction or exponent.
    Integer(i128),
    /// Any other number, kept as the bit pattern of its binary64 form.
    Real(u64),
    Text(String),
    Array(Vec<Json>),
    /// The members of an object, in document order.
    Object(Vec<Member>),
}

/// One `key: value` entry of an object.
#[derive(Debug, PartialEq, Eq)]
pub struct Member {
    pub key: String,
    pub value: Json,
}

/// What a [`Json`] value stands for.
pub ghost enum JsonModel {
    Null,
    Bool(bool),
    Integer(int),
    Real(u64),
    Text(Seq<char>),
    Array(Seq<JsonModel>),
    Object(Seq<MemberModel>),
}

/// What a [`Member`] stands for.
pub ghost struct MemberModel {
    pub key: Seq<char>,
    pub value: JsonModel,
}

/// The model of a document, built from the models of its parts. The bounds
/// on `i` are there for the proof that the definition ends.
pub open spec fn model_of(json: Json) -> JsonModel
    decreases json,
{
    match json {
        Json::Null => JsonModel::Null,
        Json::Bool(b) => JsonModel::Bool(b),
        Json::Integer(i) => JsonModel::Integer(i as int),
        Json::Real(bits) => JsonModel::Real(bits),
        Json::Text(s) => JsonModel::Text(s@),
        Json::Array(items) => JsonModel::Array(
            Seq::new(
                items@.len(),
                |i: int|
                    if 0 <= i < items@.len() {
                        model_of(items@[i])
                    } else {
                        JsonModel::Null
                    },
            ),
        ),
        Json::Object(members) => JsonModel::Object(
            Seq::new(
                members@.len(),
                |i: int|
                    if 0 <= i < members@.len() {
                        MemberModel { key: members@[i].key@, value: model_of(members@[i].value) }
                    } else {
                        MemberModel { key: Seq::empty(), value: JsonModel::Null }
                    },
            ),
        ),
    }
}

impl View for Json {
    type V = JsonModel;

    open spec fn view(&self) -> JsonModel {
        model_of(*self)
    }
}

impl DeepView for Json {
    type V = JsonModel;

    open spec fn deep_view(&self) -> JsonModel {
        self@
    }
}

impl View for Member {
    type V = MemberModel;

    open spec fn view(&self) -> MemberModel {
        MemberModel { key: self.key@, value: self.value@ }
    }
}

impl DeepView for Member {
    type V = MemberModel;

    open spec fn deep_view(&self) -> MemberModel {
        self@
    }
}

impl Clone for Json {
    /// A copy that stands for the same document.
    fn clone(&self) -> (copy: Json)
        ensures
            copy@ == self@,
        decreases self,
    {
        match self {
            Json::Null => Json::Null,
            Json::Bool(b) => Json::Bool(*b),
            Json::Integer(i) => Json::Integer(*i),
            Json::Real(bits) => Json::Real(*bits),
            Json::Text(s) => Json::Text(s.clone()),
            Json::Array(items) => {
                let mut copies: Vec<Json> = Vec::new();
                let mut i: usize = 0;
                while i < items.len()
                    invariant
                        i <= items.len(),
                        *self == Json::Array(*items),
                        copies@.len() == i,
                        forall|k: int| 0 <= k < i ==> (#[trigger] copies@[k])@ == items@[k]@,
                    decreases items.len() - i,
                {
                    proof {
                        axiom_vec_index_decreases(*items, i as int);
                        assert(self->Array_0 == *items);
                        assert(decreases_to!(*self => self->Array_0));
                    }
                    copies.push(items[i].clone());
                    i += 1;
                }
                let copy = Json::Array(copies);
                assert(copy@->Array_0 =~= self@->Array_0);
                copy
            },
            Json::Object(members) => {
                let mut copies: Vec<Member> = Vec::new();
                let mut i: usize = 0;
                while i < members.len()
                    invariant
                        i <= members.len(),
                        *self == Json::Object(*members),
                        copies@.len() == i,
                        forall|k: int| 0 <= k < i ==> (#[trigger] copies@[k])@ == members@[k]@,
                    decreases members.len() - i,
                {
                    proof {
                        axiom_vec_index_decreases(*members, i as int);
                        assert(self->Object_0 == *members);
                        assert(decreases_to!(*self => self->Object_0));
                    }
                    copies.push(
                        Member { key: members[i].key.clone(), value: members[i].value.clone() },
                    );
                    i += 1;
                }
                let copy = Json::Object(copies);
                assert(copy@->Object_0 =~= self@->Object_0);
                copy
            },
        }
    }
}

impl Clone for Member {
    /// A copy that stands for the same member.
    fn clone(&self) -> (copy: Member)
        ensures
            copy@ == self@,
    {
        Member { key: self.key.clone(), value: self.value.clone() }
    }
}

/// The values that `members` hold under `key`, in document order.
pub open spec fn values_of(members: Seq<MemberModel>, key: Seq<char>) -> Seq<JsonModel>
    decreases members.len(),
{
    if members.len() == 0 {
        Seq::empty()
    } else if members.last().key == key {
        values_of(members.drop_last(), key).push(members.last().value)
    } else {
        values_of(members.drop_last(), key)
    }
}

/// What an object says about one key.
pub ghost enum Field {
    /// No member has the key.
    Absent,
    /// Exactly one member has the key, with this value.
    Single(JsonModel),
    /// Two or more members have the key.
    Repeated,
}

/// What `members` say about `key`.
pub open spec fn field(members: Seq<MemberModel>, key: Seq<char>) -> Field {
    let hits = values_of(members, key);
    if hits.len() == 0 {
        Field::Absent
    } else if hits.len() == 1 {
        Field::Single(hits[0])
    } else {
        Field::Repeated
    }
}

impl JsonModel {
    /// The text of a string, and nothing for any other document.
    pub open spec fn as_text(self) -> Option<Seq<char>> {
        match self {
            JsonModel::Text(t) => Some(t),
            _ => None,
        }
    }

    /// The value of a boolean, and nothing for any other document.
    pub open spec fn as_bool(self) -> Option<bool> {
        match self {
            JsonModel::Bool(b) => Some(b),
            _ => None,
        }
    }

    /// The value of an integer that fits 32 unsigned bits, and nothing for
    /// any other document.
    pub open spec fn as_u32(self) -> Option<u32> {
        match self {
            JsonModel::Integer(i) => if 0 <= i <= u32::MAX {
                Some(i as u32)
            } else {
                None
            },
            _ => None,
        }
    }

    /// The items of an array, and nothing for any other document.
    pub open spec fn as_array(self) -> Option<Seq<JsonModel>> {
        match self {
            JsonModel::Array(items) => Some(items),
            _ => None,
        }
    }

    /// The members of an object, and nothing for any other document.
    pub open spec fn as_object(self) -> Option<Seq<MemberModel>> {
        match self {
            JsonModel::Object(members) => Some(members),
            _ => None,
        }
    }

    /// The texts of an array of strings, and nothing for any other document.
    pub open spec fn as_text_list(self) -> Option<Seq<Seq<char>>> {
        match self {
            JsonModel::Array(items) => if forall|i: int|
                0 <= i < items.len() ==> (#[trigger] items[i]) is Text {
                Some(Seq::new(items.len(), |i: int| items[i]->Text_0))
            } else {
                None
            },
            _ => None,
        }
    }

    /// The array of strings that holds `texts`.
    pub open spec fn text_list(texts: Seq<Seq<char>>) -> JsonModel {
        JsonModel::Array(Seq::new(texts.len(), |i: int| JsonModel::Text(texts[i])))
    }
}

/// The text under `key`, which must occur once and hold a string.
pub open spec fn required_text(members: Seq<MemberModel>, key: Seq<char>) -> Option<Seq<char>> {
    match field(members, key) {
        Field::Single(value) => value.as_text(),
        _ => None,
    }
}

/// The text under `key`, which may be left out and must hold a string where
/// it occurs; the outer `None` says that the members do not fit.
pub open spec fn defaulted_text(members: Seq<MemberModel>, key: Seq<char>) -> Option<Seq<char>> {
    match field(members, key) {
        Field::Absent => Some(Seq::empty()),
        Field::Single(value) => value.as_text(),
        Field::Repeated => None,
    }
}

/// The text under `key`, where leaving the key out and `null` both mean that
/// there is none; the outer `None` says that the members do not fit.
pub open spec fn optional_text(members: Seq<MemberModel>, key: Seq<char>) -> Option<
    Option<Seq<char>>,
> {
    match field(members, key) {
        Field::Absent => Some(None),
        Field::Single(JsonModel::Null) => Some(None),
        Field::Single(JsonModel::Text(t)) => Some(Some(t)),
        _ => None,
    }
}

/// The number under `key`, where leaving the key out and `null` both mean
/// that there is none; the outer `None` says that the members do not fit.
pub open spec fn optional_u32(members: Seq<MemberModel>, key: Seq<char>) -> Option<Option<u32>> {
    match field(members, key) {
        Field::Absent => Some(None),
        Field::Single(JsonModel::Null) => Some(None),
        Field::Single(value) => match value.as_u32() {
            Some(n) => Some(Some(n)),
            None => None,
        },
        Field::Repeated => None,
    }
}

/// The texts under `key`, which must occur once and hold an array of strings.
pub open spec fn required_text_list(members: Seq<MemberModel>, key: Seq<char>) -> Option<
    Seq<Seq<char>>,
> {
    match field(members, key) {
        Field::Single(value) => value.as_text_list(),
        _ => None,
    }
}

/// The boolean under `key`, which must occur once.
pub open spec fn required_bool(members: Seq<MemberModel>, key: Seq<char>) -> Option<bool> {
    match field(members, key) {
        Field::Single(value) => value.as_bool(),
        _ => None,
    }
}

/// What a search for one key in an object found.
#[derive(Debug, Clone, Copy, PartialEq, Eq)]
pub enum Lookup<'a> {
    Absent,
    Single(&'a Json),
    Repeated,
}

impl<'a> View for Lookup<'a> {
    type V = Field;

    open spec fn view(&self) -> Field {
        match self {
            Lookup::Absent => Field::Absent,
            Lookup::Single(value) => Field::Single(value@),
            Lookup::Repeated => Field::Repeated,
        }
    }
}

/// Splitting off the last member splits off its value, if its key is `key`.
pub proof fn lemma_values_of_push(members: Seq<MemberModel>, last: MemberModel, key: Seq<char>)
    ensures
        values_of(members.push(last), key) == if last.key == key {
            values_of(members, key).push(last.value)
        } else {
            values_of(members, key)
        },
{
    assert(members.push(last).drop_last() =~= members);
}

/// The values under a key in two runs of members put together are those of
/// the first run followed by those of the second.
pub proof fn lemma_values_of_concat(a: Seq<MemberModel>, b: Seq<MemberModel>, key: Seq<char>)
    ensures
        values_of(a + b, key) == values_of(a, key) + values_of(b, key),
    decreases b.len(),
{
    if b.len() == 0 {
        assert(a + b =~= a);
        assert(values_of(a, key) + values_of(b, key) =~= values_of(a, key));
    } else {
        lemma_values_of_concat(a, b.drop_last(), key);
        assert((a + b).drop_last() =~= a + b.drop_last());
        assert((a + b).last() == b.last());
        if b.last().key == key {
            assert(values_of(a, key) + values_of(b.drop_last(), key).push(b.last().value)
                =~= (values_of(a, key) + values_of(b.drop_last(), key)).push(b.last().value));
        }
    }
}

impl Json {
    /// The text, if this is a string.
    pub fn as_text(&self) -> (r: Option<&String>)
        ensures
            r.deep_view() == self@.as_text(),
    {
        match self {
            Json::Text(s) => Some(s),
            _ => None,
        }
    }

    /// The value, if this is a boolean.
    pub fn as_bool(&self) -> (r: Option<bool>)
        ensures
            r == self@.as_bool(),
    {
        match self {
            Json::Bool(b) => Some(*b),
            _ => None,
        }
    }

    /// The value, if this is an integer from 0 to 4294967295.
    pub fn as_u32(&self) -> (r: Option<u32>)
        ensures
            r == self@.as_u32(),
    {
        match self {
            Json::Integer(i) => {
                if 0 <= *i && *i <= 4294967295 {
                    Some(*i as u32)
                } else {
                    None
                }
            },
            _ => None,
        }
    }

    /// The items, if this is an array.
    pub fn as_array(&self) -> (r: Option<&Vec<Json>>)
        ensures
            r.deep_view() == self@.as_array(),
    {
        match self {
            Json::Array(items) => {
                assert(self@.as_array() == Some(items.deep_view())) by {
                    assert(self@->Array_0 =~= items.deep_view());
                }
                Some(items)
            },
            _ => None,
        }
    }

    /// The members, if this is an object.
    pub fn as_object(&self) -> (r: Option<&Vec<Member>>)
        ensures
            r.deep_view() == self@.as_object(),
    {
        match self {
            Json::Object(members) => {
                assert(self@.as_object() == Some(members.deep_view())) by {
                    assert(self@->Object_0 =~= members.deep_view());
                }
                Some(members)
            },
            _ => None,
        }
    }

    /// An array of strings that holds copies of `texts`, in their order.
    pub fn text_list(texts: &Vec<String>) -> (j: Json)
        ensures
            j@ == JsonModel::text_list(texts.deep_view()),
    {
        let mut items: Vec<Json> = Vec::new();
        let mut i: usize = 0;
        while i < texts.len()
            invariant
                i <= texts.len(),
                items@.len() == i,
                forall|k: int| 0 <= k < i ==> (#[trigger] items@[k])@ == JsonModel::Text(texts@[k]@),
            decreases texts.len() - i,
        {
            items.push(Json::Text(texts[i].clone()));
            i += 1;
        }
        let j = Json::array(items);
        assert(j@->Array_0 =~= JsonModel::text_list(texts.deep_view())->Array_0);
        j
    }

    /// Copies of the texts, if this is an array of strings.
    pub fn as_text_list(&self) -> (r: Option<Vec<String>>)
        ensures
            r.deep_view() == self@.as_text_list(),
    {
        match self.as_array() {
            None => None,
            Some(items) => {
                let ghost all = items.deep_view();
                let mut texts: Vec<String> = Vec::new();
                let mut i: usize = 0;
                while i < items.len()
                    invariant
                        i <= items.len(),
                        all == items.deep_view(),
                        self@ == JsonModel::Array(all),
                        texts@.len() == i,
                        forall|k: int| 0 <= k < i ==> (#[trigger] all[k]) == JsonModel::Text(texts@[k]@),
                    decreases items.len() - i,
                {
                    match &items[i] {
                        Json::Text(t) => {
                            texts.push(t.clone());
                        },
                        _ => {
                            assert(!(all[i as int] is Text));
                            return None;
                        },
                    }
                    i += 1;
                }
                assert(self@.as_text_list() is Some);
                assert(texts.deep_view() =~= self@.as_text_list()->0);
                Some(texts)
            },
        }
    }

    /// An array that holds `items`.
    pub fn array(items: Vec<Json>) -> (j: Json)
        ensures
            j@ == JsonModel::Array(items.deep_view()),
    {
        let j = Json::Array(items);
        assert(j@->Array_0 =~= items.deep_view());
        j
    }

    /// An object that holds `members`, in their order.
    pub fn object(members: Vec<Member>) -> (j: Json)
        ensures
            j@ == JsonModel::Object(members.deep_view()),
    {
        let j = Json::Object(members);
        assert(j@->Object_0 =~= members.deep_view());
        j
    }
}

/// Searches `members` for `key`.
pub fn lookup<'a>(members: &'a Vec<Member>, key: &str) -> (found: Lookup<'a>)
    ensures
        found@ == field(members.deep_view(), key@),
{
    let mut first: Option<&'a Json> = None;
    let mut repeated = false;
    let ghost all = members.deep_view();
    let mut i: usize = 0;
    while i < members.len()
        invariant
            i <= members.len(),
            all == members.deep_view(),
            values_of(all.take(i as int), key@).len() == 0 <==> first is None,
            first matches Some(value) ==> values_of(all.take(i as int), key@)[0] == value@,
            repeated <==> values_of(all.take(i as int), key@).len() > 1,
        decreases members.len() - i,
    {
        proof {
            assert(all.take(i + 1) =~= all.take(i as int).push(all[i as int]));
            lemma_values_of_push(all.take(i as int), all[i as int], key@);
        }
        if same_text(members[i].key.as_str(), key) {
            match first {
                None => {
                    first = Some(&members[i].value);
                },
                Some(_) => {
                    repeated = true;
                },
            }
        }
        i += 1;
    }
    proof {
        assert(all.take(i as int) =~= all);
    }
    match first {
        None => Lookup::Absent,
        Some(value) => if repeated {
            Lookup::Repeated
        } else {
            Lookup::Single(value)
        },
    }
}

/// Reads the string that `members` must hold under `key`.
pub fn read_required_text(members: &Vec<Member>, key: &str) -> (text: Option<String>)
    ensures
        text.deep_view() == required_text(members.deep_view(), key@),
{
    match lookup(members, key) {
        Lookup::Single(Json::Text(t)) => Some(t.clone()),
        _ => None,
    }
}

/// Reads the string that `members` may hold under `key`, empty where they
/// hold none.
pub fn read_defaulted_text(members: &Vec<Member>, key: &str) -> (text: Option<String>)
    ensures
        text.deep_view() == defaulted_text(members.deep_view(), key@),
{
    match lookup(members, key) {
        Lookup::Absent => Some(String::new()),
        Lookup::Single(Json::Text(t)) => Some(t.clone()),
        _ => None,
    }
}

/// Reads the string that `members` may hold under `key`.
pub fn read_optional_text(members: &Vec<Member>, key: &str) -> (text: Option<Option<String>>)
    ensures
        text.deep_view() == optional_text(members.deep_view(), key@),
{
    match lookup(members, key) {
        Lookup::Absent => Some(None),
        Lookup::Single(Json::Null) => Some(None),
        Lookup::Single(Json::Text(t)) => Some(Some(t.clone())),
        _ => None,
    }
}

/// Reads the number that `members` may hold under `key`.
pub fn read_optional_u32(members: &Vec<Member>, key: &str) -> (number: Option<Option<u32>>)
    ensures
        number == optional_u32(members.deep_view(), key@),
{
    match lookup(members, key) {
        Lookup::Absent => Some(None),
        Lookup::Single(Json::Null) => Some(None),
        Lookup::Single(value) => match value.as_u32() {
            Some(n) => Some(Some(n)),
            None => None,
        },
        Lookup::Repeated => None,
    }
}

/// Reads the array of strings that `members` must hold under `key`.
pub fn read_required_text_list(members: &Vec<Member>, key: &str) -> (texts: Option<Vec<String>>)
    ensures
        texts.deep_view() == required_text_list(members.deep_view(), key@),
{
    match lookup(members, key) {
        Lookup::Single(value) => value.as_text_list(),
        _ => None,
    }
}

/// Reads the boolean that `members` must hold under `key`.
pub fn read_required_bool(members: &Vec<Member>, key: &str) -> (flag: Option<bool>)
    ensures
        flag == required_bool(members.deep_view(), key@),
{
    match lookup(members, key) {
        Lookup::Single(value) => value.as_bool(),
        _ => None,
    }
}

} // verus!
