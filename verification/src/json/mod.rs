//! JSON documents: a model of what they hold, and the ways in and out of
//! their text.
use vstd::prelude::*;
use vstd::string::StringExecFns;

use crate::decimal::{decimal_text, format_unsigned, parse_unsigned, unsigned_of};

pub mod read;
pub mod write;

pub use read::{document, parse};
pub use write::rendering;

verus! {

/// A JSON document as the library reads it.
///
/// A number keeps its decimal text, an object keeps its members in the
/// order the parser hands them out.
#[derive(Debug)]
pub enum Json {
    Null,
    Bool(bool),
    Number(String),
    Text(String),
    Array(Vec<Json>),
    Object(Vec<Member>),
}

/// One named member of an object.
#[derive(Debug)]
pub struct Member {
    pub name: String,
    pub value: Json,
}

/// The mathematical value of a [`Json`] document.
pub enum JsonValue {
    Null,
    Bool(bool),
    Number(Seq<char>),
    Text(Seq<char>),
    Array(Seq<JsonValue>),
    Object(Seq<MemberValue>),
}

/// The mathematical value of a [`Member`].
pub struct MemberValue {
    pub name: Seq<char>,
    pub value: JsonValue,
}

impl View for Json {
    type V = JsonValue;

    open spec fn view(&self) -> JsonValue
        decreases self,
    {
        match self {
            Json::Null => JsonValue::Null,
            Json::Bool(b) => JsonValue::Bool(*b),
            Json::Number(n) => JsonValue::Number(n@),
            Json::Text(s) => JsonValue::Text(s@),
            Json::Array(items) => JsonValue::Array(
                Seq::new(
                    items@.len(),
                    |i: int|
                        if 0 <= i < items@.len() {
                            items@[i]@
                        } else {
                            JsonValue::Null
                        },
                ),
            ),
            Json::Object(members) => JsonValue::Object(
                Seq::new(
                    members@.len(),
                    |i: int|
                        if 0 <= i < members@.len() {
                            MemberValue { name: members@[i].name@, value: members@[i].value@ }
                        } else {
                            MemberValue { name: Seq::empty(), value: JsonValue::Null }
                        },
                ),
            ),
        }
    }
}

/// The member that gives `value` the name `name`.
pub open spec fn member(name: Seq<char>, value: JsonValue) -> MemberValue {
    MemberValue { name, value }
}

/// The member named `name`, where there is a value for it.
pub open spec fn optional_member(name: Seq<char>, value: Option<JsonValue>) -> Seq<MemberValue> {
    match value {
        Some(value) => seq![member(name, value)],
        None => Seq::empty(),
    }
}

/// The array of the strings `texts`.
pub open spec fn text_array(texts: Seq<Seq<char>>) -> JsonValue {
    JsonValue::Array(Seq::new(texts.len(), |i: int| JsonValue::Text(texts[i])))
}

/// The number `n`.
pub open spec fn unsigned_number(n: u64) -> JsonValue {
    JsonValue::Number(decimal_text(n as nat))
}

/// The array of the numbers `numbers`.
pub open spec fn unsigned_array(numbers: Seq<u64>) -> JsonValue {
    JsonValue::Array(Seq::new(numbers.len(), |i: int| unsigned_number(numbers[i])))
}

/// The values of `members`, in order.
pub open spec fn members_view(members: Seq<Member>) -> Seq<MemberValue> {
    Seq::new(members.len(), |i: int| member(members[i].name@, members[i].value@))
}

/// The values of `items`, in order.
pub open spec fn items_view(items: Seq<Json>) -> Seq<JsonValue> {
    Seq::new(items.len(), |i: int| items[i]@)
}

/// The first member of `members` named `key`, if there is one.
pub open spec fn find_member(members: Seq<MemberValue>, key: Seq<char>) -> Option<
    JsonValue,
>
    decreases members.len(),
{
    if members.len() == 0 {
        None
    } else if members[0].name == key {
        Some(members[0].value)
    } else {
        find_member(members.skip(1), key)
    }
}

impl JsonValue {
    /// The member named `key` of an object; `None` for anything but an object.
    pub open spec fn member(self, key: Seq<char>) -> Option<JsonValue> {
        match self {
            JsonValue::Object(members) => find_member(members, key),
            _ => None,
        }
    }

    /// The characters of a string value.
    pub open spec fn text(self) -> Option<Seq<char>> {
        match self {
            JsonValue::Text(s) => Some(s),
            _ => None,
        }
    }

    /// The truth value of `true` or `false`.
    pub open spec fn flag(self) -> Option<bool> {
        match self {
            JsonValue::Bool(b) => Some(b),
            _ => None,
        }
    }

    /// The unsigned 64-bit integer that a number writes.
    pub open spec fn unsigned(self) -> Option<u64> {
        match self {
            JsonValue::Number(text) => unsigned_of(text),
            _ => None,
        }
    }

    /// The elements of an array.
    pub open spec fn items(self) -> Option<Seq<JsonValue>> {
        match self {
            JsonValue::Array(items) => Some(items),
            _ => None,
        }
    }

    /// The numbers of an array whose elements are all unsigned 64-bit
    /// integers.
    pub open spec fn unsigned_list(self) -> Option<Seq<u64>> {
        match self {
            JsonValue::Array(items) => {
                if forall|i: int| 0 <= i < items.len() ==> (#[trigger] items[i]).unsigned() is Some {
                    Some(Seq::new(items.len(), |i: int| items[i].unsigned()->0))
                } else {
                    None
                }
            },
            _ => None,
        }
    }

    /// The strings of an array whose elements are all strings.
    pub open spec fn text_list(self) -> Option<Seq<Seq<char>>> {
        match self {
            JsonValue::Array(items) => {
                if forall|i: int| 0 <= i < items.len() ==> (#[trigger] items[i]).text() is Some {
                    Some(Seq::new(items.len(), |i: int| items[i].text()->0))
                } else {
                    None
                }
            },
            _ => None,
        }
    }

    /// The string held by the member named `key`.
    pub open spec fn text_member(self, key: Seq<char>) -> Option<Seq<char>> {
        match self.member(key) {
            Some(v) => v.text(),
            None => None,
        }
    }

    /// The truth value held by the member named `key`.
    pub open spec fn flag_member(self, key: Seq<char>) -> Option<bool> {
        match self.member(key) {
            Some(v) => v.flag(),
            None => None,
        }
    }
}

impl Member {
    /// The member that gives `value` the name `name`.
    pub fn new(name: &str, value: Json) -> (m: Member)
        ensures
            m.name@ == name@,
            m.value == value,
    {
        Member { name: String::from_str(name), value }
    }
}

impl Json {
    /// The object with the members `members`.
    pub fn object(members: Vec<Member>) -> (j: Json)
        ensures
            j@ == JsonValue::Object(members_view(members@)),
    {
        let j = Json::Object(members);
        assert(j@->Object_0 =~= members_view(members@));
        j
    }

    /// The array with the elements `items`.
    pub fn array(items: Vec<Json>) -> (j: Json)
        ensures
            j@ == JsonValue::Array(items_view(items@)),
    {
        let j = Json::Array(items);
        assert(j@->Array_0 =~= items_view(items@));
        j
    }

    /// The string `text`.
    pub fn from_text(text: &str) -> (j: Json)
        ensures
            j@ == JsonValue::Text(text@),
    {
        Json::Text(String::from_str(text))
    }

    /// The number `n`.
    pub fn from_unsigned(n: u64) -> (j: Json)
        ensures
            j@ == unsigned_number(n),
            j@.unsigned() == Some(n),
    {
        Json::Number(format_unsigned(n))
    }

    /// The array of the strings `texts`.
    pub fn from_texts(texts: &[String]) -> (j: Json)
        ensures
            j@ == text_array(texts.deep_view()),
    {
        let mut items: Vec<Json> = Vec::new();
        let mut i: usize = 0;
        while i < texts.len()
            invariant
                i <= texts.len(),
                items@.len() == i,
                forall|k: int| 0 <= k < i ==> (#[trigger] items@[k])@ == JsonValue::Text(texts@[k]@),
            decreases texts.len() - i,
        {
            items.push(Json::Text(texts[i].clone()));
            i += 1;
        }
        let j = Json::array(items);
        assert(j@->Array_0 =~= text_array(texts.deep_view())->Array_0);
        j
    }

    /// The array of the numbers `numbers`.
    pub fn from_unsigneds(numbers: &[u64]) -> (j: Json)
        ensures
            j@ == unsigned_array(numbers@),
    {
        let mut items: Vec<Json> = Vec::new();
        let mut i: usize = 0;
        while i < numbers.len()
            invariant
                i <= numbers.len(),
                items@.len() == i,
                forall|k: int| 0 <= k < i ==> (#[trigger] items@[k])@ == unsigned_number(numbers@[k]),
            decreases numbers.len() - i,
        {
            items.push(Json::from_unsigned(numbers[i]));
            i += 1;
        }
        let j = Json::array(items);
        assert(j@->Array_0 =~= unsigned_array(numbers@)->Array_0);
        j
    }

    /// Looks up a member of an object by name.
    pub fn member(&self, key: &str) -> (r: Option<&Json>)
        ensures
            match r {
                Some(j) => self@.member(key@) == Some(j@),
                None => self@.member(key@) is None,
            },
    {
        match self {
            Json::Object(members) => {
                let wanted = String::from_str(key);
                let mut i: usize = 0;
                assert(self@->Object_0.skip(0) =~= self@->Object_0);
                while i < members.len()
                    invariant
                        i <= members.len(),
                        wanted@ == key@,
                        self@ matches JsonValue::Object(ms) && ms.len() == members.len()
                            && find_member(ms, key@) == find_member(ms.skip(i as int), key@)
                            && forall|k: int|
                            0 <= k < ms.len() ==> ms[k].name == members@[k].name@ && ms[k].value
                                == members@[k].value@,
                    decreases members.len() - i,
                {
                    let ghost ms = self@->Object_0;
                    assert(ms.skip(i as int)[0] == ms[i as int]);
                    assert(ms.skip(i as int).skip(1) =~= ms.skip(i + 1));
                    if members[i].name == wanted {
                        return Some(&members[i].value);
                    }
                    i += 1;
                }
                None
            },
            _ => None,
        }
    }

    /// The characters of a string value.
    pub fn text(&self) -> (r: Option<&String>)
        ensures
            match r {
                Some(s) => self@.text() == Some(s@),
                None => self@.text() is None,
            },
    {
        match self {
            Json::Text(s) => Some(s),
            _ => None,
        }
    }

    /// The truth value of `true` or `false`.
    pub fn flag(&self) -> (r: Option<bool>)
        ensures
            r == self@.flag(),
    {
        match self {
            Json::Bool(b) => Some(*b),
            _ => None,
        }
    }

    /// The string held by the member named `key`.
    pub fn text_member(&self, key: &str) -> (r: Option<&String>)
        ensures
            match r {
                Some(s) => self@.text_member(key@) == Some(s@),
                None => self@.text_member(key@) is None,
            },
    {
        match self.member(key) {
            Some(j) => j.text(),
            None => None,
        }
    }

    /// The truth value held by the member named `key`.
    pub fn flag_member(&self, key: &str) -> (r: Option<bool>)
        ensures
            r == self@.flag_member(key@),
    {
        match self.member(key) {
            Some(j) => j.flag(),
            None => None,
        }
    }

    /// The unsigned 64-bit integer that a number writes.
    pub fn unsigned(&self) -> (r: Option<u64>)
        ensures
            r == self@.unsigned(),
    {
        match self {
            Json::Number(text) => parse_unsigned(text.as_str()),
            _ => None,
        }
    }

    /// The numbers of an array whose elements are all unsigned 64-bit
    /// integers.
    pub fn unsigned_list(&self) -> (r: Option<Vec<u64>>)
        ensures
            match r {
                Some(numbers) => self@.unsigned_list() == Some(numbers@),
                None => self@.unsigned_list() is None,
            },
    {
        let items = match self.items() {
            Some(items) => items,
            None => { return None; },
        };
        let ghost values = self@->Array_0;
        let mut numbers: Vec<u64> = Vec::new();
        let mut i: usize = 0;
        while i < items.len()
            invariant
                i <= items.len(),
                self@ == JsonValue::Array(values),
                values.len() == items.len(),
                forall|k: int| 0 <= k < values.len() ==> values[k] == (#[trigger] items@[k])@,
                numbers@.len() == i,
                forall|k: int| 0 <= k < i ==> (#[trigger] values[k]).unsigned() == Some(numbers@[k]),
            decreases items.len() - i,
        {
            match items[i].unsigned() {
                Some(n) => numbers.push(n),
                None => {
                    assert(values[i as int].unsigned() is None);
                    return None;
                },
            }
            i += 1;
        }
        assert(numbers@ =~= Seq::new(values.len(), |k: int| values[k].unsigned()->0));
        Some(numbers)
    }

    /// The strings of an array whose elements are all strings.
    pub fn text_list(&self) -> (r: Option<Vec<String>>)
        ensures
            match r {
                Some(texts) => self@.text_list() == Some(texts.deep_view()),
                None => self@.text_list() is None,
            },
    {
        let items = match self.items() {
            Some(items) => items,
            None => { return None; },
        };
        let ghost values = self@->Array_0;
        let mut texts: Vec<String> = Vec::new();
        let mut i: usize = 0;
        while i < items.len()
            invariant
                i <= items.len(),
                self@ == JsonValue::Array(values),
                values.len() == items.len(),
                forall|k: int| 0 <= k < values.len() ==> values[k] == (#[trigger] items@[k])@,
                texts@.len() == i,
                forall|k: int| 0 <= k < i ==> (#[trigger] values[k]).text() == Some(texts@[k]@),
            decreases items.len() - i,
        {
            match items[i].text() {
                Some(s) => texts.push(s.clone()),
                None => {
                    assert(values[i as int].text() is None);
                    return None;
                },
            }
            i += 1;
        }
        assert(texts.deep_view() =~= Seq::new(values.len(), |k: int| values[k].text()->0));
        Some(texts)
    }

    /// The elements of an array.
    pub fn items(&self) -> (r: Option<&Vec<Json>>)
        ensures
            match r {
                Some(v) => self@.items() == Some(items_view(v@)),
                None => self@.items() is None,
            },
    {
        match self {
            Json::Array(items) => {
                assert(self@->Array_0 =~= items_view(items@));
                Some(items)
            },
            _ => None,
        }
    }
}

} // verus!
