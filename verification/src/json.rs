//! Documents: the tree that a JSON text stands for.
//!
//! Turning a document into text and back is left to the caller. This module
//! fixes the tree itself, its mathematical view, and the lookups that the
//! record layouts are written with.

use vstd::prelude::*;
use crate::assoc::{lemma_lookup_first, lemma_lookup_none, lookup};
use crate::number::{finite_bits, Real64};

verus! {

/// A document as the program holds it.
#[derive(Debug, PartialEq)]
pub enum Json {
    Null,
    Bool(bool),
    Number(Real64),
    Text(String),
    Array(Vec<Json>),
    /// The members of an object in the order in which they were written.
    Object(Vec<(String, Json)>),
}

/// A document as the contracts see it.
pub enum JsonView {
    Null,
    Bool(bool),
    /// A number by its binary64 bit pattern.
    Number(u64),
    Text(Seq<char>),
    Array(Seq<JsonView>),
    Object(Seq<(Seq<char>, JsonView)>),
}

/// The members of an object, each by its view.
pub open spec fn members_view(members: Seq<(String, Json)>) -> Seq<(Seq<char>, JsonView)> {
    Seq::new(members.len(), |i: int| (members[i].0@, members[i].1@))
}

/// The elements of an array, each by its view.
pub open spec fn elements_view(elements: Seq<Json>) -> Seq<JsonView> {
    Seq::new(elements.len(), |i: int| elements[i]@)
}

/// The view of a document, member by member and element by element.
pub open spec fn json_view(doc: Json) -> JsonView
    decreases doc,
{
    match doc {
        Json::Null => JsonView::Null,
        Json::Bool(b) => JsonView::Bool(b),
        Json::Number(n) => JsonView::Number(n.bits),
        Json::Text(s) => JsonView::Text(s@),
        Json::Array(elements) => JsonView::Array(
            Seq::new(
                elements@.len(),
                |i: int|
                    if 0 <= i < elements@.len() {
                        json_view(elements@[i])
                    } else {
                        JsonView::Null
                    },
            ),
        ),
        Json::Object(members) => JsonView::Object(
            Seq::new(
                members@.len(),
                |i: int|
                    if 0 <= i < members@.len() {
                        (members@[i].0@, json_view(members@[i].1))
                    } else {
                        (Seq::empty(), JsonView::Null)
                    },
            ),
        ),
    }
}

impl DeepView for Json {
    type V = JsonView;

    open spec fn deep_view(&self) -> JsonView {
        json_view(*self)
    }
}

impl View for Json {
    type V = JsonView;

    open spec fn view(&self) -> JsonView {
        json_view(*self)
    }
}

/// The view of an array is the sequence of its elements' views.
pub proof fn lemma_array_view(elements: Vec<Json>)
    ensures
        Json::Array(elements)@ == JsonView::Array(elements_view(elements@)),
{
    assert(Json::Array(elements)@->Array_0 =~= elements_view(elements@));
}

/// The view of an object is the sequence of its members' views.
pub proof fn lemma_object_view(members: Vec<(String, Json)>)
    ensures
        Json::Object(members)@ == JsonView::Object(members_view(members@)),
{
    assert(Json::Object(members)@->Object_0 =~= members_view(members@));
}

/// The member that `Json::get` hands out for a document.
pub open spec fn member(doc: JsonView, key: Seq<char>) -> Option<JsonView> {
    match doc {
        JsonView::Object(members) => lookup(members, key),
        _ => None,
    }
}

/// The text of the member `key`, where the document is an object and the
/// member is a text.
pub open spec fn text_member(doc: JsonView, key: Seq<char>) -> Option<Seq<char>> {
    match member(doc, key) {
        Some(JsonView::Text(s)) => Some(s),
        _ => None,
    }
}

/// The truth value of the member `key`.
pub open spec fn bool_member(doc: JsonView, key: Seq<char>) -> Option<bool> {
    match member(doc, key) {
        Some(JsonView::Bool(b)) => Some(b),
        _ => None,
    }
}

/// The number of the member `key`, by its bit pattern.
pub open spec fn number_member(doc: JsonView, key: Seq<char>) -> Option<u64> {
    match member(doc, key) {
        Some(JsonView::Number(bits)) => Some(bits),
        _ => None,
    }
}

/// An optional text member: absent and null both stand for no value, a text
/// for itself; anything else is no optional text.
pub open spec fn optional_text_member(doc: JsonView, key: Seq<char>) -> Option<Option<Seq<char>>> {
    match member(doc, key) {
        None => Some(None),
        Some(JsonView::Null) => Some(None),
        Some(JsonView::Text(s)) => Some(Some(s)),
        _ => None,
    }
}

/// An optional number member, read as an optional text member is.
pub open spec fn optional_number_member(doc: JsonView, key: Seq<char>) -> Option<Option<u64>> {
    match member(doc, key) {
        None => Some(None),
        Some(JsonView::Null) => Some(None),
        Some(JsonView::Number(bits)) => Some(Some(bits)),
        _ => None,
    }
}

impl Clone for Json {
    fn clone(&self) -> (copy: Json)
        ensures
            copy@ == self@,
        decreases self,
    {
        match self {
            Json::Null => Json::Null,
            Json::Bool(b) => Json::Bool(*b),
            Json::Number(n) => Json::Number(*n),
            Json::Text(s) => Json::Text(s.clone()),
            Json::Array(elements) => {
                let mut copies: Vec<Json> = Vec::new();
                let mut i: usize = 0;
                while i < elements.len()
                    invariant
                        0 <= i <= elements.len(),
                        *self == Json::Array(*elements),
                        copies@.len() == i,
                        forall|j: int| 0 <= j < i ==> (#[trigger] copies@[j])@ == elements@[j]@,
                    decreases elements.len() - i,
                {
                    assert(self->Array_0 == *elements);
                    copies.push(elements[i].clone());
                    i += 1;
                }
                proof {
                    lemma_array_view(copies);
                    lemma_array_view(*elements);
                    assert(elements_view(copies@) =~= elements_view(elements@));
                }
                Json::Array(copies)
            },
            Json::Object(members) => {
                let mut copies: Vec<(String, Json)> = Vec::new();
                let mut i: usize = 0;
                while i < members.len()
                    invariant
                        0 <= i <= members.len(),
                        *self == Json::Object(*members),
                        copies@.len() == i,
                        forall|j: int|
                            0 <= j < i ==> (#[trigger] copies@[j]).0@ == members@[j].0@
                                && copies@[j].1@ == members@[j].1@,
                    decreases members.len() - i,
                {
                    assert(self->Object_0 == *members);
                    copies.push((members[i].0.clone(), members[i].1.clone()));
                    i += 1;
                }
                proof {
                    lemma_object_view(copies);
                    lemma_object_view(*members);
                    assert(members_view(copies@) =~= members_view(members@));
                }
                Json::Object(copies)
            },
        }
    }
}

impl Json {
    /// The value of the first member named `key`; nothing where the document
    /// is no object or has no such member.
    pub fn get<'a>(&'a self, key: &str) -> (found: Option<&'a Json>)
        ensures
            match found {
                Some(value) => member(self@, key@) == Some(value@),
                None => member(self@, key@) is None,
            },
    {
        match self {
            Json::Object(members) => {
                proof {
                    lemma_object_view(*members);
                }
                let wanted = String::from_str(key);
                let mut i: usize = 0;
                while i < members.len()
                    invariant
                        0 <= i <= members.len(),
                        self@ == JsonView::Object(members_view(members@)),
                        wanted@ == key@,
                        forall|j: int|
                            0 <= j < i ==> (#[trigger] members_view(members@)[j]).0 != key@,
                    decreases members.len() - i,
                {
                    if members[i].0 == wanted {
                        proof {
                            assert(members_view(members@)[i as int].0 == key@);
                            lemma_lookup_first(members_view(members@), key@, i as int);
                        }
                        return Some(&members[i].1);
                    }
                    assert(members_view(members@)[i as int].0 != key@);
                    i += 1;
                }
                proof {
                    lemma_lookup_none(members_view(members@), key@);
                }
                None
            },
            _ => None,
        }
    }

    /// The elements of an array; nothing where the document is no array.
    pub fn elements<'a>(&'a self) -> (found: Option<&'a Vec<Json>>)
        ensures
            match found {
                Some(list) => self@ == JsonView::Array(elements_view(list@)),
                None => !(self@ is Array),
            },
    {
        match self {
            Json::Array(list) => {
                proof {
                    lemma_array_view(*list);
                }
                Some(list)
            },
            _ => None,
        }
    }

    /// The text member `key`.
    pub fn get_text(&self, key: &str) -> (found: Option<String>)
        ensures
            match found {
                Some(s) => text_member(self@, key@) == Some(s@),
                None => text_member(self@, key@) is None,
            },
    {
        match self.get(key) {
            Some(Json::Text(s)) => Some(s.clone()),
            _ => None,
        }
    }

    /// The truth-value member `key`.
    pub fn get_bool(&self, key: &str) -> (found: Option<bool>)
        ensures
            found == bool_member(self@, key@),
    {
        match self.get(key) {
            Some(Json::Bool(b)) => Some(*b),
            _ => None,
        }
    }

    /// The number member `key`.
    pub fn get_number(&self, key: &str) -> (found: Option<Real64>)
        ensures
            match found {
                Some(n) => number_member(self@, key@) == Some(n.bits),
                None => number_member(self@, key@) is None,
            },
    {
        match self.get(key) {
            Some(Json::Number(n)) => Some(*n),
            _ => None,
        }
    }

    /// The optional text member `key`; the outer `None` reports a member of
    /// another kind.
    pub fn get_optional_text(&self, key: &str) -> (found: Option<Option<String>>)
        ensures
            match found {
                Some(Some(s)) => optional_text_member(self@, key@) == Some(Some(s@)),
                Some(None) => optional_text_member(self@, key@) == Some(None::<Seq<char>>),
                None => optional_text_member(self@, key@) is None,
            },
    {
        match self.get(key) {
            None => Some(None),
            Some(Json::Null) => Some(None),
            Some(Json::Text(s)) => Some(Some(s.clone())),
            _ => None,
        }
    }

    /// The optional number member `key`; the outer `None` reports a member of
    /// another kind.
    pub fn get_optional_number(&self, key: &str) -> (found: Option<Option<Real64>>)
        ensures
            match found {
                Some(Some(n)) => optional_number_member(self@, key@) == Some(Some(n.bits)),
                Some(None) => optional_number_member(self@, key@) == Some(None::<u64>),
                None => optional_number_member(self@, key@) is None,
            },
    {
        match self.get(key) {
            None => Some(None),
            Some(Json::Null) => Some(None),
            Some(Json::Number(n)) => Some(Some(*n)),
            _ => None,
        }
    }
}

/// Writes one more member at the end of an object under construction.
pub fn put(members: &mut Vec<(String, Json)>, key: &str, value: Json)
    ensures
        members_view(final(members)@) == members_view(old(members)@).push((key@, value@)),
{
    members.push((String::from_str(key), value));
    assert(members_view(members@) =~= members_view(old(members)@).push((key@, value@)));
}

/// What stands for an optional text in a document: null where there is
/// none.
pub open spec fn optional_text_view(text: Option<Seq<char>>) -> JsonView {
    match text {
        Some(text) => JsonView::Text(text),
        None => JsonView::Null,
    }
}

/// What stands for an optional number in a document: null where there is
/// none, or where it is not finite.
pub open spec fn optional_number_view(bits: Option<u64>) -> JsonView {
    match bits {
        Some(bits) => number_view(bits),
        None => JsonView::Null,
    }
}

/// A text as a document.
pub fn text(s: &String) -> (doc: Json)
    ensures
        doc@ == JsonView::Text(s@),
{
    Json::Text(s.clone())
}

/// An optional text as a document: null where there is none.
pub fn optional_text(s: &Option<String>) -> (doc: Json)
    ensures
        doc@ == optional_text_view(s.deep_view()),
{
    match s {
        Some(t) => Json::Text(t.clone()),
        None => Json::Null,
    }
}

/// What stands for a number in a document: the number itself where it is
/// finite, null where it is not.
pub open spec fn number_view(bits: u64) -> JsonView {
    if finite_bits(bits) {
        JsonView::Number(bits)
    } else {
        JsonView::Null
    }
}

/// A number as a document: null where it is an infinity or a NaN, which no
/// JSON text can hold.
pub fn number(n: Real64) -> (doc: Json)
    ensures
        doc@ == number_view(n.bits),
{
    if n.is_finite() {
        Json::Number(n)
    } else {
        Json::Null
    }
}

/// An optional number as a document: null where there is none.
pub fn optional_number(n: &Option<Real64>) -> (doc: Json)
    ensures
        doc@ == optional_number_view(n.deep_view()),
{
    match n {
        Some(x) => number(*x),
        None => Json::Null,
    }
}

/// An object made of the members written so far.
pub fn object(members: Vec<(String, Json)>) -> (doc: Json)
    ensures
        doc@ == JsonView::Object(members_view(members@)),
{
    proof {
        lemma_object_view(members);
    }
    Json::Object(members)
}

/// An array made of the elements written so far.
pub fn array(elements: Vec<Json>) -> (doc: Json)
    ensures
        doc@ == JsonView::Array(elements_view(elements@)),
{
    proof {
        lemma_array_view(elements);
    }
    Json::Array(elements)
}

} // verus!
