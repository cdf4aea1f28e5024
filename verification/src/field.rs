//! Reading the members of an object as values of the types that a record
//! declares for them.
//!
//! A member that a record needs is read by [`required`]: it must be there and
//! be of the declared type. One that a record may lack is read by
//! [`optional`]: it may be absent or `null`.

use crate::error::{ok_view, DecodeError};
use crate::json::{lemma_array_view, Json, JsonView};
use crate::text::{check_real_literal, i64_of, is_real_literal, parse_i64, parse_u64, u64_of};
use vstd::prelude::*;

verus! {

/// A number with a fraction or an exponent, kept as the text that was
/// written for it.
#[derive(Debug, PartialEq, Eq)]
pub struct Real {
    text: String,
}

impl View for Real {
    type V = Seq<char>;

    closed spec fn view(&self) -> Seq<char> {
        self.text@
    }
}

impl DeepView for Real {
    type V = Seq<char>;

    open spec fn deep_view(&self) -> Seq<char> {
        self.view()
    }
}

impl Clone for Real {
    /// A copy that holds the same text.
    fn clone(&self) -> (copy: Real)
        ensures
            copy@ == self@,
    {
        proof {
            use_type_invariant(self);
        }
        Real { text: self.text.clone() }
    }
}

impl Real {
    #[verifier::type_invariant]
    spec fn well_formed(self) -> bool {
        is_real_literal(self.text@)
    }

    /// The number that `text` writes, where `text` is a number as JSON
    /// writes one; `None` for any other text.
    pub fn new(text: String) -> (number: Option<Real>)
        ensures
            match number {
                Some(r) => r@ == text@ && is_real_literal(text@),
                None => !is_real_literal(text@),
            },
    {
        if check_real_literal(text.as_str()) {
            Some(Real { text })
        } else {
            None
        }
    }

    /// The text of the number.
    pub fn as_str(&self) -> (text: &str)
        ensures
            text@ == self@,
            is_real_literal(self@),
    {
        proof {
            use_type_invariant(self);
        }
        self.text.as_str()
    }

    /// The number as a JSON value.
    pub fn to_json(&self) -> (j: Json)
        ensures
            j@ == JsonView::Number(self@),
            is_real_literal(self@),
    {
        proof {
            use_type_invariant(self);
        }
        Json::Number(self.text.clone())
    }
}

/// The text of a string.
pub open spec fn string_of(j: JsonView) -> Option<Seq<char>> {
    match j {
        JsonView::String(text) => Some(text),
        _ => None,
    }
}

/// The value of a boolean.
pub open spec fn bool_of(j: JsonView) -> Option<bool> {
    match j {
        JsonView::Bool(b) => Some(b),
        _ => None,
    }
}

/// The signed 64-bit integer that a number is the numeral of.
pub open spec fn i64_in(j: JsonView) -> Option<i64> {
    match j {
        JsonView::Number(text) => i64_of(text),
        _ => None,
    }
}

/// The unsigned 64-bit integer that a number is the numeral of.
pub open spec fn u64_in(j: JsonView) -> Option<u64> {
    match j {
        JsonView::Number(text) => u64_of(text),
        _ => None,
    }
}

/// The text of a number that is written as JSON writes numbers.
pub open spec fn real_of(j: JsonView) -> Option<Seq<char>> {
    match j {
        JsonView::Number(text) => if is_real_literal(text) {
            Some(text)
        } else {
            None
        },
        _ => None,
    }
}

/// The items of an array.
pub open spec fn items_of(j: JsonView) -> Option<Seq<JsonView>> {
    match j {
        JsonView::Array(items) => Some(items),
        _ => None,
    }
}

/// The texts of an array of strings.
pub open spec fn strings_of(j: JsonView) -> Option<Seq<Seq<char>>> {
    match j {
        JsonView::Array(items) => if forall|i: int|
            0 <= i < items.len() ==> (#[trigger] items[i]) is String {
            Some(Seq::new(items.len(), |i: int| items[i]->String_0))
        } else {
            None
        },
        _ => None,
    }
}

/// The value that writes a string which may be absent: `null` where it is.
pub open spec fn optional_string_json(text: Option<Seq<char>>) -> JsonView {
    match text {
        Some(t) => JsonView::String(t),
        None => JsonView::Null,
    }
}

/// The array that writes `texts`, each as a string.
pub open spec fn strings_json(texts: Seq<Seq<char>>) -> JsonView {
    JsonView::Array(Seq::new(texts.len(), |i: int| JsonView::String(texts[i])))
}

/// An array of strings that is written and read again holds the same texts.
pub proof fn lemma_strings_round_trip(texts: Seq<Seq<char>>)
    ensures
        strings_of(strings_json(texts)) == Some(texts),
{
    let items = strings_json(texts)->Array_0;
    assert forall|i: int| 0 <= i < items.len() implies (#[trigger] items[i]) is String by {}
    assert(Seq::new(items.len(), |i: int| items[i]->String_0) =~= texts);
}

/// A member that must be there: `found` read by `read`.
pub open spec fn required<T>(
    found: Option<JsonView>,
    read: spec_fn(JsonView) -> Option<T>,
) -> Result<T, DecodeError> {
    match found {
        None => Err(DecodeError::MissingField),
        Some(j) => match read(j) {
            Some(value) => Ok(value),
            None => Err(DecodeError::TypeMismatch),
        },
    }
}

/// A member that may be absent or `null`: `found` read by `read` where it
/// holds a value.
pub open spec fn optional<T>(
    found: Option<JsonView>,
    read: spec_fn(JsonView) -> Option<T>,
) -> Result<Option<T>, DecodeError> {
    match found {
        None => Ok(None),
        Some(JsonView::Null) => Ok(None),
        Some(j) => match read(j) {
            Some(value) => Ok(Some(value)),
            None => Err(DecodeError::TypeMismatch),
        },
    }
}

impl JsonView {
    /// The string under `name`.
    pub open spec fn string_field(self, name: Seq<char>) -> Result<Seq<char>, DecodeError> {
        required(self.member(name), |j: JsonView| string_of(j))
    }

    /// The string under `name`, if there is one.
    pub open spec fn optional_string_field(self, name: Seq<char>) -> Result<
        Option<Seq<char>>,
        DecodeError,
    > {
        optional(self.member(name), |j: JsonView| string_of(j))
    }

    /// The boolean under `name`.
    pub open spec fn bool_field(self, name: Seq<char>) -> Result<bool, DecodeError> {
        required(self.member(name), |j: JsonView| bool_of(j))
    }

    /// The signed integer under `name`.
    pub open spec fn i64_field(self, name: Seq<char>) -> Result<i64, DecodeError> {
        required(self.member(name), |j: JsonView| i64_in(j))
    }

    /// The unsigned integer under `name`.
    pub open spec fn u64_field(self, name: Seq<char>) -> Result<u64, DecodeError> {
        required(self.member(name), |j: JsonView| u64_in(j))
    }

    /// The number under `name`.
    pub open spec fn real_field(self, name: Seq<char>) -> Result<Seq<char>, DecodeError> {
        required(self.member(name), |j: JsonView| real_of(j))
    }

    /// The array under `name`.
    pub open spec fn items_field(self, name: Seq<char>) -> Result<Seq<JsonView>, DecodeError> {
        required(self.member(name), |j: JsonView| items_of(j))
    }

    /// The array of strings under `name`.
    pub open spec fn strings_field(self, name: Seq<char>) -> Result<Seq<Seq<char>>, DecodeError> {
        required(self.member(name), |j: JsonView| strings_of(j))
    }
}

impl Json {
    /// The text of a string; `None` for any other value.
    pub fn to_text(&self) -> (text: Option<String>)
        ensures
            text.deep_view() == string_of(self@),
    {
        match self {
            Json::String(t) => Some(t.clone()),
            _ => None,
        }
    }

    /// The signed integer that a number is the numeral of; `None` for any
    /// other value.
    pub fn to_i64(&self) -> (value: Option<i64>)
        ensures
            value == i64_in(self@),
    {
        match self {
            Json::Number(t) => parse_i64(t.as_str()),
            _ => None,
        }
    }

    /// The unsigned integer that a number is the numeral of; `None` for any
    /// other value.
    pub fn to_u64(&self) -> (value: Option<u64>)
        ensures
            value == u64_in(self@),
    {
        match self {
            Json::Number(t) => parse_u64(t.as_str()),
            _ => None,
        }
    }

    /// The number that the value writes; `None` for a value that is no
    /// number, or no number as JSON writes one.
    pub fn to_real(&self) -> (value: Option<Real>)
        ensures
            value.deep_view() == real_of(self@),
    {
        match self {
            Json::Number(t) => Real::new(t.clone()),
            _ => None,
        }
    }

    /// The items of an array; `None` for any other value.
    pub fn to_items(&self) -> (items: Option<Vec<Json>>)
        ensures
            items.deep_view() == items_of(self@),
    {
        match self {
            Json::Array(v) => {
                let copy = copy_items(v);
                proof {
                    lemma_array_view(*v);
                }
                Some(copy)
            },
            _ => None,
        }
    }

    /// The texts of an array of strings; `None` for any other value.
    pub fn to_strings(&self) -> (texts: Option<Vec<String>>)
        ensures
            texts.deep_view() == strings_of(self@),
    {
        match self {
            Json::Array(v) => {
                proof {
                    lemma_array_view(*v);
                }
                let ghost items = v.deep_view();
                let mut texts: Vec<String> = Vec::new();
                let mut i: usize = 0;
                while i < v.len()
                    invariant
                        i <= v@.len(),
                        items == v.deep_view(),
                        self@ == JsonView::Array(items),
                        texts@.len() == i,
                        forall|k: int| 0 <= k < i ==> (#[trigger] items[k]) is String,
                        forall|k: int| 0 <= k < i ==> (#[trigger] texts@[k])@ == items[k]->String_0,
                    decreases v@.len() - i,
                {
                    assert(items[i as int] == v@[i as int]@);
                    match &v[i] {
                        Json::String(t) => {
                            texts.push(t.clone());
                        },
                        _ => {
                            assert(!(items[i as int] is String));
                            return None;
                        },
                    }
                    i = i + 1;
                }
                assert(texts.deep_view() =~= strings_of(self@).unwrap());
                Some(texts)
            },
            _ => None,
        }
    }

    /// The value that writes `text`: `null` where there is none.
    pub(crate) fn from_optional_text(text: &Option<String>) -> (j: Json)
        ensures
            j@ == optional_string_json(text.deep_view()),
    {
        match text {
            Some(t) => Json::from_text(t.clone()),
            None => Json::Null,
        }
    }

    /// The array of the values `items`.
    pub(crate) fn from_items(items: &Vec<Json>) -> (j: Json)
        ensures
            j@ == JsonView::Array(items.deep_view()),
    {
        let copy = copy_items(items);
        proof {
            lemma_array_view(copy);
        }
        Json::Array(copy)
    }

    /// The array that writes `texts`, each as a string.
    pub(crate) fn from_texts(texts: &Vec<String>) -> (j: Json)
        ensures
            j@ == strings_json(texts.deep_view()),
    {
        let mut items: Vec<Json> = Vec::new();
        let mut i: usize = 0;
        while i < texts.len()
            invariant
                i <= texts@.len(),
                items@.len() == i,
                forall|k: int|
                    0 <= k < i ==> (#[trigger] items@[k])@ == JsonView::String(texts@[k]@),
            decreases texts@.len() - i,
        {
            items.push(Json::from_text(texts[i].clone()));
            i = i + 1;
        }
        proof {
            lemma_array_view(items);
            assert(items.deep_view() =~= strings_json(texts.deep_view())->Array_0);
        }
        Json::Array(items)
    }

    /// The string under `name`.
    pub fn string_field(&self, name: &str) -> (r: Result<String, DecodeError>)
        ensures
            ok_view(r) == self@.string_field(name@),
    {
        match self.member(name) {
            None => Err(DecodeError::MissingField),
            Some(j) => match j.to_text() {
                Some(value) => Ok(value),
                None => Err(DecodeError::TypeMismatch),
            },
        }
    }

    /// The string under `name`, if there is one.
    pub fn optional_string_field(&self, name: &str) -> (r: Result<Option<String>, DecodeError>)
        ensures
            ok_view(r) == self@.optional_string_field(name@),
    {
        match self.member(name) {
            None => Ok(None),
            Some(j) => if j.is_null() {
                Ok(None)
            } else {
                match j.to_text() {
                    Some(value) => Ok(Some(value)),
                    None => Err(DecodeError::TypeMismatch),
                }
            },
        }
    }

    /// The boolean under `name`.
    pub fn bool_field(&self, name: &str) -> (r: Result<bool, DecodeError>)
        ensures
            r == self@.bool_field(name@),
    {
        match self.member(name) {
            None => Err(DecodeError::MissingField),
            Some(j) => match j.as_bool() {
                Some(value) => Ok(value),
                None => Err(DecodeError::TypeMismatch),
            },
        }
    }

    /// The signed integer under `name`.
    pub fn i64_field(&self, name: &str) -> (r: Result<i64, DecodeError>)
        ensures
            r == self@.i64_field(name@),
    {
        match self.member(name) {
            None => Err(DecodeError::MissingField),
            Some(j) => match j.to_i64() {
                Some(value) => Ok(value),
                None => Err(DecodeError::TypeMismatch),
            },
        }
    }

    /// The unsigned integer under `name`.
    pub fn u64_field(&self, name: &str) -> (r: Result<u64, DecodeError>)
        ensures
            r == self@.u64_field(name@),
    {
        match self.member(name) {
            None => Err(DecodeError::MissingField),
            Some(j) => match j.to_u64() {
                Some(value) => Ok(value),
                None => Err(DecodeError::TypeMismatch),
            },
        }
    }

    /// The number under `name`.
    pub fn real_field(&self, name: &str) -> (r: Result<Real, DecodeError>)
        ensures
            ok_view(r) == self@.real_field(name@),
    {
        match self.member(name) {
            None => Err(DecodeError::MissingField),
            Some(j) => match j.to_real() {
                Some(value) => Ok(value),
                None => Err(DecodeError::TypeMismatch),
            },
        }
    }

    /// The array under `name`.
    pub fn items_field(&self, name: &str) -> (r: Result<Vec<Json>, DecodeError>)
        ensures
            ok_view(r) == self@.items_field(name@),
    {
        match self.member(name) {
            None => Err(DecodeError::MissingField),
            Some(j) => match j.to_items() {
                Some(value) => Ok(value),
                None => Err(DecodeError::TypeMismatch),
            },
        }
    }

    /// The array of strings under `name`.
    pub fn strings_field(&self, name: &str) -> (r: Result<Vec<String>, DecodeError>)
        ensures
            ok_view(r) == self@.strings_field(name@),
    {
        match self.member(name) {
            None => Err(DecodeError::MissingField),
            Some(j) => match j.to_strings() {
                Some(value) => Ok(value),
                None => Err(DecodeError::TypeMismatch),
            },
        }
    }
}

/// A copy of a text that may be absent.
pub fn copy_optional_text(text: &Option<String>) -> (copy: Option<String>)
    ensures
        copy.deep_view() == text.deep_view(),
{
    match text {
        Some(t) => Some(t.clone()),
        None => None,
    }
}

/// A copy of a value that may be absent.
pub fn copy_optional_value(value: &Option<Json>) -> (copy: Option<Json>)
    ensures
        copy.deep_view() == value.deep_view(),
{
    match value {
        Some(j) => Some(j.clone()),
        None => None,
    }
}

/// A copy of `texts` that holds the same texts.
pub fn copy_texts(texts: &Vec<String>) -> (copy: Vec<String>)
    ensures
        copy.deep_view() == texts.deep_view(),
{
    let mut copy: Vec<String> = Vec::new();
    let mut i: usize = 0;
    while i < texts.len()
        invariant
            i <= texts@.len(),
            copy@.len() == i,
            forall|k: int| 0 <= k < i ==> (#[trigger] copy@[k])@ == texts@[k]@,
        decreases texts@.len() - i,
    {
        copy.push(texts[i].clone());
        i = i + 1;
    }
    assert(copy.deep_view() =~= texts.deep_view());
    copy
}

/// A copy of `items` that holds what they hold.
pub fn copy_items(items: &Vec<Json>) -> (copy: Vec<Json>)
    ensures
        copy.deep_view() == items.deep_view(),
{
    let mut copy: Vec<Json> = Vec::new();
    let mut i: usize = 0;
    while i < items.len()
        invariant
            i <= items@.len(),
            copy@.len() == i,
            forall|k: int| 0 <= k < i ==> (#[trigger] copy@[k])@ == items@[k]@,
        decreases items@.len() - i,
    {
        copy.push(items[i].clone());
        i = i + 1;
    }
    assert(copy.deep_view() =~= items.deep_view());
    copy
}

} // verus!
