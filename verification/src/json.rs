//! JSON values as the calls exchange them.
//!
//! A value keeps a number as the text that was written for it, so that no
//! digit is lost, and an object as the list of its members in the order in
//! which they were written.

use crate::text::decimal;
use vstd::prelude::*;

verus! {

/// A JSON value.
#[derive(Debug, PartialEq, Eq)]
pub enum Json {
    /// The literal `null`.
    Null,
    /// `true` or `false`.
    Bool(bool),
    /// A number, as written.
    Number(String),
    /// A string.
    String(String),
    /// An array.
    Array(Vec<Json>),
    /// An object: its members, in order.
    Object(Vec<(String, Json)>),
}

/// What a [`Json`] value holds.
pub enum JsonView {
    Null,
    Bool(bool),
    Number(Seq<char>),
    String(Seq<char>),
    Array(Seq<JsonView>),
    Object(Seq<(Seq<char>, JsonView)>),
}

impl View for Json {
    type V = JsonView;

    // The tests on `i` serve termination only: within the bounds they hold,
    // and beyond them a sequence has nothing.
    open spec fn view(&self) -> JsonView
        decreases self,
    {
        match self {
            Json::Null => JsonView::Null,
            Json::Bool(b) => JsonView::Bool(*b),
            Json::Number(text) => JsonView::Number(text@),
            Json::String(text) => JsonView::String(text@),
            Json::Array(items) => JsonView::Array(
                Seq::new(
                    items@.len(),
                    |i: int|
                        if 0 <= i < items@.len() {
                            items@[i].view()
                        } else {
                            JsonView::Null
                        },
                ),
            ),
            Json::Object(members) => JsonView::Object(
                Seq::new(
                    members@.len(),
                    |i: int|
                        (
                            members@[i].0@,
                            if 0 <= i < members@.len() {
                                members@[i].1.view()
                            } else {
                                JsonView::Null
                            },
                        ),
                ),
            ),
        }
    }
}

impl DeepView for Json {
    type V = JsonView;

    open spec fn deep_view(&self) -> JsonView {
        self.view()
    }
}

/// What an array holds is what its items hold, one for one.
pub proof fn lemma_array_view(items: Vec<Json>)
    ensures
        Json::Array(items)@ == JsonView::Array(items.deep_view()),
{
    assert(Json::Array(items)@->Array_0 =~= items.deep_view());
}

/// What an object holds is what its members hold, one for one.
pub proof fn lemma_object_view(members: Vec<(String, Json)>)
    ensures
        Json::Object(members)@ == JsonView::Object(members.deep_view()),
{
    assert(Json::Object(members)@->Object_0 =~= members.deep_view());
}

/// The value of the last member of `members` whose key is `name`.
pub open spec fn last_member(members: Seq<(Seq<char>, JsonView)>, name: Seq<char>) -> Option<
    JsonView,
>
    decreases members.len(),
{
    if members.len() == 0 {
        None
    } else if members.last().0 == name {
        Some(members.last().1)
    } else {
        last_member(members.drop_last(), name)
    }
}

impl JsonView {
    /// The member of an object under the key `name`; where the key occurs
    /// more than once, the last of them. `None` for an object without that
    /// key and for a value that is no object.
    pub open spec fn member(self, name: Seq<char>) -> Option<JsonView> {
        match self {
            JsonView::Object(members) => last_member(members, name),
            _ => None,
        }
    }
}

/// A member that is followed by no other member of the same key is the one
/// that a lookup finds.
pub proof fn lemma_last_member_at(members: Seq<(Seq<char>, JsonView)>, name: Seq<char>, k: int)
    requires
        0 <= k < members.len(),
        members[k].0 == name,
        forall|j: int| k < j < members.len() ==> (#[trigger] members[j]).0 != name,
    ensures
        last_member(members, name) == Some(members[k].1),
    decreases members.len(),
{
    if k < members.len() - 1 {
        let rest = members.drop_last();
        assert(members.last() == members[members.len() - 1]);
        assert(rest[k] == members[k]);
        assert forall|j: int| k < j < rest.len() implies (#[trigger] rest[j]).0 != name by {
            assert(rest[j] == members[j]);
        }
        lemma_last_member_at(rest, name, k);
    }
}

/// Whether no two members of `members` have the same key.
pub open spec fn distinct_keys(members: Seq<(Seq<char>, JsonView)>) -> bool {
    forall|i: int, j: int|
        0 <= i < j < members.len() ==> (#[trigger] members[i]).0 != (#[trigger] members[j]).0
}

/// Among members whose keys differ from each other, each key finds its own
/// member.
pub proof fn lemma_member_of_distinct(members: Seq<(Seq<char>, JsonView)>, k: int)
    requires
        distinct_keys(members),
        0 <= k < members.len(),
    ensures
        last_member(members, members[k].0) == Some(members[k].1),
{
    lemma_last_member_at(members, members[k].0, k);
}

/// A key that no member has is not found.
pub proof fn lemma_last_member_absent(members: Seq<(Seq<char>, JsonView)>, name: Seq<char>)
    requires
        forall|j: int| 0 <= j < members.len() ==> (#[trigger] members[j]).0 != name,
    ensures
        last_member(members, name) is None,
    decreases members.len(),
{
    if members.len() > 0 {
        let rest = members.drop_last();
        assert(members.last() == members[members.len() - 1]);
        assert forall|j: int| 0 <= j < rest.len() implies (#[trigger] rest[j]).0 != name by {
            assert(rest[j] == members[j]);
        }
        lemma_last_member_absent(rest, name);
    }
}

impl Clone for Json {
    /// A copy that holds what `self` holds.
    fn clone(&self) -> (copy: Json)
        ensures
            copy@ == self@,
        decreases self,
    {
        match self {
            Json::Null => Json::Null,
            Json::Bool(b) => Json::Bool(*b),
            Json::Number(text) => Json::Number(text.clone()),
            Json::String(text) => Json::String(text.clone()),
            Json::Array(items) => {
                let mut copies: Vec<Json> = Vec::new();
                let mut i: usize = 0;
                while i < items.len()
                    invariant
                        i <= items@.len(),
                        copies@.len() == i,
                        forall|j: int| 0 <= j < i ==> (#[trigger] copies@[j])@ == items@[j]@,
                        forall|j: int|
                            0 <= j < items@.len() ==> decreases_to!(self => #[trigger] items@[j]),
                    decreases items@.len() - i,
                {
                    let item = items[i].clone();
                    copies.push(item);
                    i = i + 1;
                }
                let copy = Json::Array(copies);
                proof {
                    lemma_array_view(copies);
                    lemma_array_view(*items);
                    assert(copies.deep_view() =~= items.deep_view());
                }
                copy
            },
            Json::Object(members) => {
                let mut copies: Vec<(String, Json)> = Vec::new();
                let mut i: usize = 0;
                while i < members.len()
                    invariant
                        i <= members@.len(),
                        copies@.len() == i,
                        forall|j: int|
                            0 <= j < i ==> (#[trigger] copies@[j]).0@ == members@[j].0@
                                && copies@[j].1@ == members@[j].1@,
                        forall|j: int|
                            0 <= j < members@.len() ==> decreases_to!(self => (
                            #[trigger] members@[j]).1),
                    decreases members@.len() - i,
                {
                    let key = members[i].0.clone();
                    let value = members[i].1.clone();
                    copies.push((key, value));
                    i = i + 1;
                }
                let copy = Json::Object(copies);
                proof {
                    lemma_object_view(copies);
                    lemma_object_view(*members);
                    assert(copies.deep_view() =~= members.deep_view());
                }
                copy
            },
        }
    }
}

impl Json {
    /// The number that stands for `n`.
    ///
    /// Calls `strason`'s `From<i64> for Json`, which formats `n` with `{}`
    /// into a number: the contract states that this text is the decimal
    /// numeral of `n`.
    #[verifier::external_body]
    pub(crate) fn from_i64(n: i64) -> (j: Json)
        ensures
            j@ == JsonView::Number(decimal(n as int)),
    {
        match strason::Json::from(n).num() {
            Some(text) => Json::Number(text.to_owned()),
            None => Json::Null,
        }
    }

    /// The number that stands for `n`.
    ///
    /// Calls `strason`'s `From<u64> for Json`, which formats `n` with `{}`
    /// into a number: the contract states that this text is the decimal
    /// numeral of `n`.
    #[verifier::external_body]
    pub(crate) fn from_u64(n: u64) -> (j: Json)
        ensures
            j@ == JsonView::Number(decimal(n as int)),
    {
        match strason::Json::from(n).num() {
            Some(text) => Json::Number(text.to_owned()),
            None => Json::Null,
        }
    }

    /// The boolean `b`.
    ///
    /// Calls `strason`'s `From<bool> for Json`, which wraps `b` as a boolean.
    #[verifier::external_body]
    pub(crate) fn from_bool(b: bool) -> (j: Json)
        ensures
            j@ == JsonView::Bool(b),
    {
        match strason::Json::from(b).bool() {
            Some(value) => Json::Bool(value),
            None => Json::Null,
        }
    }

    /// The string `text`.
    ///
    /// Calls `strason`'s `From<String> for Json`, which wraps `text` as a
    /// string, unchanged.
    #[verifier::external_body]
    pub(crate) fn from_text(text: String) -> (j: Json)
        ensures
            j@ == JsonView::String(text@),
    {
        match strason::Json::from(text).string() {
            Some(value) => Json::String(value.to_owned()),
            None => Json::Null,
        }
    }

    /// The member of an object under the key `name`; where the key occurs
    /// more than once, the last of them.
    pub fn member<'a>(&'a self, name: &str) -> (found: Option<&'a Json>)
        ensures
            match found {
                Some(value) => self@.member(name@) == Some(value@),
                None => self@.member(name@) is None,
            },
    {
        match self {
            Json::Object(members) => {
                let key: String = name.to_owned();
                let ghost all = self@->Object_0;
                let mut i: usize = members.len();
                proof {
                    lemma_object_view(*members);
                    assert(all.take(i as int) =~= all);
                }
                while i > 0
                    invariant
                        i <= members@.len(),
                        self@ == JsonView::Object(all),
                        *self == Json::Object(*members),
                        key@ == name@,
                        all.len() == members@.len(),
                        forall|j: int|
                            0 <= j < all.len() ==> (#[trigger] all[j]) == (
                                members@[j].0@,
                                members@[j].1@,
                            ),
                        last_member(all, name@) == last_member(all.take(i as int), name@),
                    decreases i,
                {
                    i = i - 1;
                    let ghost before = all.take(i + 1);
                    assert(before.last() == all[i as int]);
                    assert(before.drop_last() =~= all.take(i as int));
                    assert(all[i as int] == (members@[i as int].0@, members@[i as int].1@));
                    if members[i].0 == key {
                        return Some(&members[i].1);
                    }
                }
                assert(all.take(0).len() == 0);
                None
            },
            _ => None,
        }
    }

    /// The text of a string; `None` for any other value.
    pub fn as_string(&self) -> (text: Option<&String>)
        ensures
            match text {
                Some(t) => self@ == JsonView::String(t@),
                None => !(self@ is String),
            },
    {
        match self {
            Json::String(t) => Some(t),
            _ => None,
        }
    }

    /// The text of a number; `None` for any other value.
    pub fn as_number(&self) -> (text: Option<&String>)
        ensures
            match text {
                Some(t) => self@ == JsonView::Number(t@),
                None => !(self@ is Number),
            },
    {
        match self {
            Json::Number(t) => Some(t),
            _ => None,
        }
    }

    /// The value of a boolean; `None` for any other value.
    pub fn as_bool(&self) -> (value: Option<bool>)
        ensures
            match value {
                Some(b) => self@ == JsonView::Bool(b),
                None => !(self@ is Bool),
            },
    {
        match self {
            Json::Bool(b) => Some(*b),
            _ => None,
        }
    }

    /// The items of an array; `None` for any other value.
    pub fn as_array(&self) -> (items: Option<&Vec<Json>>)
        ensures
            match items {
                Some(v) => self@ == JsonView::Array(v.deep_view()),
                None => !(self@ is Array),
            },
    {
        match self {
            Json::Array(v) => {
                proof {
                    lemma_array_view(*v);
                }
                Some(v)
            },
            _ => None,
        }
    }

    /// Whether the value is `null`.
    pub fn is_null(&self) -> (null: bool)
        ensures
            null == (self@ is Null),
    {
        match self {
            Json::Null => true,
            _ => false,
        }
    }

    /// Whether the value is an object.
    pub fn is_object(&self) -> (object: bool)
        ensures
            object == (self@ is Object),
    {
        match self {
            Json::Object(_) => true,
            _ => false,
        }
    }
}

} // verus!
