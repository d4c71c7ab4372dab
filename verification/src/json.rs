//! JSON values, as the trackers answer with them.

use vstd::prelude::*;
use crate::text::same_text;

verus! {

/// A JSON value.
#[derive(Debug)]
pub enum Json {
    Null,
    Bool(bool),
    /// A number that is a whole number of 64 bits.
    Integer(i64),
    /// Any other number.
    Number,
    Text(String),
    List(Vec<Json>),
    Object(Vec<JsonMember>),
}

/// A member of a JSON object.
#[derive(Debug)]
pub struct JsonMember {
    pub key: String,
    pub value: Json,
}

/// The value of the first member with the given key.
pub open spec fn member_in(members: Seq<JsonMember>, key: Seq<char>) -> Option<Json>
    decreases members.len(),
{
    if members.len() == 0 {
        None
    } else if members[0].key@ == key {
        Some(members[0].value)
    } else {
        member_in(members.drop_first(), key)
    }
}

impl Json {
    /// The member of an object with the given key; a value that is no
    /// object has no members.
    pub open spec fn member(self, key: Seq<char>) -> Option<Json> {
        match self {
            Json::Object(members) => member_in(members@, key),
            _ => None,
        }
    }

    /// The text of a value that is a text.
    pub open spec fn text(self) -> Option<Seq<char>> {
        match self {
            Json::Text(s) => Some(s@),
            _ => None,
        }
    }

    /// The number of a value that is a whole number.
    pub open spec fn integer(self) -> Option<i64> {
        match self {
            Json::Integer(n) => Some(n),
            _ => None,
        }
    }

    /// The items of a value that is a list.
    pub open spec fn items(self) -> Option<Seq<Json>> {
        match self {
            Json::List(v) => Some(v@),
            _ => None,
        }
    }

    /// The member of an object with the given key.
    pub fn get(&self, key: &str) -> (r: Option<&Json>)
        ensures
            match r {
                Some(v) => self.member(key@) == Some(*v),
                None => self.member(key@) is None,
            },
    {
        match self {
            Json::Object(members) => {
                let mut i: usize = 0;
                assert(members@.skip(0) == members@);
                while i < members.len()
                    invariant
                        i <= members.len(),
                        *self matches Json::Object(held) && held == *members,
                        member_in(members@, key@) == member_in(members@.skip(i as int), key@),
                    decreases members.len() - i,
                {
                    proof {
                        assert(members@.skip(i as int)[0] == members@[i as int]);
                        assert(members@.skip(i as int).drop_first() == members@.skip(i + 1));
                    }
                    if same_text(members[i].key.as_str(), key) {
                        return Some(&members[i].value);
                    }
                    i += 1;
                }
                None
            },
            _ => None,
        }
    }

    /// The text of a value that is a text.
    pub fn as_str(&self) -> (r: Option<&str>)
        ensures
            match r {
                Some(s) => self.text() == Some(s@),
                None => self.text() is None,
            },
    {
        match self {
            Json::Text(s) => Some(s.as_str()),
            _ => None,
        }
    }

    /// The number of a value that is a whole number.
    pub fn as_i64(&self) -> (r: Option<i64>)
        ensures
            r == self.integer(),
    {
        match self {
            Json::Integer(n) => Some(*n),
            _ => None,
        }
    }

    /// The items of a value that is a list.
    pub fn as_array(&self) -> (r: Option<&Vec<Json>>)
        ensures
            match r {
                Some(v) => self.items() == Some(v@),
                None => self.items() is None,
            },
    {
        match self {
            Json::List(v) => Some(v),
            _ => None,
        }
    }

    /// Whether the value is the boolean `true`.
    pub fn is_true(&self) -> (r: bool)
        ensures
            r == (*self matches Json::Bool(b) && b),
    {
        match self {
            Json::Bool(b) => *b,
            _ => false,
        }
    }
}

/// The text of the member with the given key, where there is such a member
/// and it is a text.
pub open spec fn text_at(value: Json, key: Seq<char>) -> Option<Seq<char>> {
    match value.member(key) {
        Some(v) => v.text(),
        None => None,
    }
}

/// The text of the member with the given key, or an empty text.
pub open spec fn text_or_empty(value: Json, key: Seq<char>) -> Seq<char> {
    match text_at(value, key) {
        Some(t) => t,
        None => Seq::empty(),
    }
}

/// The text of the member with the given key, or an empty text.
pub fn text_or_default(value: &Json, key: &str) -> (r: String)
    ensures
        r@ == text_or_empty(*value, key@),
{
    match value.get(key) {
        Some(v) => match v.as_str() {
            Some(s) => s.to_owned(),
            None => String::new(),
        },
        None => String::new(),
    }
}

} // verus!
