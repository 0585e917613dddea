//! JSON values, as far as the library reads them.

use vstd::prelude::*;
use vstd::string::*;

verus! {

/// A JSON value.
#[derive(Debug)]
pub enum Json {
    Null,
    Bool(bool),
    /// A number, with its value where it is a whole number without a sign
    /// that 64 bits hold, and without where it is any other number.
    Number(Option<u64>),
    Text(String),
    List(Vec<Json>),
    /// The members of an object, each with its name.
    Object(Vec<(String, Json)>),
}

/// The first of `members` from `from` on that is named `key`.
pub open spec fn member_from(members: Seq<(String, Json)>, key: Seq<char>, from: int) -> Option<Json>
    decreases members.len() - from,
{
    if from < 0 || from >= members.len() {
        None
    } else if members[from].0@ == key {
        Some(members[from].1)
    } else {
        member_from(members, key, from + 1)
    }
}

impl Json {
    /// The member of an object that is named `key`: the first, should the
    /// name occur more than once. Anything but an object has no members.
    pub open spec fn field(self, key: Seq<char>) -> Option<Json> {
        match self {
            Json::Object(members) => member_from(members@, key, 0),
            _ => None,
        }
    }

    /// The text, where the value is one.
    pub open spec fn text(self) -> Option<Seq<char>> {
        match self {
            Json::Text(text) => Some(text@),
            _ => None,
        }
    }

    /// The items, where the value is a list.
    pub open spec fn items(self) -> Option<Seq<Json>> {
        match self {
            Json::List(items) => Some(items@),
            _ => None,
        }
    }

    /// The number, where the value is a whole number without a sign.
    pub open spec fn number(self) -> Option<u64> {
        match self {
            Json::Number(value) => value,
            _ => None,
        }
    }

    /// Looks up the member of an object that is named `key`.
    pub fn get(&self, key: &str) -> (found: Option<&Json>)
        ensures
            match found {
                Some(member) => self.field(key@) == Some(*member),
                None => self.field(key@) is None,
            },
    {
        match self {
            Json::Object(members) => {
                let wanted = key.to_owned();
                let mut i: usize = 0;
                while i < members.len()
                    invariant
                        i <= members@.len(),
                        wanted@ == key@,
                        self.field(key@) == member_from(members@, key@, i as int),
                    decreases members@.len() - i,
                {
                    if members[i].0 == wanted {
                        assert(member_from(members@, key@, i as int) == Some(members@[i as int].1));
                        return Some(&members[i].1);
                    }
                    i = i + 1;
                }
                None
            },
            _ => None,
        }
    }

    /// The text, where the value is one.
    pub fn as_str(&self) -> (text: Option<&str>)
        ensures
            match text {
                Some(t) => self.text() == Some(t@),
                None => self.text() is None,
            },
    {
        match self {
            Json::Text(text) => Some(text.as_str()),
            _ => None,
        }
    }

    /// The items, where the value is a list.
    pub fn as_array(&self) -> (items: Option<&Vec<Json>>)
        ensures
            match items {
                Some(list) => self.items() == Some(list@),
                None => self.items() is None,
            },
    {
        match self {
            Json::List(items) => Some(items),
            _ => None,
        }
    }

    /// The number, where the value is a whole number without a sign.
    pub fn as_u64(&self) -> (number: Option<u64>)
        ensures
            number == self.number(),
    {
        match self {
            Json::Number(value) => *value,
            _ => None,
        }
    }
}

} // verus!
