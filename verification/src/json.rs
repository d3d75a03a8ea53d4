//! JSON values as the library reads them, and the few lookups the flows need.
//!
//! Parsing is left to `serde_json`; the tree it yields is copied into [`Json`],
//! on which every lookup is an ordinary verified function.

use vstd::prelude::*;
use vstd::string::*;

verus! {

/// `serde_json::Value`, made known as a type and nothing more: a value of it
/// is only ever handed from the parser to the copy below.
#[verifier::external_type_specification]
#[verifier::external_body]
pub struct ExValue(serde_json::Value);

/// A JSON value. A number keeps the text it is written with; an object keeps
/// its members as a list of name and value.
#[derive(Debug, PartialEq, Eq)]
pub enum Json {
    Null,
    Bool(bool),
    Number(String),
    Text(String),
    Array(Vec<Json>),
    Object(Vec<(String, Json)>),
}

/// The value of the first member at or after `from` that is called `key`.
pub open spec fn member_from(members: Seq<(String, Json)>, key: Seq<char>, from: int) -> Option<
    Json,
>
    decreases members.len() - from,
{
    if from < 0 || from >= members.len() {
        None
    } else if members[from].0@ == key {
        Some(members[from].1)
    } else {
        member_from(members, key, from + 1)
    }
}

impl Json {
    /// The characters of a string value; `None` for every other kind of value.
    pub open spec fn spec_text(self) -> Option<Seq<char>> {
        match self {
            Json::Text(s) => Some(s@),
            _ => None,
        }
    }

    /// The element of an array at `index`; `None` past its end and for every
    /// value that is no array.
    pub open spec fn spec_item(self, index: int) -> Option<Json> {
        match self {
            Json::Array(items) => if 0 <= index < items@.len() {
                Some(items@[index])
            } else {
                None
            },
            _ => None,
        }
    }

    /// The member of an object called `key`; `None` where the object has no
    /// such member and for every value that is no object.
    pub open spec fn spec_member(self, key: Seq<char>) -> Option<Json> {
        match self {
            Json::Object(members) => member_from(members@, key, 0),
            _ => None,
        }
    }

    /// The text of a string value.
    pub fn text(&self) -> (r: Option<&str>)
        ensures
            match r {
                Some(s) => self.spec_text() == Some(s@),
                None => self.spec_text() is None,
            },
    {
        match self {
            Json::Text(s) => Some(s.as_str()),
            _ => None,
        }
    }

    /// The element of an array at `index`.
    pub fn item(&self, index: usize) -> (r: Option<&Json>)
        ensures
            match r {
                Some(j) => self.spec_item(index as int) == Some(*j),
                None => self.spec_item(index as int) is None,
            },
    {
        match self {
            Json::Array(items) => if index < items.len() {
                Some(&items[index])
            } else {
                None
            },
            _ => None,
        }
    }

    /// The member of an object called `key`; the first one, should the list
    /// hold several of that name.
    pub fn member(&self, key: &str) -> (r: Option<&Json>)
        ensures
            match r {
                Some(j) => self.spec_member(key@) == Some(*j),
                None => self.spec_member(key@) is None,
            },
    {
        match self {
            Json::Object(members) => {
                let wanted = String::from_str(key);
                let mut k: usize = 0;
                while k < members.len()
                    invariant
                        k <= members@.len(),
                        wanted@ == key@,
                        self.spec_member(key@) == member_from(members@, key@, 0),
                        member_from(members@, key@, 0) == member_from(members@, key@, k as int),
                    decreases members@.len() - k,
                {
                    if members[k].0 == wanted {
                        return Some(&members[k].1);
                    }
                    k += 1;
                }
                None
            },
            _ => None,
        }
    }
}

/// What `serde_json` makes of `text`: the value it parses to, or the message of
/// the error it reports.
pub uninterp spec fn parsed_json(text: Seq<char>) -> Result<Json, Seq<char>>;

/// A parse outcome with its error message taken as characters.
pub open spec fn parse_view(parsed: Result<Json, String>) -> Result<Json, Seq<char>> {
    match parsed {
        Ok(j) => Ok(j),
        Err(e) => Err(e@),
    }
}

/// Copies a `serde_json::Value` into a [`Json`], variant by variant. A number
/// is copied as the text that `serde_json` prints for it. Nothing is claimed
/// of the copy here; the parse function below names the result as a whole.
#[verifier::external_body]
fn json_of_value(value: &serde_json::Value) -> Json {
    match value {
        serde_json::Value::Null => Json::Null,
        serde_json::Value::Bool(b) => Json::Bool(*b),
        serde_json::Value::Number(n) => Json::Number(n.to_string()),
        serde_json::Value::String(s) => Json::Text(s.clone()),
        serde_json::Value::Array(a) => Json::Array(a.iter().map(json_of_value).collect()),
        serde_json::Value::Object(o) => Json::Object(
            o.iter().map(|(k, v)| (k.clone(), json_of_value(v))).collect(),
        ),
    }
}

/// Calls `serde_json::from_str` for a `serde_json::Value`. The contract only
/// gives the outcome a name: the same text always parses to the same value or
/// fails with the same message. It says nothing of which texts parse.
#[verifier::external_body]
pub(crate) fn parse_json(text: &str) -> (r: Result<Json, String>)
    ensures
        parse_view(r) == parsed_json(text@),
{
    match serde_json::from_str::<serde_json::Value>(text) {
        Ok(value) => Ok(json_of_value(&value)),
        Err(error) => Err(error.to_string()),
    }
}

} // verus!
