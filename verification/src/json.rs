//! JSON documents, as far as their members are read one by one.

use crate::text::{same_text, text_opt};
use vstd::prelude::*;

verus! {

/// The members of a JSON object: a name each, and the text where the value is a string. A document
/// that is no object has none.
#[derive(Debug)]
pub struct JsonObject {
    pub members: Vec<(String, Option<String>)>,
}

impl View for JsonObject {
    type V = Seq<(Seq<char>, Option<Seq<char>>)>;

    open spec fn view(&self) -> Seq<(Seq<char>, Option<Seq<char>>)> {
        Seq::new(
            self.members@.len(),
            |i: int| (self.members@[i].0@, text_opt(self.members@[i].1)),
        )
    }
}

/// The members of the JSON document that `body` is, or what the reader says of it.
pub uninterp spec fn json_members(body: Seq<u8>) -> Result<
    Seq<(Seq<char>, Option<Seq<char>>)>,
    Seq<char>,
>;

/// What an outcome of reading a JSON document says.
pub open spec fn members_of(r: Result<JsonObject, String>) -> Result<
    Seq<(Seq<char>, Option<Seq<char>>)>,
    Seq<char>,
> {
    match r {
        Ok(doc) => Ok(doc@),
        Err(e) => Err(e@),
    }
}

/// `serde_json::from_slice` into a `serde_json::Value`, of which the members are handed out. Which
/// bytes are JSON, and what they say, is left to the name.
#[verifier::external_body]
pub(crate) fn read_json(body: &[u8]) -> (r: Result<JsonObject, String>)
    ensures
        members_of(r) == json_members(body@),
{
    match serde_json::from_slice::<serde_json::Value>(body) {
        Ok(serde_json::Value::Object(map)) => Ok(
            JsonObject {
                members: map.into_iter().map(|(k, v)| (k, v.as_str().map(str::to_string))).collect(),
            },
        ),
        Ok(_) => Ok(JsonObject { members: Vec::new() }),
        Err(e) => Err(e.to_string()),
    }
}

/// What the first member named `name` holds: its text, where it is a string.
pub open spec fn member(doc: Seq<(Seq<char>, Option<Seq<char>>)>, name: Seq<char>) -> Option<
    Option<Seq<char>>,
>
    decreases doc.len(),
{
    if doc.len() == 0 {
        None
    } else if doc[0].0 == name {
        Some(doc[0].1)
    } else {
        member(doc.skip(1), name)
    }
}

/// The text of the member named `name`; none where it is missing or no string.
pub open spec fn member_text(
    doc: Seq<(Seq<char>, Option<Seq<char>>)>,
    name: Seq<char>,
) -> Option<Seq<char>> {
    match member(doc, name) {
        Some(v) => v,
        None => None,
    }
}

impl JsonObject {
    /// The position of the first member named `name`.
    fn find(&self, name: &str) -> (r: Option<usize>)
        ensures
            r matches Some(i) ==> i < self.members@.len() && member(self@, name@) == Some(
                self@[i as int].1,
            ),
            r is None ==> member(self@, name@) is None,
    {
        let mut i: usize = 0;
        assert(self@.skip(0) == self@);
        while i < self.members.len()
            invariant
                i <= self.members@.len(),
                member(self@.skip(i as int), name@) == member(self@, name@),
            decreases self.members@.len() - i,
        {
            if same_text(self.members[i].0.as_str(), name) {
                return Some(i);
            }
            assert(self@.skip(i as int).skip(1) == self@.skip(i + 1));
            i = i + 1;
        }
        None
    }

    /// Is there a member named `name`?
    pub fn has(&self, name: &str) -> (r: bool)
        ensures
            r == (member(self@, name@) is Some),
    {
        self.find(name).is_some()
    }

    /// The text of the member named `name`; none where it is missing or no string.
    pub fn text(&self, name: &str) -> (r: Option<String>)
        ensures
            text_opt(r) == member_text(self@, name@),
    {
        match self.find(name) {
            Some(i) => self.members[i].1.clone(),
            None => None,
        }
    }
}

} // verus!
