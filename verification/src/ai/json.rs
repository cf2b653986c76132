//! The parsed JSON document, modelled as a library value.
//!
//! serde_json parses the text; the document it returns is converted, behind
//! one trusted wrapper, into [`JsonDoc`], which verified code walks. The
//! parse result is a function of the text alone, named by [`json_doc_of`].

use vstd::prelude::*;

verus! {

use crate::text::str_eq;

#[verifier::external_type_specification]
#[verifier::external_body]
pub struct ExValue(serde_json::Value);

/// Relies on serde_json::Value's Clone: a clone is the same document.
pub assume_specification[ <serde_json::Value as Clone>::clone ](v: &serde_json::Value) -> (r:
    serde_json::Value)
    ensures
        r == *v,
;

/// One JSON value, as the library reads it: a number is carried by its
/// decimal text, an object by its members in the parser's key order.
#[derive(Debug)]
pub enum JsonDoc {
    Null,
    Bool(bool),
    Num(String),
    Str(String),
    Arr(Vec<JsonDoc>),
    Obj(Vec<(String, JsonDoc)>),
}

/// The document `s` parses to, if `s` is one well-formed JSON document with
/// nothing after it; parsing is a function of the text alone.
pub uninterp spec fn json_doc_of(s: Seq<char>) -> Option<JsonDoc>;

/// Relies on serde_json::from_str::<Value>: parses `s` strictly as one JSON
/// document, or fails; the result depends on the text alone and is handed
/// over as the library's model.
#[verifier::external_body]
pub fn parse_json(s: &str) -> (r: Option<JsonDoc>)
    ensures
        r == json_doc_of(s@),
{
    match serde_json::from_str::<serde_json::Value>(s) {
        Ok(v) => Some(doc_of_value(&v)),
        Err(_) => None,
    }
}

/// The converter `parse_json` uses: each serde_json value variant moves into
/// the corresponding [`JsonDoc`] variant, a number by its decimal text. No
/// verified code calls this directly.
#[verifier::external_body]
fn doc_of_value(v: &serde_json::Value) -> JsonDoc {
    match v {
        serde_json::Value::Null => JsonDoc::Null,
        serde_json::Value::Bool(b) => JsonDoc::Bool(*b),
        serde_json::Value::Number(n) => JsonDoc::Num(n.to_string()),
        serde_json::Value::String(s) => JsonDoc::Str(s.clone()),
        serde_json::Value::Array(items) => JsonDoc::Arr(items.iter().map(doc_of_value).collect()),
        serde_json::Value::Object(members) => JsonDoc::Obj(
            members.iter().map(|(k, m)| (k.clone(), doc_of_value(m))).collect(),
        ),
    }
}

/// The member under `k` among `entries`: the first with that key, if any.
pub open spec fn spec_member(entries: Seq<(String, JsonDoc)>, k: Seq<char>) -> Option<JsonDoc>
    decreases entries.len(),
{
    if entries.len() == 0 {
        None
    } else if entries[0].0@ == k {
        Some(entries[0].1)
    } else {
        spec_member(entries.drop_first(), k)
    }
}

/// The first member for `k` is the one at the first matching position.
proof fn lemma_member_at(entries: Seq<(String, JsonDoc)>, k: Seq<char>, i: int)
    requires
        0 <= i < entries.len(),
        forall|j: int| 0 <= j < i ==> (#[trigger] entries[j]).0@ != k,
        entries[i].0@ == k,
    ensures
        spec_member(entries, k) == Some(entries[i].1),
    decreases i,
{
    if i > 0 {
        lemma_member_at(entries.drop_first(), k, i - 1);
    }
}

/// Without a matching key there is no member.
proof fn lemma_member_none(entries: Seq<(String, JsonDoc)>, k: Seq<char>)
    requires
        forall|j: int| 0 <= j < entries.len() ==> (#[trigger] entries[j]).0@ != k,
    ensures
        spec_member(entries, k) is None,
    decreases entries.len(),
{
    if entries.len() > 0 {
        lemma_member_none(entries.drop_first(), k);
    }
}

impl JsonDoc {
    /// The member under `k`, when this value is an object holding that key.
    pub open spec fn spec_get(self, k: Seq<char>) -> Option<JsonDoc> {
        match self {
            JsonDoc::Obj(entries) => spec_member(entries@, k),
            _ => None,
        }
    }

    /// The member under `k`, when this value is an object holding that key;
    /// nothing otherwise.
    pub fn get_member(&self, k: &str) -> (r: Option<&JsonDoc>)
        ensures
            match r {
                Some(m) => self.spec_get(k@) == Some(*m),
                None => self.spec_get(k@) is None,
            },
    {
        match self {
            JsonDoc::Obj(entries) => {
                for i in 0..entries.len()
                    invariant
                        self.spec_get(k@) == spec_member(entries@, k@),
                        forall|j: int| 0 <= j < i ==> (#[trigger] entries@[j]).0@ != k@,
                {
                    if str_eq(entries[i].0.as_str(), k) {
                        proof {
                            lemma_member_at(entries@, k@, i as int);
                        }
                        return Some(&entries[i].1);
                    }
                }
                proof {
                    lemma_member_none(entries@, k@);
                }
                None
            }
            _ => None,
        }
    }

    /// The text, when this value is a JSON string; nothing otherwise.
    pub fn as_text(&self) -> (r: Option<&String>)
        ensures
            match r {
                Some(s) => *self matches JsonDoc::Str(t) && t == *s,
                None => !(*self matches JsonDoc::Str(_)),
            },
    {
        match self {
            JsonDoc::Str(s) => Some(s),
            _ => None,
        }
    }

    /// The elements, when this value is an array; nothing otherwise.
    pub fn as_items(&self) -> (r: Option<&Vec<JsonDoc>>)
        ensures
            match r {
                Some(items) => *self matches JsonDoc::Arr(l) && l == *items,
                None => !(*self matches JsonDoc::Arr(_)),
            },
    {
        match self {
            JsonDoc::Arr(items) => Some(items),
            _ => None,
        }
    }
}

} // verus!
