//! `MatchingData` — the erased value type that flows between data inputs and
//! input matchers.
//!
//! Extractors produce a `MatchingData`; matchers consume it in the same
//! evaluation call. The `Absent` variant signals missing data, and a
//! predicate that receives it evaluates to false.

use vstd::prelude::*;

verus! {

use vstd::string::StringExecFns;
use crate::strings::dec_str;
use crate::strings::dec_str_int;
use crate::strings::i64_to_string;
use crate::strings::usize_to_string;

/// The erased data type exchanged between extractors and matchers.
#[derive(Debug, Clone)]
pub enum MatchingData {
    /// No data available (the extractor returned nothing).
    Absent,
    /// String data — the most common case.
    String(String),
    /// Integer data.
    Int(i64),
    /// Boolean data.
    Bool(bool),
    /// Raw bytes data.
    Bytes(Vec<u8>),
}

/// Byte-for-byte equality of two byte vectors.
fn bytes_eq(a: &Vec<u8>, b: &Vec<u8>) -> (r: bool)
    ensures
        r == (a@ == b@),
{
    if a.len() != b.len() {
        proof {
            assert(a@ != b@) by {
                assert(a@.len() != b@.len());
            }
        }
        return false;
    }
    let mut i: usize = 0;
    while i < a.len()
        invariant
            i <= a@.len(),
            a@.len() == b@.len(),
            forall|j: int| 0 <= j < i ==> a@[j] == b@[j],
        decreases a@.len() - i,
    {
        if a[i] != b[i] {
            proof {
                assert(a@ != b@) by {
                    assert(a@[i as int] != b@[i as int]);
                }
            }
            return false;
        }
        i += 1;
    }
    proof {
        assert(a@ =~= b@);
    }
    true
}

impl PartialEq for MatchingData {
    fn eq(&self, other: &Self) -> (r: bool) {
        match (self, other) {
            (MatchingData::Absent, MatchingData::Absent) => true,
            (MatchingData::String(a), MatchingData::String(b)) => *a == *b,
            (MatchingData::Int(a), MatchingData::Int(b)) => *a == *b,
            (MatchingData::Bool(a), MatchingData::Bool(b)) => *a == *b,
            (MatchingData::Bytes(a), MatchingData::Bytes(b)) => bytes_eq(a, b),
            _ => false,
        }
    }
}

impl vstd::std_specs::cmp::PartialEqSpecImpl for MatchingData {
    open spec fn obeys_eq_spec() -> bool {
        true
    }

    open spec fn eq_spec(&self, other: &Self) -> bool {
        match (self, other) {
            (MatchingData::Absent, MatchingData::Absent) => true,
            (MatchingData::String(a), MatchingData::String(b)) => a@ == b@,
            (MatchingData::Int(a), MatchingData::Int(b)) => a == b,
            (MatchingData::Bool(a), MatchingData::Bool(b)) => a == b,
            (MatchingData::Bytes(a), MatchingData::Bytes(b)) => a@ == b@,
            _ => false,
        }
    }
}

impl MatchingData {
    /// Returns `true` if this is the `Absent` variant.
    pub fn is_none(&self) -> (r: bool)
        ensures
            r == (self is Absent),
    {
        matches!(self, MatchingData::Absent)
    }

    /// Returns `true` if this is the `String` variant.
    pub fn is_string(&self) -> (r: bool)
        ensures
            r == (self is String),
    {
        matches!(self, MatchingData::String(_))
    }

    /// Returns `true` if this is the `Int` variant.
    pub fn is_int(&self) -> (r: bool)
        ensures
            r == (self is Int),
    {
        matches!(self, MatchingData::Int(_))
    }

    /// Returns `true` if this is the `Bool` variant.
    pub fn is_bool(&self) -> (r: bool)
        ensures
            r == (self is Bool),
    {
        matches!(self, MatchingData::Bool(_))
    }

    /// Returns `true` if this is the `Bytes` variant.
    pub fn is_bytes(&self) -> (r: bool)
        ensures
            r == (self is Bytes),
    {
        matches!(self, MatchingData::Bytes(_))
    }

    /// Try to get the value as a string slice.
    pub fn as_str(&self) -> (r: Option<&str>)
        ensures
            match r {
                Some(s) => self matches MatchingData::String(t) && s@ == t@,
                None => !(self is String),
            },
    {
        match self {
            MatchingData::String(s) => Some(s.as_str()),
            _ => None,
        }
    }

    /// Try to get the value as an integer.
    pub fn as_int(&self) -> (r: Option<i64>)
        ensures
            match r {
                Some(i) => self == MatchingData::Int(i),
                None => !(self is Int),
            },
    {
        match self {
            MatchingData::Int(i) => Some(*i),
            _ => None,
        }
    }

    /// Try to get the value as a boolean.
    pub fn as_bool(&self) -> (r: Option<bool>)
        ensures
            match r {
                Some(b) => self == MatchingData::Bool(b),
                None => !(self is Bool),
            },
    {
        match self {
            MatchingData::Bool(b) => Some(*b),
            _ => None,
        }
    }

    /// Try to get the value as a byte slice.
    pub fn as_bytes(&self) -> (r: Option<&[u8]>)
        ensures
            match r {
                Some(b) => self matches MatchingData::Bytes(v) && b@ == v@,
                None => !(self is Bytes),
            },
    {
        match self {
            MatchingData::Bytes(b) => Some(b.as_slice()),
            _ => None,
        }
    }

    /// The name of the semantic type carried by this value.
    pub open spec fn spec_type_label(&self) -> Seq<char> {
        match self {
            MatchingData::Absent => "none"@,
            MatchingData::String(_) => "string"@,
            MatchingData::Int(_) => "int"@,
            MatchingData::Bool(_) => "bool"@,
            MatchingData::Bytes(_) => "bytes"@,
        }
    }

    /// Returns a string naming the type of this data, used for load-time
    /// compatibility checks between inputs and matchers.
    pub fn type_label(&self) -> (r: &'static str)
        ensures
            r@ == self.spec_type_label(),
    {
        match self {
            MatchingData::Absent => "none",
            MatchingData::String(_) => "string",
            MatchingData::Int(_) => "int",
            MatchingData::Bool(_) => "bool",
            MatchingData::Bytes(_) => "bytes",
        }
    }
}

impl MatchingData {
    /// The textual rendering of this value, used in traces.
    pub open spec fn spec_render(&self) -> Seq<char> {
        match self {
            MatchingData::Absent => "None"@,
            MatchingData::String(s) => "String(\""@ + s@ + "\")"@,
            MatchingData::Int(i) => "Int("@ + dec_str_int(*i as int) + ")"@,
            MatchingData::Bool(b) => if *b {
                "Bool(true)"@
            } else {
                "Bool(false)"@
            },
            MatchingData::Bytes(b) => "Bytes(len="@ + dec_str(b@.len()) + ")"@,
        }
    }

    /// Renders this value for traces.
    pub fn render(&self) -> (r: String)
        ensures
            r@ == self.spec_render(),
    {
        match self {
            MatchingData::Absent => "None".to_owned(),
            MatchingData::String(s) => {
                let mut out = "String(\"".to_owned();
                out.append(s.as_str());
                out.append("\")");
                out
            },
            MatchingData::Int(i) => {
                let mut out = "Int(".to_owned();
                out.append(i64_to_string(*i).as_str());
                out.append(")");
                out
            },
            MatchingData::Bool(b) => {
                if *b {
                    "Bool(true)".to_owned()
                } else {
                    "Bool(false)".to_owned()
                }
            },
            MatchingData::Bytes(b) => {
                let mut out = "Bytes(len=".to_owned();
                out.append(usize_to_string(b.len()).as_str());
                out.append(")");
                out
            },
        }
    }
}

impl Default for MatchingData {
    fn default() -> (r: Self)
        ensures
            r is Absent,
    {
        MatchingData::Absent
    }
}

} // verus!
