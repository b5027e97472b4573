//! Correlation identifiers that match responses to requests.

use vstd::prelude::*;
use vstd::string::*;

verus! {

/// Whether `c` is a lowercase hexadecimal digit.
pub open spec fn is_lower_hex(c: char) -> bool {
    ('0' <= c && c <= '9') || ('a' <= c && c <= 'f')
}

/// Whether `s` is the hyphenated lowercase text of a random (version 4,
/// RFC 4122 variant) UUID: `xxxxxxxx-xxxx-4xxx-Nxxx-xxxxxxxxxxxx` with
/// `N` one of `8`, `9`, `a`, `b`.
pub open spec fn is_uuid_v4_text(s: Seq<char>) -> bool {
    &&& s.len() == 36
    &&& forall|i: int|
        0 <= i < 36 ==> if i == 8 || i == 13 || i == 18 || i == 23 {
            s[i] == '-'
        } else {
            is_lower_hex(#[trigger] s[i])
        }
    &&& s[14] == '4'
    &&& (s[19] == '8' || s[19] == '9' || s[19] == 'a' || s[19] == 'b')
}

/// Calls `uuid::Uuid::new_v4` and renders the result with its `Display`
/// impl. The uuid crate fixes the version nibble to 4 and the variant bits
/// to `10`, and `Display` writes the lowercase hyphenated form; that text
/// shape is what the contract claims. The random bits are not described.
#[verifier::external_body]
fn new_v4_text() -> (s: String)
    ensures
        is_uuid_v4_text(s@),
{
    uuid::Uuid::new_v4().to_string()
}

/// Unique identifier carried in-band by a request and its response.
#[derive(Debug, PartialEq, Eq, Hash)]
pub struct CorrelationId(String);

impl Clone for CorrelationId {
    /// A copy holding the same text.
    fn clone(&self) -> (r: Self)
        ensures
            r@ == self@,
    {
        CorrelationId(self.0.clone())
    }
}

impl View for CorrelationId {
    type V = Seq<char>;

    closed spec fn view(&self) -> Seq<char> {
        self.0@
    }
}

impl CorrelationId {
    /// A fresh random identifier in UUID v4 text form.
    pub fn generate() -> (r: Self)
        ensures
            is_uuid_v4_text(r@),
    {
        CorrelationId(new_v4_text())
    }

    /// The identifier as a string slice.
    pub fn as_str(&self) -> (r: &str)
        ensures
            r@ == self@,
    {
        self.0.as_str()
    }

    /// The identifier as an owned string (its display form).
    pub fn to_string(&self) -> (r: String)
        ensures
            r@ == self@,
    {
        self.0.clone()
    }

    /// The identifier as a borrowed `String`.
    pub fn as_string(&self) -> (r: &String)
        ensures
            r@ == self@,
    {
        &self.0
    }

    /// A copy holding the same text.
    pub fn duplicate(&self) -> (r: Self)
        ensures
            r@ == self@,
    {
        CorrelationId(self.0.clone())
    }

    /// An identifier holding `value`.
    pub fn new(value: String) -> (r: Self)
        ensures
            r@ == value@,
    {
        CorrelationId(value)
    }

    /// An identifier with the given text.
    pub fn from_text(s: &str) -> (r: Self)
        ensures
            r@ == s@,
    {
        CorrelationId(String::from_str(s))
    }
}

impl From<String> for CorrelationId {
    fn from(value: String) -> (r: Self)
        ensures
            r@ == value@,
    {
        CorrelationId(value)
    }
}

impl vstd::std_specs::convert::FromSpecImpl<String> for CorrelationId {
    open spec fn obeys_from_spec() -> bool {
        true
    }

    closed spec fn from_spec(v: String) -> Self {
        CorrelationId(v)
    }
}

} // verus!
