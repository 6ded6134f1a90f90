//! Identifiers of domain objects: by text or by number.
use vstd::prelude::*;

use crate::common::ids::{is_uuid_text, new_uuid_text};
use crate::common::text::{decimal, u64_to_decimal};

verus! {

/// Base trait for domain identifiers.
pub trait Identifier: Clone + PartialEq + Eq {
    /// Returns the string representation of the identifier.
    fn as_str(&self) -> &str;
}

/// String-based identifier.
#[derive(Debug, Hash)]
pub struct StringId(String);

impl View for StringId {
    type V = Seq<char>;

    closed spec fn view(&self) -> Seq<char> {
        self.0@
    }
}

impl Clone for StringId {
    fn clone(&self) -> (r: Self)
        ensures
            r@ == self@,
    {
        StringId(self.0.clone())
    }
}

impl PartialEq for StringId {
    fn eq(&self, other: &Self) -> (r: bool) {
        self.0 == other.0
    }
}

impl vstd::std_specs::cmp::PartialEqSpecImpl for StringId {
    open spec fn obeys_eq_spec() -> bool {
        true
    }

    open spec fn eq_spec(&self, other: &Self) -> bool {
        self@ == other@
    }
}

impl Eq for StringId {

}

impl StringId {
    /// An identifier with the given text.
    pub fn new(id: &str) -> (r: Self)
        ensures
            r@ == id@,
    {
        StringId(String::from_str(id))
    }

    /// A fresh random identifier, in the hyphenated form of a UUID.
    pub fn from_uuid() -> (r: Self)
        ensures
            is_uuid_text(r@),
    {
        StringId(new_uuid_text())
    }

    /// The text of the identifier, as `Display` writes it.
    pub fn to_string(&self) -> (r: String)
        ensures
            r@ == self@,
    {
        self.0.clone()
    }
}

impl Identifier for StringId {
    fn as_str(&self) -> (r: &str)
        ensures
            r@ == self@,
    {
        self.0.as_str()
    }
}

impl From<String> for StringId {
    fn from(s: String) -> (r: Self) {
        StringId(s)
    }
}

impl vstd::std_specs::convert::FromSpecImpl<String> for StringId {
    open spec fn obeys_from_spec() -> bool {
        true
    }

    open spec fn from_spec(v: String) -> Self {
        StringId::from_text(v)
    }
}

impl<'a> From<&'a str> for StringId {
    /// The identifier holding a copy of `s`.
    fn from(s: &'a str) -> (r: Self)
        ensures
            r@ == s@,
    {
        StringId(String::from_str(s))
    }
}

impl<'a> vstd::std_specs::convert::FromSpecImpl<&'a str> for StringId {
    open spec fn obeys_from_spec() -> bool {
        false
    }

    open spec fn from_spec(v: &'a str) -> Self {
        arbitrary()
    }
}

impl StringId {
    /// The identifier that holds `s`.
    pub closed spec fn from_text(s: String) -> Self {
        StringId(s)
    }
}

/// Numeric identifier.
#[derive(Debug, Clone, Copy, PartialEq, Eq, Hash, Structural)]
pub struct U64Id(u64);

impl View for U64Id {
    type V = u64;

    closed spec fn view(&self) -> u64 {
        self.0
    }
}

impl U64Id {
    /// An identifier with the given number.
    pub fn new(id: u64) -> (r: Self)
        ensures
            r@ == id,
    {
        U64Id(id)
    }

    /// The identifier that holds `n`.
    pub closed spec fn from_number(n: u64) -> Self {
        U64Id(n)
    }

    /// The number in decimal, as `Display` writes it.
    pub fn to_string(&self) -> (r: String)
        ensures
            r@ == decimal(self@ as nat),
    {
        u64_to_decimal(self.0)
    }
}

impl From<u64> for U64Id {
    fn from(n: u64) -> (r: Self) {
        U64Id(n)
    }
}

impl vstd::std_specs::convert::FromSpecImpl<u64> for U64Id {
    open spec fn obeys_from_spec() -> bool {
        true
    }

    open spec fn from_spec(v: u64) -> Self {
        U64Id::from_number(v)
    }
}

} // verus!
