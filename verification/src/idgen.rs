//! The identifier generator: random version 4 UUIDs, as text.

use vstd::prelude::*;

verus! {

/// Whether `c` is a hexadecimal digit in lower case.
pub open spec fn is_lower_hex(c: char) -> bool {
    ('0' <= c <= '9') || ('a' <= c <= 'f')
}

/// The four places of a UUID's text that hold a hyphen.
pub open spec fn is_hyphen_position(i: int) -> bool {
    i == 8 || i == 13 || i == 18 || i == 23
}

/// The shape of every identifier that the generator hands out: the
/// hyphenated lower-case text of a version 4 UUID of the RFC variant.
///
/// That is 36 characters in the groups 8-4-4-4-12, hyphens between the
/// groups and lower-case hexadecimal digits everywhere else; the third group
/// starts with the version digit `4` and the fourth with one of `8`, `9`,
/// `a`, `b`, the variant.
pub open spec fn is_uuid_text(s: Seq<char>) -> bool {
    &&& s.len() == 36
    &&& forall|i: int|
        #![trigger s[i]]
        0 <= i < 36 ==> if is_hyphen_position(i) {
            s[i] == '-'
        } else {
            is_lower_hex(s[i])
        }
    &&& s[14] == '4'
    &&& (s[19] == '8' || s[19] == '9' || s[19] == 'a' || s[19] == 'b')
}

/// Calls `uuid::Uuid::new_v4` and writes the UUID out with its `Display`
/// impl (`to_string`).
///
/// Trusted, not proved: the text has the shape `is_uuid_text`.
/// `new_v4` takes 128 random bits from the operating system and overwrites
/// the version and variant bits; `Display` writes the hyphenated lower-case
/// form. Nothing is claimed about which identifier comes back: two calls may
/// and almost always do differ. `new_v4` panics when the operating system
/// hands out no random bytes, which no argument can rule out.
#[verifier::external_body]
fn fresh_uuid_text() -> (id: String)
    ensures
        is_uuid_text(id@),
{
    uuid::Uuid::new_v4().to_string()
}

/// The source of error identifiers. It holds no state of its own: the
/// randomness comes from the operating system, so any number of generators,
/// on any number of threads, may be used side by side.
#[derive(Debug)]
pub struct IdGen {}

impl IdGen {
    /// A generator.
    pub fn new() -> (generator: Self)
        ensures
            generator == (IdGen {}),
    {
        Self {}
    }

    /// A fresh random identifier.
    ///
    /// Only its shape is promised: which identifier it is depends on chance.
    pub fn get(&self) -> (id: String)
        ensures
            is_uuid_text(id@),
    {
        fresh_uuid_text()
    }
}

} // verus!
