//! User identifiers: `USER_` followed by a random UUID.
use vstd::prelude::*;
use vstd::string::*;

use crate::text::push_str;

verus! {

/// Whether a character is a lower-case hexadecimal digit.
pub open spec fn spec_lower_hex(c: char) -> bool {
    ('0' <= c && c <= '9') || ('a' <= c && c <= 'f')
}

/// Whether a text is the hyphenated lower-case form of a version 4 UUID:
/// 36 characters, `-` at positions 8, 13, 18 and 23, lower-case hexadecimal
/// digits elsewhere, and the version digit `4` at position 14.
pub open spec fn spec_uuid_v4_text(s: Seq<char>) -> bool {
    &&& s.len() == 36
    &&& forall|i: int|
        0 <= i < 36 ==> if i == 8 || i == 13 || i == 18 || i == 23 {
            s[i] == '-'
        } else {
            spec_lower_hex(#[trigger] s[i])
        }
    &&& s[14] == '4'
}

/// A new random (version 4) UUID in its hyphenated text form (uuid's
/// `Uuid::new_v4`, written with its `Display`, which is the lower-case
/// hyphenated form). The contract states that form; which UUID it is, is
/// left open: it is random.
#[verifier::external_body]
pub(crate) fn new_uuid_v4() -> (s: String)
    ensures
        spec_uuid_v4_text(s@),
{
    uuid::Uuid::new_v4().to_string()
}

#[derive(Debug, PartialEq, Eq, Hash)]
pub struct UserId(pub String);

impl Clone for UserId {
    fn clone(&self) -> (r: Self)
        ensures
            r == *self,
    {
        UserId(self.0.clone())
    }
}

impl View for UserId {
    type V = Seq<char>;

    open spec fn view(&self) -> Seq<char> {
        self.0@
    }
}

impl UserId {
    /// The identifier with the given text.
    pub fn from(uuid: String) -> (u: UserId)
        ensures
            u@ == uuid@,
    {
        UserId(uuid)
    }

    /// A fresh identifier: `USER_` followed by a random UUID.
    pub fn default() -> (u: UserId)
        ensures
            exists|r: Seq<char>| u@ == "USER_"@ + r && spec_uuid_v4_text(r),
    {
        let mut s = String::from_str("USER_");
        let r = new_uuid_v4();
        push_str(&mut s, r.as_str());
        assert(s@ == "USER_"@ + r@);
        UserId(s)
    }

    pub fn as_str(&self) -> (s: &str)
        ensures
            s@ == self@,
    {
        self.0.as_str()
    }

    /// Whether this identifier has the given text.
    pub fn eq_str(&self, other: &str) -> (b: bool)
        ensures
            b == (self@ == other@),
    {
        crate::text::str_eq(self.0.as_str(), other)
    }

    /// Whether two identifiers are the same.
    pub fn same_as(&self, other: &UserId) -> (b: bool)
        ensures
            b == (self@ == other@),
    {
        self.0 == other.0
    }
}

} // verus!
