use vstd::prelude::*;

verus! {

/// A lower-case hexadecimal digit.
pub open spec fn is_lower_hex(c: char) -> bool {
    ('0' <= c && c <= '9') || ('a' <= c && c <= 'f')
}

/// The canonical textual form of a 128-bit identifier: 36 characters, lower-case
/// hexadecimal digits in groups of 8-4-4-4-12 separated by hyphens.
pub open spec fn is_canonical_uuid(s: Seq<char>) -> bool {
    &&& s.len() == 36
    &&& forall|i: int|
        0 <= i < 36 ==> if i == 8 || i == 13 || i == 18 || i == 23 {
            #[trigger] s[i] == '-'
        } else {
            is_lower_hex(s[i])
        }
}

/// What the uuid crate's parser followed by its `Display` makes of a text:
/// the canonical form of the identifier it reads, or nothing when it rejects it.
pub uninterp spec fn parsed_uuid(s: Seq<char>) -> Option<Seq<char>>;

/// Relies on `uuid::Uuid::new_v4` and its `Display`, which writes the hyphenated
/// lower-case form.
#[verifier::external_body]
fn fresh_uuid_text() -> (r: String)
    ensures
        is_canonical_uuid(r@),
        parsed_uuid(r@) == Some(r@),
{
    uuid::Uuid::new_v4().to_string()
}

/// Relies on `uuid::Uuid::try_parse` and the `Display` of the value it returns.
/// The parser takes the hyphenated form in either case of hexadecimal digit (and
/// the simple, braced and URN forms); `Display` writes the hyphenated lower-case
/// form, so a text already in that form comes back unchanged, and what it
/// writes reads back as itself.
#[verifier::external_body]
fn parse_uuid_text(s: &str) -> (r: Option<String>)
    ensures
        match r {
            Some(t) => parsed_uuid(s@) == Some(t@) && is_canonical_uuid(t@) && parsed_uuid(t@)
                == Some(t@),
            None => parsed_uuid(s@) is None,
        },
        is_canonical_uuid(s@) ==> r is Some && r.unwrap()@ == s@,
{
    uuid::Uuid::try_parse(s).ok().map(|u| u.to_string())
}

/// A validated 128-bit identifier, held in its canonical textual form.
#[derive(Debug, PartialEq, Eq)]
pub struct Uuid(String);

impl Uuid {
    /// The identifier's text.
    pub closed spec fn view(&self) -> Seq<char> {
        self.0@
    }

    /// Every identifier is held in canonical form, which reads back as itself.
    pub open spec fn wf(&self) -> bool {
        is_canonical_uuid(self@) && parsed_uuid(self@) == Some(self@)
    }

    /// A fresh random (version 4) identifier.
    pub fn new() -> (r: Self)
        ensures
            r.wf(),
    {
        Uuid(fresh_uuid_text())
    }

    /// Reads an identifier from text; `None` when the text is not one.
    pub fn parse(s: &str) -> (r: Option<Self>)
        ensures
            match r {
                Some(u) => parsed_uuid(s@) == Some(u@) && u.wf(),
                None => parsed_uuid(s@) is None,
            },
            is_canonical_uuid(s@) ==> r is Some && r.unwrap()@ == s@,
    {
        match parse_uuid_text(s) {
            Some(t) => Some(Uuid(t)),
            None => None,
        }
    }

    /// The canonical text of the identifier.
    pub fn as_str(&self) -> (r: &str)
        ensures
            r@ == self@,
    {
        self.0.as_str()
    }

    /// The canonical text of the identifier, owned.
    pub fn to_text(&self) -> (r: String)
        ensures
            r@ == self@,
    {
        self.0.clone()
    }
}

impl Default for Uuid {
    /// A fresh random identifier.
    fn default() -> (r: Self)
        ensures
            r.wf(),
    {
        Uuid::new()
    }
}

impl Clone for Uuid {
    fn clone(&self) -> (r: Self)
        ensures
            r == *self,
    {
        Uuid(self.0.clone())
    }
}

} // verus!
