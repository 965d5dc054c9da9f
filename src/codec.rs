use vstd::prelude::*;
use vstd::string::StringSliceAdditionalSpecFns;

verus! {

/// The sixteen lower-case hexadecimal digits, by value.
pub open spec fn hex_digits() -> Seq<char> {
    seq!['0', '1', '2', '3', '4', '5', '6', '7', '8', '9', 'a', 'b', 'c', 'd', 'e', 'f']
}

/// The `k`-th hexadecimal digit of `v`, counted from the most significant.
pub open spec fn nibble(v: u128, k: int) -> int {
    (v as int / vstd::arithmetic::power::pow(16, (31 - k) as nat)) % 16
}

/// The 32 lower-case hexadecimal digits of `v`, most significant first.
pub open spec fn hex32(v: u128) -> Seq<char> {
    Seq::new(32, |k: int| hex_digits()[nibble(v, k)])
}

/// Canonical text of an identifier: groups of 8, 4, 4, 4 and 12 digits joined by `-`.
pub open spec fn id_text(v: u128) -> Seq<char> {
    let d = hex32(v);
    d.subrange(0, 8) + seq!['-'] + d.subrange(8, 12) + seq!['-'] + d.subrange(12, 16)
        + seq!['-'] + d.subrange(16, 20) + seq!['-'] + d.subrange(20, 32)
}

/// Identifier that the text `s` denotes, if it denotes one.
pub uninterp spec fn uuid_from_text(s: Seq<char>) -> Option<u128>;

#[verifier::external_type_specification]
#[verifier::external_body]
pub struct ExUuidError(uuid::Error);

/// Relies on `uuid::Uuid::from_u128` and the hyphenated lower-case form that
/// `uuid::fmt::Hyphenated` writes.
#[verifier::external_body]
fn uuid_hyphenated(v: u128) -> (r: String)
    ensures
        r@ == id_text(v),
{
    uuid::Uuid::from_u128(v).hyphenated().to_string()
}

/// Relies on `uuid::Uuid::parse_str`: it accepts every form that the crate
/// writes, the hyphenated one included, and refuses any input whose UTF-8
/// length is not 32, 36, 38 or 45 bytes.
#[verifier::external_body]
fn uuid_parse(s: &str) -> (r: Result<u128, uuid::Error>)
    ensures
        r matches Ok(v) ==> uuid_from_text(s@) == Some(v),
        r is Err <==> uuid_from_text(s@) is None,
        r matches Ok(w) ==> forall|v: u128| s@ == id_text(v) ==> w == v,
        r is Err ==> forall|v: u128| s@ != id_text(v),
        !valid_text_length(s.spec_bytes().len()) ==> r is Err,
{
    match uuid::Uuid::parse_str(s) {
        Ok(u) => Ok(u.as_u128()),
        Err(e) => Err(e),
    }
}

/// Relies on `uuid::Uuid::new_v4`: a random identifier, of which nothing is promised here.
#[verifier::external_body]
fn uuid_random() -> (r: u128) {
    uuid::Uuid::new_v4().as_u128()
}

/// Byte lengths of the textual forms that an identifier can take.
pub open spec fn valid_text_length(n: nat) -> bool {
    n == 32 || n == 36 || n == 38 || n == 45
}

/// A 128-bit unique identifier of a stored entity.
#[derive(Clone, Copy, Debug, PartialEq, Eq, Hash, Structural)]
pub struct BookId {
    pub value: u128,
}

/// A text that does not denote an identifier.
#[derive(Clone, Debug)]
pub struct ParseError {
    pub input: String,
}

impl BookId {
    pub fn from_u128(value: u128) -> (r: BookId)
        ensures
            r.value == value,
    {
        BookId { value }
    }

    pub fn as_u128(&self) -> (r: u128)
        ensures
            r == self.value,
    {
        self.value
    }

    /// A fresh random identifier.
    pub fn new_random() -> (r: BookId) {
        BookId { value: uuid_random() }
    }

    /// Canonical text of this identifier, as stored and as used in filters.
    pub fn encode(&self) -> (r: String)
        ensures
            r@ == id_text(self.value),
    {
        uuid_hyphenated(self.value)
    }

    /// Reads an identifier from its text; refuses any text that denotes none.
    pub fn decode(s: &str) -> (r: Result<BookId, ParseError>)
        ensures
            r matches Ok(id) ==> uuid_from_text(s@) == Some(id.value),
            r matches Err(e) ==> uuid_from_text(s@) is None && e.input@ == s@,
            forall|v: u128| s@ == id_text(v) ==> (r matches Ok(id) && id.value == v),
            !valid_text_length(s.spec_bytes().len()) ==> r is Err,
    {
        match uuid_parse(s) {
            Ok(v) => Ok(BookId { value: v }),
            Err(_) => Err(ParseError { input: s.to_string() }),
        }
    }
}

} // verus!
