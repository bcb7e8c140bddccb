//! What the library takes from other crates, and what it believes of it:
//! identifiers (`uuid`), instants (`time`), byte strings (`bytes`), JSON values
//! (`serde_json`).

use vstd::prelude::*;

verus! {

/// An identifier: the 128 bits of a UUID, most significant byte first. Two
/// UUIDs compare as these numbers do.
pub type Uuid = u128;

/// Whether the bits of `id` are those of a version 7 UUID: version 7 in the
/// version field, binary 10 in the variant field.
pub open spec fn is_v7(id: Uuid) -> bool {
    &&& (id >> 76) & 0xf == 7
    &&& (id >> 62) & 0x3 == 2
}

/// A lower-case hexadecimal digit.
pub open spec fn hex_digit(n: int) -> char {
    seq!['0', '1', '2', '3', '4', '5', '6', '7', '8', '9', 'a', 'b', 'c', 'd', 'e', 'f'][n]
}

/// How many of the 32 hexadecimal digits stand before position `i` of the
/// hyphenated form.
pub open spec fn digits_before(i: int) -> int {
    if i <= 8 {
        i
    } else if i <= 13 {
        i - 1
    } else if i <= 18 {
        i - 2
    } else if i <= 23 {
        i - 3
    } else {
        i - 4
    }
}

/// The hyphenated form of an identifier: its 32 digits in groups of 8, 4, 4, 4
/// and 12.
pub open spec fn hyphenated(id: Uuid) -> Seq<char> {
    Seq::new(
        36,
        |i: int|
            if i == 8 || i == 13 || i == 18 || i == 23 {
                '-'
            } else {
                hex_digit(((id >> ((4 * (31 - digits_before(i))) as u128)) & 0xf) as int)
            },
    )
}

/// An identifier that `mint` has given in this process. It is made nowhere else.
pub struct Minted {
    id: Uuid,
}

impl Minted {
    /// The identifier.
    pub closed spec fn id(self) -> Uuid {
        self.id
    }

    /// The identifier.
    pub fn get(&self) -> (id: Uuid)
        ensures
            id == self.id(),
    {
        self.id
    }
}

/// The identifier of what was minted last, if anything was.
pub open spec fn last_id(last: Option<Minted>) -> Option<Uuid> {
    match last {
        Some(m) => Some(m.id()),
        None => None,
    }
}

/// `uuid::Uuid::now_v7`: a new identifier from the clock, a counter and random
/// bits. Claimed are its version and variant fields, and the order that `uuid`
/// guarantees: of the identifiers that this function gives in one process, each
/// is larger than those before it. `earlier` is one of those, or none.
#[verifier::external_body]
pub(crate) fn mint(earlier: &Option<Minted>) -> (m: Minted)
    ensures
        is_v7(m.id()),
        last_id(*earlier) matches Some(before) ==> before < m.id(),
{
    let _ = earlier;
    Minted { id: uuid::Uuid::now_v7().as_u128() }
}

/// `Display` of `uuid::Uuid`: the hyphenated form, in lower case.
#[verifier::external_body]
pub(crate) fn uuid_text(id: Uuid) -> (s: String)
    ensures
        s@ == hyphenated(id),
{
    uuid::Uuid::from_u128(id).to_string()
}

/// An instant, carried through unread.
#[verifier::external_type_specification]
#[verifier::external_body]
pub struct ExOffsetDateTime(time::OffsetDateTime);

/// The offset from UTC in which an instant is written, in seconds: what
/// `time::OffsetDateTime::offset` answers.
pub uninterp spec fn utc_offset(t: time::OffsetDateTime) -> int;

/// `time::OffsetDateTime::now_utc` reads the system clock. Claimed is that the
/// instant is written in UTC; which instant it is depends on the clock, and
/// nothing is claimed of that.
pub assume_specification[ time::OffsetDateTime::now_utc ]() -> (t: time::OffsetDateTime)
    ensures
        utc_offset(t) == 0,
;

/// A byte string that is cheap to clone.
#[verifier::external_type_specification]
#[verifier::external_body]
pub struct ExBytes(bytes::Bytes);

/// The bytes that a `bytes::Bytes` holds.
pub uninterp spec fn bytes_view(b: bytes::Bytes) -> Seq<u8>;

/// `bytes::Bytes::len`: the number of bytes held.
pub assume_specification[ bytes::Bytes::len ](b: &bytes::Bytes) -> (n: usize)
    ensures
        n == bytes_view(*b).len(),
;

/// `Clone` of `bytes::Bytes`: another handle on the same bytes.
pub assume_specification[ <bytes::Bytes as Clone>::clone ](b: &bytes::Bytes) -> (r: bytes::Bytes)
    ensures
        bytes_view(r) == bytes_view(*b),
;

/// A JSON value, carried through unread.
#[verifier::external_type_specification]
#[verifier::external_body]
pub struct ExJsonValue(serde_json::Value);

/// The keys of a JSON object; `None` of a value that is no object.
pub uninterp spec fn json_keys(v: serde_json::Value) -> Option<Set<Seq<char>>>;

/// `serde_json::Map::new`, as a value: the object without keys.
#[verifier::external_body]
pub(crate) fn empty_object() -> (v: serde_json::Value)
    ensures
        json_keys(v) == Some(Set::<Seq<char>>::empty()),
{
    serde_json::Value::Object(serde_json::Map::new())
}

/// `Clone` of `serde_json::Value`: the same value again.
pub assume_specification[ <serde_json::Value as Clone>::clone ](v: &serde_json::Value) -> (r:
    serde_json::Value)
    ensures
        r == *v,
;

/// Whether the two hold the same characters.
pub(crate) fn str_eq(a: &str, b: &str) -> (r: bool)
    ensures
        r == (a@ == b@),
{
    a.to_owned() == b.to_owned()
}

} // verus!
