//! Sixteen-byte identities and their canonical text form.

use vstd::prelude::*;

verus! {

/// An opaque sixteen-byte identity, as the store keeps it in a `BINARY(16)`
/// column.
#[derive(Debug, Clone, Copy, PartialEq, Eq, Hash)]
pub struct Uuid {
    bytes: [u8; 16],
}

impl View for Uuid {
    type V = Seq<u8>;

    closed spec fn view(&self) -> Seq<u8> {
        self.bytes@
    }
}

impl DeepView for Uuid {
    type V = Seq<u8>;

    open spec fn deep_view(&self) -> Seq<u8> {
        self@
    }
}

/// The lower-case hexadecimal digit that stands for `n`, for `n < 16`.
pub open spec fn hex_digit(n: int) -> char {
    if n < 10 {
        (('0' as u8) + n) as char
    } else {
        (('a' as u8) + n - 10) as char
    }
}

/// The two lower-case hexadecimal digits of every byte of `bytes`, in order.
pub open spec fn hex(bytes: Seq<u8>) -> Seq<char>
    decreases bytes.len(),
{
    if bytes.len() == 0 {
        Seq::empty()
    } else {
        hex(bytes.drop_last()).push(hex_digit(bytes.last() as int / 16)).push(
            hex_digit(bytes.last() as int % 16),
        )
    }
}

/// The canonical text of an identity: its bytes in lower-case hexadecimal,
/// in groups of 8, 4, 4, 4 and 12 digits separated by hyphens.
pub open spec fn hyphenated(bytes: Seq<u8>) -> Seq<char> {
    hex(bytes.subrange(0, 4)).push('-') + hex(bytes.subrange(4, 6)).push('-') + hex(
        bytes.subrange(6, 8),
    ).push('-') + hex(bytes.subrange(8, 10)).push('-') + hex(bytes.subrange(10, 16))
}

impl Uuid {
    /// The identity made of `bytes`.
    pub fn from_bytes(bytes: [u8; 16]) -> (id: Uuid)
        ensures
            id@ == bytes@,
    {
        Uuid { bytes }
    }

    /// The identity made of the bytes of `b`, where there are sixteen of them.
    pub fn from_slice(b: &[u8]) -> (r: Option<Uuid>)
        ensures
            r is Some <==> b@.len() == 16,
            r matches Some(id) ==> id@ == b@,
    {
        if b.len() != 16 {
            return None;
        }
        let mut bytes: [u8; 16] = [0u8; 16];
        let mut i: usize = 0;
        while i < 16
            invariant
                i <= 16,
                b@.len() == 16,
                forall|j: int| 0 <= j < i ==> bytes@[j] == b@[j],
            decreases 16 - i,
        {
            bytes[i] = b[i];
            i += 1;
        }
        assert(bytes@ =~= b@);
        Some(Uuid { bytes })
    }

    /// The sixteen bytes of the identity.
    pub fn as_bytes(&self) -> (b: &[u8; 16])
        ensures
            b@ == self@,
    {
        &self.bytes
    }

    /// The canonical hyphenated text of the identity.
    pub fn to_string(&self) -> (s: String)
        ensures
            s@ == hyphenated(self@),
    {
        format_hyphenated(&self.bytes)
    }

    /// The identity that `text` spells, where it spells one.
    pub fn parse_str(text: &str) -> (r: Option<Uuid>)
        ensures
            r.deep_view() == uuid_parsed(text@),
    {
        match parse_uuid(text) {
            Some(bytes) => Some(Uuid { bytes }),
            None => None,
        }
    }

    /// Every identity has sixteen bytes.
    pub proof fn lemma_len(self)
        ensures
            self@.len() == 16,
    {
    }
}

/// Calls `uuid::Uuid::from_bytes` and the `Display` of the value it gives.
/// The contract claims that the text is the hyphenated lower-case
/// hexadecimal form of the sixteen bytes.
#[verifier::external_body]
fn format_hyphenated(bytes: &[u8; 16]) -> (s: String)
    ensures
        s@ == hyphenated(bytes@),
{
    uuid::Uuid::from_bytes(*bytes).to_string()
}

/// The sixteen bytes that a text spells as an identity, as the `uuid` crate
/// reads it: thirty-two hexadecimal digits, plain, hyphenated, in braces or
/// as a URN; none where the text spells none.
pub uninterp spec fn uuid_parsed(text: Seq<char>) -> Option<Seq<u8>>;

/// Calls `uuid::Uuid::parse_str` and `into_bytes` on what it gives. The
/// contract names the result.
#[verifier::external_body]
fn parse_uuid(text: &str) -> (r: Option<[u8; 16]>)
    ensures
        match r {
            Some(bytes) => uuid_parsed(text@) == Some(bytes@),
            None => uuid_parsed(text@) is None,
        },
{
    match uuid::Uuid::parse_str(text) {
        Ok(id) => Some(id.into_bytes()),
        Err(_) => None,
    }
}

/// Every byte gives two digits.
pub proof fn lemma_hex_len(bytes: Seq<u8>)
    ensures
        hex(bytes).len() == 2 * bytes.len(),
    decreases bytes.len(),
{
    if bytes.len() > 0 {
        lemma_hex_len(bytes.drop_last());
    }
}

/// The canonical text of sixteen bytes has thirty-six characters.
pub proof fn lemma_hyphenated_len(bytes: Seq<u8>)
    requires
        bytes.len() == 16,
    ensures
        hyphenated(bytes).len() == 36,
{
    lemma_hex_len(bytes.subrange(0, 4));
    lemma_hex_len(bytes.subrange(4, 6));
    lemma_hex_len(bytes.subrange(6, 8));
    lemma_hex_len(bytes.subrange(8, 10));
    lemma_hex_len(bytes.subrange(10, 16));
}

} // verus!
