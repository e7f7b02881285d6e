//! Fixed-size identifiers of the ledger (account keys and digests) and their
//! hexadecimal text form.

use vstd::prelude::*;
use vstd::std_specs::cmp::PartialEqSpecImpl;
use vstd::string::StringExecFns;

verus! {

/// Number of bytes in a public key.
pub const PUBLIC_KEY_LENGTH: usize = 32;

/// Number of bytes in a hash.
pub const HASH_SIZE: usize = 32;

/// Number of leading bytes shown by the short text form of a key.
pub const BYTES_IN_DEBUG: usize = 4;

/// Value of one hexadecimal digit, in either case; `None` for any other character.
pub open spec fn hex_digit_value(c: char) -> Option<u8> {
    let n = c as u32;
    if 0x30 <= n <= 0x39 {
        Some((n - 0x30) as u8)
    } else if 0x61 <= n <= 0x66 {
        Some((n - 0x61 + 10) as u8)
    } else if 0x41 <= n <= 0x46 {
        Some((n - 0x41 + 10) as u8)
    } else {
        None
    }
}

/// The lower-case hexadecimal digit for a value below 16.
pub open spec fn hex_digit_char(v: int) -> char {
    if v < 10 {
        (0x30 + v) as char
    } else {
        (0x61 + v - 10) as char
    }
}

/// A text is hexadecimal when it has an even number of characters, all of them digits.
pub open spec fn is_hex_text(s: Seq<char>) -> bool {
    s.len() % 2 == 0 && forall|i: int| 0 <= i < s.len() ==> (#[trigger] hex_digit_value(s[i])) is Some
}

/// The bytes that a hexadecimal text stands for: two digits per byte, high digit first.
pub open spec fn hex_decoded(s: Seq<char>) -> Seq<u8> {
    Seq::new(
        s.len() / 2,
        |i: int|
            (hex_digit_value(s[2 * i]).unwrap() * 16 + hex_digit_value(s[2 * i + 1]).unwrap()) as u8,
    )
}

/// The lower-case hexadecimal text of a byte string.
pub open spec fn hex_encoded(b: Seq<u8>) -> Seq<char> {
    Seq::new(
        2 * b.len(),
        |i: int|
            hex_digit_char(
                if i % 2 == 0 {
                    b[i / 2] as int / 16
                } else {
                    b[i / 2] as int % 16
                },
            ),
    )
}

/// Decoding the hexadecimal text of a byte string gives the byte string back.
pub proof fn lemma_hex_round_trip(b: Seq<u8>)
    ensures
        is_hex_text(hex_encoded(b)),
        hex_decoded(hex_encoded(b)) == b,
{
    let s = hex_encoded(b);
    assert forall|i: int| 0 <= i < s.len() implies (#[trigger] hex_digit_value(s[i])) is Some by {
        let v = if i % 2 == 0 {
            b[i / 2] as int / 16
        } else {
            b[i / 2] as int % 16
        };
        assert(0 <= v < 16);
        assert(s[i] == hex_digit_char(v));
    }
    assert forall|i: int| 0 <= i < b.len() implies hex_decoded(s)[i] == b[i] by {
        let hi = b[i] as int / 16;
        let lo = b[i] as int % 16;
        assert((2 * i) / 2 == i && (2 * i) % 2 == 0);
        assert((2 * i + 1) / 2 == i && (2 * i + 1) % 2 == 1);
        assert(s[2 * i] == hex_digit_char(hi));
        assert(s[2 * i + 1] == hex_digit_char(lo));
        assert(hex_digit_value(hex_digit_char(hi)) == Some(hi as u8));
        assert(hex_digit_value(hex_digit_char(lo)) == Some(lo as u8));
    }
    assert(hex_decoded(s) =~= b);
}

/// The error of `hex::decode`; the library reads nothing of it.
#[verifier::external_type_specification]
#[verifier::external_body]
pub struct ExFromHexError(hex::FromHexError);

/// Calls `hex::decode`.
///
/// The call succeeds exactly on texts with an even number of characters that
/// are all hexadecimal digits of either case, and then returns one byte for
/// each pair of digits, the first digit of a pair being the high half.
#[verifier::external_body]
pub(crate) fn hex_decode(text: &str) -> (r: Result<Vec<u8>, hex::FromHexError>)
    ensures
        r is Ok <==> is_hex_text(text@),
        r is Ok ==> r->Ok_0@ == hex_decoded(text@),
{
    hex::decode(text)
}

/// Calls `hex::encode`.
///
/// The result holds two lower-case hexadecimal digits for each byte, the
/// high half first.
#[verifier::external_body]
pub(crate) fn hex_encode(bytes: &[u8]) -> (r: String)
    ensures
        r@ == hex_encoded(bytes@),
{
    hex::encode(bytes)
}

/// Public key of an account; also the address of a contract.
#[derive(Clone, Copy, Debug, Eq)]
pub struct PublicKey {
    bytes: [u8; 32],
}

impl View for PublicKey {
    type V = Seq<u8>;

    closed spec fn view(&self) -> Seq<u8> {
        self.bytes@
    }
}

impl PartialEq for PublicKey {
    fn eq(&self, other: &PublicKey) -> (r: bool) {
        bytes_equal(&self.bytes, &other.bytes)
    }
}

impl PartialEqSpecImpl for PublicKey {
    open spec fn obeys_eq_spec() -> bool {
        true
    }

    open spec fn eq_spec(&self, other: &PublicKey) -> bool {
        self@ == other@
    }
}

impl PublicKey {
    /// Creates a key filled with zeros.
    pub fn zero() -> (key: PublicKey)
        ensures
            key@ == Seq::new(32, |i: int| 0u8),
    {
        let key = PublicKey { bytes: [0u8; 32] };
        assert(key@ =~= Seq::new(32, |i: int| 0u8));
        key
    }

    /// Creates a key from an array of bytes.
    pub fn new(bytes: [u8; 32]) -> (key: PublicKey)
        ensures
            key@ == bytes@,
    {
        PublicKey { bytes }
    }

    /// Creates a key from a slice; `None` unless the slice holds exactly 32 bytes.
    pub fn from_slice(bytes: &[u8]) -> (r: Option<PublicKey>)
        ensures
            r is Some <==> bytes@.len() == PUBLIC_KEY_LENGTH,
            r is Some ==> r->Some_0@ == bytes@,
    {
        match array_from_slice(bytes) {
            Some(bytes) => Some(PublicKey { bytes }),
            None => None,
        }
    }

    /// The bytes of the key.
    pub fn as_bytes(&self) -> (bytes: &[u8; 32])
        ensures
            bytes@ == self@,
    {
        &self.bytes
    }

    /// A key has 32 bytes, and its hexadecimal text decodes to it.
    pub proof fn lemma_address(&self)
        ensures
            self@.len() == PUBLIC_KEY_LENGTH,
            is_hex_text(hex_encoded(self@)),
            hex_decoded(hex_encoded(self@)) == self@,
    {
        lemma_hex_round_trip(self@);
    }

    /// Lower-case hexadecimal text of the whole key.
    pub fn to_hex(&self) -> (text: String)
        ensures
            text@ == hex_encoded(self@),
    {
        hex_encode(self.bytes.as_slice())
    }

    /// Short text form: the first four bytes in hexadecimal, then an ellipsis.
    pub fn to_short_hex(&self) -> (text: String)
        ensures
            text@ == short_hex(self@),
    {
        short_hex_of(&self.bytes)
    }
}

/// Digest that identifies a transaction.
#[derive(Clone, Copy, Debug, Eq)]
pub struct Hash {
    bytes: [u8; 32],
}

impl View for Hash {
    type V = Seq<u8>;

    closed spec fn view(&self) -> Seq<u8> {
        self.bytes@
    }
}

impl PartialEq for Hash {
    fn eq(&self, other: &Hash) -> (r: bool) {
        bytes_equal(&self.bytes, &other.bytes)
    }
}

impl PartialEqSpecImpl for Hash {
    open spec fn obeys_eq_spec() -> bool {
        true
    }

    open spec fn eq_spec(&self, other: &Hash) -> bool {
        self@ == other@
    }
}

impl Hash {
    /// Creates a hash filled with zeros.
    pub fn zero() -> (hash: Hash)
        ensures
            hash@ == Seq::new(32, |i: int| 0u8),
    {
        let hash = Hash { bytes: [0u8; 32] };
        assert(hash@ =~= Seq::new(32, |i: int| 0u8));
        hash
    }

    /// Creates a hash from an array of bytes.
    pub fn new(bytes: [u8; 32]) -> (hash: Hash)
        ensures
            hash@ == bytes@,
    {
        Hash { bytes }
    }

    /// Creates a hash from a slice; `None` unless the slice holds exactly 32 bytes.
    pub fn from_slice(bytes: &[u8]) -> (r: Option<Hash>)
        ensures
            r is Some <==> bytes@.len() == HASH_SIZE,
            r is Some ==> r->Some_0@ == bytes@,
    {
        match array_from_slice(bytes) {
            Some(bytes) => Some(Hash { bytes }),
            None => None,
        }
    }

    /// The bytes of the hash.
    pub fn as_bytes(&self) -> (bytes: &[u8; 32])
        ensures
            bytes@ == self@,
    {
        &self.bytes
    }

    /// Lower-case hexadecimal text of the whole hash.
    pub fn to_hex(&self) -> (text: String)
        ensures
            text@ == hex_encoded(self@),
    {
        hex_encode(self.bytes.as_slice())
    }

    /// Short text form: the first four bytes in hexadecimal, then an ellipsis.
    pub fn to_short_hex(&self) -> (text: String)
        ensures
            text@ == short_hex(self@),
    {
        short_hex_of(&self.bytes)
    }
}

/// The short text form of a byte string longer than four bytes.
pub open spec fn short_hex(bytes: Seq<u8>) -> Seq<char> {
    hex_encoded(bytes.subrange(0, BYTES_IN_DEBUG as int)) + "..."@
}

fn short_hex_of(bytes: &[u8; 32]) -> (text: String)
    ensures
        text@ == short_hex(bytes@),
{
    let mut head: Vec<u8> = Vec::new();
    let mut i: usize = 0;
    while i < BYTES_IN_DEBUG
        invariant
            i <= BYTES_IN_DEBUG,
            head@ == bytes@.subrange(0, i as int),
        decreases BYTES_IN_DEBUG - i,
    {
        head.push(bytes[i]);
        assert(head@ =~= bytes@.subrange(0, i + 1));
        i += 1;
    }
    let mut text = hex_encode(head.as_slice());
    text.append("...");
    text
}

fn bytes_equal(a: &[u8; 32], b: &[u8; 32]) -> (r: bool)
    ensures
        r == (a@ == b@),
{
    let mut i: usize = 0;
    while i < 32
        invariant
            i <= 32,
            forall|j: int| 0 <= j < i ==> a@[j] == b@[j],
        decreases 32 - i,
    {
        if a[i] != b[i] {
            return false;
        }
        i += 1;
    }
    assert(a@ =~= b@);
    true
}

fn array_from_slice(bytes: &[u8]) -> (r: Option<[u8; 32]>)
    ensures
        r is Some <==> bytes@.len() == 32,
        r is Some ==> r->Some_0@ == bytes@,
{
    if bytes.len() != 32 {
        return None;
    }
    let mut array = [0u8; 32];
    let mut i: usize = 0;
    while i < 32
        invariant
            i <= 32,
            bytes@.len() == 32,
            forall|j: int| 0 <= j < i ==> array@[j] == bytes@[j],
        decreases 32 - i,
    {
        array[i] = bytes[i];
        i += 1;
    }
    assert(array@ =~= bytes@);
    Some(array)
}

} // verus!
