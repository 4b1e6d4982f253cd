//! Digests, their hexadecimal form and name-based identifiers.
use vstd::prelude::*;

verus! {

/// The SHA-256 digest of a byte string.
pub uninterp spec fn sha256_digest(bytes: Seq<u8>) -> Seq<u8>;

/// The hyphenated text of the version 5 UUID that a name has in the OID
/// namespace.
pub uninterp spec fn oid_uuid_text(name: Seq<u8>) -> Seq<char>;

/// `sha2::Sha256::digest`: the digest of the bytes, which is 32 bytes long.
#[verifier::external_body]
pub(crate) fn sha256(bytes: &[u8]) -> (r: Vec<u8>)
    ensures
        r@ == sha256_digest(bytes@),
        r@.len() == 32,
{
    <sha2::Sha256 as sha2::Digest>::digest(bytes).to_vec()
}

/// `uuid::Uuid::new_v5` in the OID namespace, in its hyphenated text form: a
/// function of the name alone.
#[verifier::external_body]
pub(crate) fn oid_uuid(name: &[u8]) -> (r: String)
    ensures
        r@ == oid_uuid_text(name@),
{
    uuid::Uuid::new_v5(&uuid::Uuid::NAMESPACE_OID, name).to_string()
}

/// The lower-case hexadecimal digit of a value below sixteen.
pub open spec fn hex_digit(n: int) -> char {
    if n < 10 {
        (('0' as int + n) as u32) as char
    } else {
        (('a' as int + (n - 10)) as u32) as char
    }
}

/// Two lower-case hexadecimal digits for each byte.
pub open spec fn hex_text(bytes: Seq<u8>) -> Seq<char> {
    Seq::new(
        2 * bytes.len(),
        |i: int|
            if i % 2 == 0 {
                hex_digit(bytes[i / 2] as int / 16)
            } else {
                hex_digit(bytes[i / 2] as int % 16)
            },
    )
}

/// `hex::encode`: two lower-case hexadecimal digits for each byte, the high
/// half first.
#[verifier::external_body]
pub(crate) fn hex_encode(bytes: &[u8]) -> (r: String)
    ensures
        r@ == hex_text(bytes@),
{
    hex::encode(bytes)
}

/// The value of a hexadecimal digit.
pub open spec fn hex_value(c: char) -> Option<u8> {
    if '0' <= c <= '9' {
        Some((c as int - '0' as int) as u8)
    } else if 'a' <= c <= 'f' {
        Some((c as int - 'a' as int + 10) as u8)
    } else if 'A' <= c <= 'F' {
        Some((c as int - 'A' as int + 10) as u8)
    } else {
        None
    }
}

/// Whether a text is made of pairs of hexadecimal digits.
pub open spec fn is_hex(text: Seq<char>) -> bool {
    text.len() % 2 == 0 && forall|i: int|
        0 <= i < text.len() ==> hex_value(#[trigger] text[i]) is Some
}

/// The bytes that pairs of hexadecimal digits denote.
pub open spec fn hex_bytes(text: Seq<char>) -> Seq<u8> {
    Seq::new(
        text.len() / 2,
        |i: int| (hex_value(text[2 * i])->0 * 16 + hex_value(text[2 * i + 1])->0) as u8,
    )
}

/// `hex::decode`: one byte for each pair of hexadecimal digits of either case, or
/// nothing where the text is not made of such pairs.
#[verifier::external_body]
pub(crate) fn hex_decode(text: &str) -> (r: Option<Vec<u8>>)
    ensures
        match r {
            Some(bytes) => is_hex(text@) && bytes@ == hex_bytes(text@),
            None => !is_hex(text@),
        },
{
    hex::decode(text).ok()
}

/// The hexadecimal text of the SHA-256 digest of some bytes.
pub open spec fn sha256_hex_text(bytes: Seq<u8>) -> Seq<char> {
    hex_text(sha256_digest(bytes))
}

/// Whether a text is made of 64 lower-case hexadecimal digits.
pub open spec fn digest_shaped(text: Seq<char>) -> bool {
    text.len() == 64 && forall|i: int|
        0 <= i < 64 ==> '0' <= (#[trigger] text[i]) <= '9' || 'a' <= text[i] <= 'f'
}

/// The hexadecimal text of the SHA-256 digest of some bytes.
pub fn sha256_hex(bytes: &[u8]) -> (r: String)
    ensures
        r@ == sha256_hex_text(bytes@),
        digest_shaped(r@),
{
    let d = sha256(bytes);
    hex_encode(d.as_slice())
}

/// The hexadecimal text of the SHA-256 digest of a text.
pub open spec fn text_digest(text: Seq<char>) -> Seq<char> {
    sha256_hex_text(vstd::utf8::encode_utf8(text))
}

/// The hexadecimal text of the SHA-256 digest of a text.
pub fn text_sha256(text: &str) -> (r: String)
    ensures
        r@ == text_digest(text@),
        digest_shaped(r@),
{
    sha256_hex(text.as_bytes())
}

/// The identifier that a text names.
pub open spec fn named_id(name: Seq<char>) -> Seq<char> {
    oid_uuid_text(vstd::utf8::encode_utf8(name))
}

/// The identifier that a text names.
pub fn id_of(name: &str) -> (r: String)
    ensures
        r@ == named_id(name@),
{
    oid_uuid(name.as_bytes())
}

/// The unsigned integer of the first eight bytes, most significant first.
pub open spec fn leading_u64(b: Seq<u8>) -> int {
    b[0] * 0x100000000000000 + b[1] * 0x1000000000000 + b[2] * 0x10000000000 + b[3] * 0x100000000
        + b[4] * 0x1000000 + b[5] * 0x10000 + b[6] * 0x100 + b[7]
}

/// The unsigned integer of the first two bytes, most significant first.
pub open spec fn leading_u16(b: Seq<u8>) -> int {
    b[0] * 0x100 + b[1]
}

/// The first eight bytes of the digest of a text as an integer.
pub fn digest_seed(text: &str) -> (r: u64)
    ensures
        r == leading_u64(sha256_digest(vstd::utf8::encode_utf8(text@))),
{
    let d = sha256(text.as_bytes());
    (d[0] as u64) * 0x100000000000000 + (d[1] as u64) * 0x1000000000000 + (d[2] as u64)
        * 0x10000000000 + (d[3] as u64) * 0x100000000 + (d[4] as u64) * 0x1000000 + (d[5] as u64)
        * 0x10000 + (d[6] as u64) * 0x100 + (d[7] as u64)
}

/// The first two bytes of the digest of a text as an integer.
pub fn digest_draw(text: &str) -> (r: u16)
    ensures
        r == leading_u16(sha256_digest(vstd::utf8::encode_utf8(text@))),
{
    let d = sha256(text.as_bytes());
    (d[0] as u16) * 0x100 + (d[1] as u16)
}

/// Whether the text is made of exactly `n` lower-case hexadecimal digits.
pub open spec fn lower_hex(s: Seq<char>, n: nat) -> bool {
    s.len() == n && forall|i: int|
        0 <= i < s.len() ==> ('0' <= #[trigger] s[i] <= '9' || 'a' <= s[i] <= 'f')
}

/// Whether the text is made of exactly `n` lower-case hexadecimal digits.
pub fn is_lower_hex(s: &str, n: usize) -> (r: bool)
    ensures
        r == lower_hex(s@, n as nat),
{
    let k: usize = s.unicode_len();
    if k != n {
        return false;
    }
    let mut i: usize = 0;
    while i < k
        invariant
            i <= k == s@.len(),
            forall|j: int| 0 <= j < i ==> ('0' <= #[trigger] s@[j] <= '9' || 'a' <= s@[j] <= 'f'),
        decreases k - i,
    {
        let c = s.get_char(i);
        if !(('0' <= c && c <= '9') || ('a' <= c && c <= 'f')) {
            return false;
        }
        i = i + 1;
    }
    true
}

} // verus!
