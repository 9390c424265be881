//! Byte-level encodings: decimal digits, little-endian words, URL-safe
//! base64 and the SeaHash digest that page references are built from.

use vstd::prelude::*;
use vstd::utf8::encode_utf8;

verus! {

/// The ASCII decimal digits of `n`, most significant first, without
/// leading zeros.
pub open spec fn decimal_digits(n: nat) -> Seq<u8>
    decreases n,
{
    if n < 10 {
        seq![(48 + n) as u8]
    } else {
        decimal_digits(n / 10).push((48 + n % 10) as u8)
    }
}

/// The ASCII decimal digits of `n`.
pub fn decimal_bytes(n: u64) -> (v: Vec<u8>)
    ensures
        v@ == decimal_digits(n as nat),
        v@.len() <= 20,
    decreases n,
{
    proof {
        lemma_u64_below_pow10_20(n);
        lemma_digits_within(n as nat, 20);
    }
    if n < 10 {
        let mut v: Vec<u8> = Vec::new();
        v.push((48 + n) as u8);
        v
    } else {
        let mut v = decimal_bytes(n / 10);
        v.push((48 + n % 10) as u8);
        v
    }
}

/// Ten to the power `k`.
pub open spec fn pow10(k: nat) -> nat
    decreases k,
{
    if k == 0 {
        1
    } else {
        10 * pow10((k - 1) as nat)
    }
}

/// A number below `10^k` has at most `k` digits (and always at least one).
proof fn lemma_digits_within(n: nat, k: nat)
    requires
        n < pow10(k),
    ensures
        decimal_digits(n).len() <= if k == 0 { 1 } else { k },
    decreases k,
{
    if n >= 10 {
        assert(k != 0);
        let p = pow10((k - 1) as nat);
        assert(n / 10 < p);
        lemma_digits_within(n / 10, (k - 1) as nat);
        if k == 1 {
            assert(p == 1);
        }
    }
}

/// Every 64-bit number is below `10^20`.
proof fn lemma_u64_below_pow10_20(n: u64)
    ensures
        n < pow10(20),
{
    reveal_with_fuel(pow10, 21);
    assert(pow10(20) == 100000000000000000000nat);
}

/// The `count` low bytes of `x`, least significant first.
pub open spec fn le_bytes(x: nat, count: nat) -> Seq<u8>
    decreases count,
{
    if count == 0 {
        Seq::empty()
    } else {
        seq![(x % 256) as u8] + le_bytes(x / 256, (count - 1) as nat)
    }
}

proof fn lemma_le_bytes_len(x: nat, count: nat)
    ensures
        le_bytes(x, count).len() == count,
    decreases count,
{
    if count > 0 {
        lemma_le_bytes_len(x / 256, (count - 1) as nat);
    }
}

/// The little-endian bytes of a 64-bit word.
pub fn u64_le_bytes(x: u64) -> (v: Vec<u8>)
    ensures
        v@ == le_bytes(x as nat, 8),
        v@.len() == 8,
{
    proof {
        lemma_le_bytes_len(x as nat, 8);
    }
    let mut v: Vec<u8> = Vec::new();
    let mut rest: u64 = x;
    let mut i: usize = 0;
    while i < 8
        invariant
            i <= 8,
            v@ + le_bytes(rest as nat, (8 - i) as nat) == le_bytes(x as nat, 8),
        decreases 8 - i,
    {
        let ghost before = v@;
        assert(le_bytes(rest as nat, (8 - i) as nat) == seq![(rest % 256) as u8] + le_bytes(
            (rest / 256) as nat,
            (8 - i - 1) as nat,
        ));
        v.push((rest % 256) as u8);
        assert(v@ == before + seq![(rest % 256) as u8]);
        assert(v@ + le_bytes((rest / 256) as nat, (8 - i - 1) as nat) =~= before + (seq![
            (rest % 256) as u8,
        ] + le_bytes((rest / 256) as nat, (8 - i - 1) as nat)));
        rest = rest / 256;
        i = i + 1;
    }
    assert(le_bytes(rest as nat, 0) =~= Seq::<u8>::empty());
    assert(v@ =~= v@ + le_bytes(rest as nat, 0));
    v
}

/// What the base64 crate's `URL_SAFE_NO_PAD` engine encodes `bytes` to.
pub uninterp spec fn base64_url_nopad(bytes: Seq<u8>) -> Seq<char>;

/// A character of the URL-safe base64 alphabet: ASCII letters, digits, `-`
/// and `_`.
pub open spec fn url_safe_char(c: char) -> bool {
    ('A' <= c && c <= 'Z') || ('a' <= c && c <= 'z') || ('0' <= c && c <= '9') || c == '-' || c == '_'
}

/// Encodes `bytes` with `base64::Engine::encode` on the
/// `base64::prelude::BASE64_URL_SAFE_NO_PAD` engine. The contract names the
/// result and states what the crate's `encoded_len` and `URL_SAFE` alphabet
/// give: four characters for every three bytes, two or three for a last one
/// or two, all from the URL-safe alphabet; how bytes map to characters is
/// not stated. `encode` panics when that length overflows `usize`, which the
/// `requires` rules out.
#[verifier::external_body]
pub(crate) fn encode_base64_url(bytes: &[u8]) -> (r: String)
    requires
        (bytes@.len() / 3) * 4 + 4 <= usize::MAX,
    ensures
        r@ == base64_url_nopad(bytes@),
        r@.len() == (bytes@.len() * 4 + 2) / 3,
        forall|i: int| 0 <= i < r@.len() ==> url_safe_char(#[trigger] r@[i]),
{
    base64::Engine::encode(&base64::prelude::BASE64_URL_SAFE_NO_PAD, bytes)
}

/// Whether a byte is left as it is by percent-encoding: ASCII letters and
/// digits and `-`, `.`, `_`, `~`.
pub open spec fn unreserved(b: u8) -> bool {
    (48 <= b <= 57) || (65 <= b <= 90) || (97 <= b <= 122) || b == 45 || b == 46 || b == 95
        || b == 126
}

/// An upper-case hexadecimal digit.
pub open spec fn hex_digit(d: u8) -> char {
    if d < 10 {
        (48 + d) as char
    } else {
        (55 + d) as char
    }
}

/// The percent-encoding of `bytes`: unreserved bytes as they are, every
/// other byte as `%` and two upper-case hexadecimal digits.
pub open spec fn percent_encoded(bytes: Seq<u8>) -> Seq<char>
    decreases bytes.len(),
{
    if bytes.len() == 0 {
        Seq::empty()
    } else {
        let b = bytes.last();
        percent_encoded(bytes.drop_last()) + if unreserved(b) {
            seq![b as char]
        } else {
            seq!['%', hex_digit(b / 16), hex_digit(b % 16)]
        }
    }
}

/// Percent-encodes the UTF-8 bytes of `s` with `urlencoding::encode`, which
/// keeps ASCII letters, digits and `-`, `.`, `_`, `~` and writes every other
/// byte as `%XX` with upper-case hexadecimal digits.
#[verifier::external_body]
pub(crate) fn url_encode(s: &str) -> (r: String)
    ensures
        r@ == percent_encoded(encode_utf8(s@)),
{
    urlencoding::encode(s).into_owned()
}

/// The SeaHash digest (default seeds) of `bytes`.
pub uninterp spec fn sea_digest(bytes: Seq<u8>) -> u64;

/// Feeds `bytes` to a `seahash::SeaHasher::default()` with one
/// `Hasher::write` and returns `Hasher::finish`. The streaming hasher buffers
/// partial words, so several writes give the digest of their concatenation
/// (the crate's `chunked_equiv` test); the contract only names the digest.
#[verifier::external_body]
pub(crate) fn sea_hash_bytes(bytes: &[u8]) -> (r: u64)
    ensures
        r == sea_digest(bytes@),
{
    let mut hasher = seahash::SeaHasher::default();
    std::hash::Hasher::write(&mut hasher, bytes);
    std::hash::Hasher::finish(&hasher)
}

} // verus!
