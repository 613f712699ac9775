//! Digests, approval signatures and their hexadecimal encoding.
use hmac::{Hmac, Mac};
use sha2::{Digest, Sha256};
use vstd::prelude::*;
use vstd::string::StringSliceAdditionalSpecFns;
use vstd::utf8::{encode_utf8, is_ascii_chars, is_ascii_chars_encode_utf8, is_continuation_byte};

use super::service::{DeliveryError, DeliveryFailure};
use crate::text::push_char;

verus! {

broadcast use vstd::string::group_string_axioms;

/// The SHA-256 digest of a byte string, as `sha2` computes it.
pub uninterp spec fn sha256_spec(data: Seq<u8>) -> Seq<u8>;

/// The HMAC-SHA-256 tag of `msg` under `key`, as `hmac` computes it.
pub uninterp spec fn hmac_sha256_spec(key: Seq<u8>, msg: Seq<u8>) -> Seq<u8>;

/// `sha2::Sha256::digest`: the digest, 32 bytes long (`Sha256`'s output size).
#[verifier::external_body]
pub(crate) fn sha256_bytes(value: &[u8]) -> (r: Vec<u8>)
    ensures
        r@ == sha256_spec(value@),
        r@.len() == 32,
{
    Sha256::digest(value).to_vec()
}

/// `Hmac::<Sha256>::new_from_slice`, `update` and `finalize`: the tag of
/// `msg` under `key`, 32 bytes long. HMAC accepts keys of any length, so the
/// construction never fails.
#[verifier::external_body]
pub(crate) fn hmac_sha256(key: &[u8], msg: &[u8]) -> (r: Vec<u8>)
    ensures
        r@ == hmac_sha256_spec(key@, msg@),
        r@.len() == 32,
{
    let mut mac = Hmac::<Sha256>::new_from_slice(key).expect("HMAC accepts any key length");
    mac.update(msg);
    mac.finalize().into_bytes().to_vec()
}

/// `Mac::verify_slice` on an HMAC-SHA-256 of `msg` under `key`: true exactly
/// when `tag` equals the tag (a constant-time comparison).
#[verifier::external_body]
pub(crate) fn hmac_sha256_verify(key: &[u8], msg: &[u8], tag: &[u8]) -> (r: bool)
    ensures
        r == (tag@ == hmac_sha256_spec(key@, msg@)),
{
    let mut mac = Hmac::<Sha256>::new_from_slice(key).expect("HMAC accepts any key length");
    mac.update(msg);
    mac.verify_slice(tag).is_ok()
}

pub open spec fn hex_digit(n: int) -> char {
    if n < 10 {
        (('0' as int) + n) as char
    } else {
        (('a' as int) + n - 10) as char
    }
}

/// Lowercase hexadecimal, two digits per byte.
pub open spec fn hex_seq(bytes: Seq<u8>) -> Seq<char>
    decreases bytes.len(),
{
    if bytes.len() == 0 {
        Seq::empty()
    } else {
        hex_seq(bytes.drop_last()) + seq![
            hex_digit(bytes.last() as int / 16),
            hex_digit(bytes.last() as int % 16),
        ]
    }
}

fn hex_char(n: u8) -> (c: char)
    requires
        n < 16,
    ensures
        c == hex_digit(n as int),
{
    if n < 10 {
        ((48 + n) as char)
    } else {
        ((87 + n) as char)
    }
}

/// Lowercase hexadecimal encoding of bytes.
pub fn hex(bytes: &[u8]) -> (r: String)
    ensures
        r@ == hex_seq(bytes@),
{
    let mut r = String::new();
    let mut i: usize = 0;
    while i < bytes.len()
        invariant
            i <= bytes@.len(),
            r@ == hex_seq(bytes@.take(i as int)),
        decreases bytes.len() - i,
    {
        let b = bytes[i];
        assert(bytes@.take(i + 1).drop_last() =~= bytes@.take(i as int));
        push_char(&mut r, hex_char(b / 16));
        push_char(&mut r, hex_char(b % 16));
        i = i + 1;
        assert(r@ =~= hex_seq(bytes@.take(i as int)));
    }
    assert(bytes@.take(bytes@.len() as int) =~= bytes@);
    r
}

/// Lowercase hexadecimal of the SHA-256 digest.
pub fn sha256_hex(value: &[u8]) -> (r: String)
    ensures
        r@ == hex_seq(sha256_spec(value@)),
{
    let digest = sha256_bytes(value);
    hex(digest.as_slice())
}

/// The value of an ASCII hexadecimal digit of either case.
pub open spec fn hex_value(b: u8) -> Option<int> {
    if 48 <= b <= 57 {
        Some(b - 48)
    } else if 97 <= b <= 102 {
        Some(b - 87)
    } else if 65 <= b <= 70 {
        Some(b - 55)
    } else {
        None
    }
}

/// `u8::from_str_radix(_, 16)` on a two-byte text: two hex digits, or a '+'
/// sign followed by one digit.
pub open spec fn pair_value(b0: u8, b1: u8) -> Option<int> {
    if b0 == 43 {
        hex_value(b1)
    } else if hex_value(b0) is Some && hex_value(b1) is Some {
        Some(hex_value(b0)->0 * 16 + hex_value(b1)->0)
    } else {
        None
    }
}

/// Slicing two bytes at `k` would cut a character in two.
pub open spec fn pair_cuts_char(v: Seq<u8>, k: int) -> bool {
    k + 2 < v.len() && is_continuation_byte(v[k + 2])
}

/// The pair at `k` stops decoding: it cuts a character or is not a hex number.
pub open spec fn pair_stops(v: Seq<u8>, k: int) -> bool {
    pair_cuts_char(v, k) || pair_value(v[k], v[k + 1]) is None
}

pub open spec fn pairs_fine_before(v: Seq<u8>, n: int) -> bool {
    forall|k: int| 0 <= k < n && k % 2 == 0 ==> !#[trigger] pair_stops(v, k)
}

/// Decoding the UTF-8 bytes `v` of a signature text would slice inside a
/// character before it meets an invalid pair (the unchecked slicing panics there).
pub open spec fn hex_decode_panics(v: Seq<u8>) -> bool {
    v.len() % 2 == 0 && exists|k: int|
        0 <= k < v.len() && k % 2 == 0 && pairs_fine_before(v, k) && #[trigger] pair_cuts_char(v, k)
}

/// The text decodes: its byte length is even and every pair is a hex number
/// sliced on character boundaries.
pub open spec fn hex_decodes(v: Seq<u8>) -> bool {
    v.len() % 2 == 0 && pairs_fine_before(v, v.len() as int)
}

/// The bytes that a decodable hex text stands for.
pub open spec fn hex_decoded(v: Seq<u8>) -> Seq<u8> {
    Seq::new((v.len() / 2) as nat, |j: int| pair_value(v[2 * j], v[2 * j + 1])->0 as u8)
}

/// Whether decoding `value` as hexadecimal would slice inside a character.
pub fn decode_hex_would_panic(value: &str) -> (r: bool)
    ensures
        r == hex_decode_panics(value.spec_bytes()),
{
    let v = value.as_bytes();
    if v.len() % 2 != 0 {
        return false;
    }
    let mut i: usize = 0;
    while i < v.len()
        invariant
            v@ == value.spec_bytes(),
            v@.len() % 2 == 0,
            i % 2 == 0,
            i <= v@.len(),
            pairs_fine_before(v@, i as int),
        decreases v.len() - i,
    {
        let cuts = i + 2 < v.len() && is_continuation(v[i + 2]);
        if cuts {
            assert(pair_cuts_char(v@, i as int));
            return true;
        }
        if pair_byte_value(v[i], v[i + 1]).is_none() {
            assert forall|k: int| 0 <= k < v@.len() && k % 2 == 0 && pairs_fine_before(v@, k)
                implies !pair_cuts_char(v@, k) by {
                if k > i {
                    assert(pair_stops(v@, i as int));
                } else if k < i {
                    assert(!pair_stops(v@, k));
                }
            }
            return false;
        }
        i = i + 2;
    }
    assert forall|k: int| 0 <= k < v@.len() && k % 2 == 0 && pairs_fine_before(v@, k) implies !pair_cuts_char(
        v@,
        k,
    ) by {
        assert(!pair_stops(v@, k));
    }
    false
}

fn is_continuation(b: u8) -> (r: bool)
    ensures
        r == is_continuation_byte(b),
{
    0x80 <= b && b < 0xc0
}

fn hex_byte_value(b: u8) -> (r: Option<u8>)
    ensures
        r matches Some(x) ==> hex_value(b) == Some(x as int),
        r is None ==> hex_value(b) is None,
{
    if 48 <= b && b <= 57 {
        Some(b - 48)
    } else if 97 <= b && b <= 102 {
        Some(b - 87)
    } else if 65 <= b && b <= 70 {
        Some(b - 55)
    } else {
        None
    }
}

fn pair_byte_value(b0: u8, b1: u8) -> (r: Option<u8>)
    ensures
        r matches Some(x) ==> pair_value(b0, b1) == Some(x as int),
        r is None ==> pair_value(b0, b1) is None,
{
    if b0 == 43 {
        hex_byte_value(b1)
    } else {
        match (hex_byte_value(b0), hex_byte_value(b1)) {
            (Some(h), Some(l)) => Some(h * 16 + l),
            _ => None,
        }
    }
}

/// Decodes a hexadecimal signature text into bytes. Inputs on which the
/// unchecked byte slicing would cut a character are excluded.
pub fn decode_hex(value: &str) -> (r: Result<Vec<u8>, DeliveryError>)
    requires
        !hex_decode_panics(value.spec_bytes()),
    ensures
        r is Ok <==> hex_decodes(value.spec_bytes()),
        r matches Ok(bytes) ==> bytes@ == hex_decoded(value.spec_bytes()),
        r matches Ok(bytes) ==> bytes@.len() * 2 == value.spec_bytes().len() && forall|j: int|
            0 <= j < bytes@.len() ==> pair_value(
                value.spec_bytes()[2 * j],
                value.spec_bytes()[2 * j + 1],
            ) == Some(#[trigger] bytes@[j] as int),
        r matches Err(e) ==> e@ == DeliveryFailure::Approval("invalid approval signature"@),
{
    let v = value.as_bytes();
    if v.len() % 2 != 0 {
        return Err(DeliveryError::approval("invalid approval signature"));
    }
    let mut out: Vec<u8> = Vec::new();
    let mut i: usize = 0;
    while i < v.len()
        invariant
            v@ == value.spec_bytes(),
            !hex_decode_panics(v@),
            v@.len() % 2 == 0,
            i % 2 == 0,
            i <= v@.len(),
            out@.len() * 2 == i,
            pairs_fine_before(v@, i as int),
            forall|j: int|
                0 <= j < out@.len() ==> pair_value(v@[2 * j], v@[2 * j + 1]) == Some(
                    #[trigger] out@[j] as int,
                ),
        decreases v.len() - i,
    {
        if i + 2 < v.len() {
            if is_continuation(v[i + 2]) {
                assert(pair_cuts_char(v@, i as int));
                assert(false);
            }
        }
        match pair_byte_value(v[i], v[i + 1]) {
            Some(b) => {
                out.push(b);
            },
            None => {
                assert(pair_stops(v@, i as int));
                return Err(DeliveryError::approval("invalid approval signature"));
            },
        }
        i = i + 2;
    }
    assert(out@ =~= hex_decoded(v@));
    Ok(out)
}

proof fn lemma_hex_shape(t: Seq<u8>)
    ensures
        hex_seq(t).len() == 2 * t.len(),
        forall|j: int|
            0 <= j < t.len() ==> #[trigger] hex_seq(t)[2 * j] == hex_digit(t[j] as int / 16) && hex_seq(t)[2
                * j + 1] == hex_digit(t[j] as int % 16),
    decreases t.len(),
{
    if t.len() > 0 {
        let u = t.drop_last();
        lemma_hex_shape(u);
        assert forall|j: int| 0 <= j < t.len() implies #[trigger] hex_seq(t)[2 * j] == hex_digit(
            t[j] as int / 16,
        ) && hex_seq(t)[2 * j + 1] == hex_digit(t[j] as int % 16) by {
            if j < u.len() {
                assert(hex_seq(u)[2 * j] == hex_digit(u[j] as int / 16));
                assert(t[j] == u[j]);
            }
        }
    }
}

proof fn lemma_hex_digit(n: int)
    requires
        0 <= n < 16,
    ensures
        '\0' <= hex_digit(n) <= '\u{7f}',
        hex_digit(n) as u8 != 43,
        !is_continuation_byte(hex_digit(n) as u8),
        hex_value(hex_digit(n) as u8) == Some(n),
{
}

/// The hexadecimal text of any bytes reads back as those bytes: its pairs
/// are all hex numbers on character boundaries, so decoding neither fails
/// nor panics.
pub proof fn law_hex_roundtrip(t: Seq<u8>)
    ensures
        hex_decodes(encode_utf8(hex_seq(t))),
        !hex_decode_panics(encode_utf8(hex_seq(t))),
        hex_decoded(encode_utf8(hex_seq(t))) == t,
{
    let h = hex_seq(t);
    lemma_hex_shape(t);
    assert forall|i: int| 0 <= i < h.len() implies '\0' <= #[trigger] h[i] <= '\u{7f}' by {
        let j = i / 2;
        assert(hex_seq(t)[2 * j] == hex_digit(t[j] as int / 16));
        lemma_hex_digit(t[j] as int / 16);
        lemma_hex_digit(t[j] as int % 16);
        if i % 2 == 0 {
            assert(i == 2 * j);
        } else {
            assert(i == 2 * j + 1);
        }
    }
    assert(is_ascii_chars(h));
    is_ascii_chars_encode_utf8(h);
    let v = encode_utf8(h);
    assert(v.len() == 2 * t.len());
    assert forall|k: int| 0 <= k < v.len() && k % 2 == 0 implies !#[trigger] pair_stops(v, k) by {
        let j = k / 2;
        assert(k == 2 * j);
        lemma_hex_digit(t[j] as int / 16);
        lemma_hex_digit(t[j] as int % 16);
        assert(v[k] == h[2 * j] as u8);
        assert(v[k + 1] == h[2 * j + 1] as u8);
        if k + 2 < v.len() {
            let j2 = j + 1;
            lemma_hex_digit(t[j2] as int / 16);
            assert(v[k + 2] == h[2 * j2] as u8);
        }
    }
    assert(!hex_decode_panics(v)) by {
        if hex_decode_panics(v) {
            let k = choose|k: int|
                0 <= k < v.len() && k % 2 == 0 && pairs_fine_before(v, k) && #[trigger] pair_cuts_char(v, k);
            assert(!pair_stops(v, k));
        }
    }
    assert forall|j: int| 0 <= j < t.len() implies #[trigger] hex_decoded(v)[j] == t[j] by {
        lemma_hex_digit(t[j] as int / 16);
        lemma_hex_digit(t[j] as int % 16);
        assert(v[2 * j] == h[2 * j] as u8);
        assert(v[2 * j + 1] == h[2 * j + 1] as u8);
        assert((t[j] as int / 16) * 16 + t[j] as int % 16 == t[j] as int);
    }
    assert(hex_decoded(v) =~= t);
}

} // verus!
