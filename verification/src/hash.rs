//! Integrity hashes: decoding the registry's hex digests, computing
//! digests for externally hosted artifacts, and normalizing both to the
//! `sha256-<base64>` form the lockfile carries.

use vstd::prelude::*;

verus! {

/// The value of one hex digit, upper or lower case.
pub open spec fn spec_hex_val(c: char) -> Option<u8> {
    match c {
        '0' => Some(0u8),
        '1' => Some(1u8),
        '2' => Some(2u8),
        '3' => Some(3u8),
        '4' => Some(4u8),
        '5' => Some(5u8),
        '6' => Some(6u8),
        '7' => Some(7u8),
        '8' => Some(8u8),
        '9' => Some(9u8),
        'a' | 'A' => Some(10u8),
        'b' | 'B' => Some(11u8),
        'c' | 'C' => Some(12u8),
        'd' | 'D' => Some(13u8),
        'e' | 'E' => Some(14u8),
        'f' | 'F' => Some(15u8),
        _ => None,
    }
}

fn hex_val(c: char) -> (r: Option<u8>)
    ensures
        r == spec_hex_val(c),
{
    match c {
        '0' => Some(0u8),
        '1' => Some(1u8),
        '2' => Some(2u8),
        '3' => Some(3u8),
        '4' => Some(4u8),
        '5' => Some(5u8),
        '6' => Some(6u8),
        '7' => Some(7u8),
        '8' => Some(8u8),
        '9' => Some(9u8),
        'a' | 'A' => Some(10u8),
        'b' | 'B' => Some(11u8),
        'c' | 'C' => Some(12u8),
        'd' | 'D' => Some(13u8),
        'e' | 'E' => Some(14u8),
        'f' | 'F' => Some(15u8),
        _ => None,
    }
}

/// The bytes a hex string denotes: two digits per byte, high digit
/// first; `None` for an odd length or a character that is no hex digit.
pub open spec fn spec_hex_decode(s: Seq<char>) -> Option<Seq<u8>>
    decreases s.len(),
{
    if s.len() == 0 {
        Some(Seq::empty())
    } else if s.len() == 1 {
        None
    } else {
        match (spec_hex_val(s[0]), spec_hex_val(s[1])) {
            (Some(hi), Some(lo)) => match spec_hex_decode(s.skip(2)) {
                Some(rest) => Some(seq![(16 * hi + lo) as u8] + rest),
                None => None,
            },
            _ => None,
        }
    }
}

/// Decodes a hex digest string to its bytes.
pub fn hex_decode(s: &str) -> (r: Option<Vec<u8>>)
    ensures
        match spec_hex_decode(s@) {
            Some(bytes) => r matches Some(v) && v@ == bytes,
            None => r is None,
        },
{
    let len = s.unicode_len();
    if len % 2 != 0 {
        proof {
            lemma_hex_decode_odd(s@);
        }
        return None;
    }
    let mut out: Vec<u8> = Vec::new();
    let mut i: usize = 0;
    assert(s@.skip(0) =~= s@);
    while i < len
        invariant
            len == s@.len(),
            len % 2 == 0,
            i % 2 == 0,
            i <= len,
            out@.len() == i / 2,
            match spec_hex_decode(s@.skip(i as int)) {
                Some(rest) => spec_hex_decode(s@) == Some(out@ + rest),
                None => spec_hex_decode(s@) is None,
            },
        decreases len - i,
    {
        let hi = hex_val(s.get_char(i));
        let lo = hex_val(s.get_char(i + 1));
        proof {
            assert(s@.skip(i as int)[0] == s@[i as int]);
            assert(s@.skip(i as int)[1] == s@[i as int + 1]);
            assert(s@.skip(i as int).skip(2) =~= s@.skip(i as int + 2));
        }
        match (hi, lo) {
            (Some(h), Some(l)) => {
                out.push(16 * h + l);
            },
            _ => {
                return None;
            },
        }
        i = i + 2;
        assert(out@ =~= out@.drop_last() + seq![out@.last()]);
        assert(match spec_hex_decode(s@.skip(i as int)) {
            Some(rest) => spec_hex_decode(s@) == Some(out@ + rest),
            None => spec_hex_decode(s@) is None,
        }) by {
            if spec_hex_decode(s@.skip(i as int)) is Some {
                let rest = spec_hex_decode(s@.skip(i as int)).unwrap();
                assert(out@.drop_last() + (seq![out@.last()] + rest) =~= out@ + rest);
            }
        }
    }
    assert(s@.skip(len as int) =~= Seq::<char>::empty());
    assert(out@ + Seq::<u8>::empty() =~= out@);
    Some(out)
}

/// A hex string of odd length denotes no bytes.
proof fn lemma_hex_decode_odd(s: Seq<char>)
    requires
        s.len() % 2 == 1,
    ensures
        spec_hex_decode(s) is None,
    decreases s.len(),
{
    if s.len() > 1 {
        lemma_hex_decode_odd(s.skip(2));
    }
}

/// The SHA-256 digest of a byte sequence, as the `sha2` crate computes
/// it.
pub uninterp spec fn sha256_of(bytes: Seq<u8>) -> Seq<u8>;

/// Relies on `sha2::Sha256` through `sha2::Digest::digest`: the digest
/// depends on the input bytes alone and is exactly 32 bytes long.
#[verifier::external_body]
pub(crate) fn sha256(bytes: &[u8]) -> (r: Vec<u8>)
    ensures
        r@ == sha256_of(bytes@),
        r@.len() == 32,
{
    let digest = <sha2::Sha256 as sha2::Digest>::digest(bytes);
    digest.to_vec()
}

/// The standard, padded base64 encoding of a byte sequence, as the
/// `base64` crate computes it.
pub uninterp spec fn base64_of(bytes: Seq<u8>) -> Seq<char>;

/// A character of the standard base64 alphabet (padding excluded).
pub open spec fn spec_base64_alphabet(c: char) -> bool {
    ||| ('A' <= c && c <= 'Z')
    ||| ('a' <= c && c <= 'z')
    ||| ('0' <= c && c <= '9')
    ||| c == '+'
    ||| c == '/'
}

/// How many characters of the padded encoding of `n` bytes carry data
/// (the rest, at the end, are the `=` padding).
pub open spec fn spec_base64_data_len(n: nat) -> int {
    if n % 3 == 0 {
        4 * (n as int / 3)
    } else {
        4 * (n as int / 3) + n as int % 3 + 1
    }
}

/// Relies on `base64::engine::Engine::encode` with the standard padded
/// alphabet (`BASE64_STANDARD`): the encoding depends on the input
/// bytes alone; padding makes it four characters for every three bytes
/// begun, every character is from the standard alphabet, and `=`
/// stands exactly in the trailing padding positions. The length bound
/// keeps the encoder's internal size computation from overflowing, on
/// which it panics.
#[verifier::external_body]
fn base64_encode(bytes: &[u8]) -> (r: String)
    requires
        4 * ((bytes@.len() + 2) / 3) <= usize::MAX as int,
    ensures
        r@ == base64_of(bytes@),
        r@.len() == 4 * ((bytes@.len() + 2) / 3),
        forall|i: int|
            0 <= i < r@.len() ==> (spec_base64_alphabet(#[trigger] r@[i]) || r@[i] == '='),
        forall|i: int|
            0 <= i < r@.len() ==> (((#[trigger] r@[i]) == '=') <==> i >= spec_base64_data_len(
                bytes@.len(),
            )),
{
    base64::engine::Engine::encode(&base64::prelude::BASE64_STANDARD, bytes)
}

/// The normalized integrity-hash string for a digest.
pub open spec fn spec_sri_hash(digest: Seq<u8>) -> Seq<char> {
    "sha256-"@ + base64_of(digest)
}

/// Renders a digest in the lockfile's normalized hash form: the prefix
/// `sha256-` followed by the standard padded base64 of the digest (44
/// characters for a 32-byte digest), every one from the standard
/// alphabet with `=` exactly in the trailing padding positions.
pub fn sri_hash(digest: &[u8]) -> (r: String)
    requires
        4 * ((digest@.len() + 2) / 3) <= usize::MAX as int,
    ensures
        r@ == spec_sri_hash(digest@),
        r@.len() == 7 + 4 * ((digest@.len() + 2) / 3),
        r@.subrange(0, 7) == "sha256-"@,
        forall|i: int|
            7 <= i < r@.len() ==> (spec_base64_alphabet(#[trigger] r@[i]) || r@[i] == '='),
        forall|i: int|
            7 <= i < r@.len() ==> (((#[trigger] r@[i]) == '=') <==> i >= 7
                + spec_base64_data_len(digest@.len())),
{
    let encoded = base64_encode(digest);
    let mut out = String::from_str("sha256-");
    out.append(encoded.as_str());
    proof {
        reveal_strlit("sha256-");
        assert("sha256-"@.len() == 7);
        assert forall|i: int| 7 <= i < out@.len() implies out@[i] == encoded@[i - 7] by {}
        assert(out@.subrange(0, 7) =~= "sha256-"@);
    }
    out
}

/// Hash normalization does not depend on where a digest came from: a
/// registry-supplied hex digest that decodes to the same bytes a local
/// hashing produced normalizes to the same hash string.
pub proof fn lemma_hash_source_agnostic(hex: Seq<char>, body: Seq<u8>)
    requires
        spec_hex_decode(hex) == Some(sha256_of(body)),
    ensures
        spec_sri_hash(spec_hex_decode(hex).unwrap()) == spec_sri_hash(sha256_of(body)),
{
}

} // verus!
