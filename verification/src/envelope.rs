//! The encrypted-payload ("cipher string") wire format and its
//! decryption: `<scheme>.<iv_b64>|<ciphertext_b64>[|<mac_b64>]`.
//!
//! Scheme "2" is AES-256-CBC with PKCS#7 padding; the optional MAC
//! segment is accepted and ignored. Parsing and padding removal are
//! verified; the block cipher and base64 decoding are called through
//! contracts.

use vstd::prelude::*;
use base64::Engine;
use cipher::BlockModeDecrypt;
use cipher::KeyIvInit;

verus! {

use vstd::slice::slice_subrange;
use vstd::slice::slice_to_vec;
use vstd::utf8::valid_utf8;
use vstd::utf8::decode_utf8;

/// The `.` delimiter that separates the scheme tag.
pub const SCHEME_DELIMITER: u8 = 46;

/// The `|` delimiter that separates IV, ciphertext and MAC segments.
pub const SEGMENT_DELIMITER: u8 = 124;

/// The ASCII digit `2`, the one scheme tag this pipeline supports.
pub const SCHEME_AES256_CBC: u8 = 50;

/// A structurally invalid cipher string; reported per payload and
/// decryption is never attempted.
#[derive(Clone, Copy, PartialEq, Eq, Structural, Debug)]
pub enum PayloadFormatError {
    /// No `.` after the scheme tag, or no `|` between IV and
    /// ciphertext.
    MissingDelimiter,
    /// The scheme tag is not the supported `2`.
    UnsupportedScheme,
    /// More than three `|`-separated segments after the scheme tag.
    TooManySegments,
    /// An IV or ciphertext segment is not valid base64.
    InvalidBase64,
    /// The decoded IV is not exactly 16 bytes.
    InvalidIvLength,
    /// The decoded ciphertext is empty or not a multiple of 16 bytes.
    InvalidCiphertextLength,
}

/// Why a payload could not be decrypted; reported per payload without
/// aborting the rest of the run.
#[derive(Clone, Copy, PartialEq, Eq, Structural, Debug)]
pub enum DecryptError {
    /// The cipher string itself is malformed.
    Format(PayloadFormatError),
    /// Padding validation failed after decryption: the key is wrong or
    /// the ciphertext was corrupted.
    Decryption,
    /// The decrypted bytes are not valid UTF-8 where text was
    /// expected.
    Encoding,
}

/// The index of the first occurrence of `b` in `s`, or `s.len()` if
/// `b` does not occur.
pub open spec fn index_of(s: Seq<u8>, b: u8) -> int
    decreases s.len(),
{
    if s.len() == 0 {
        0
    } else if s[0] == b {
        0
    } else {
        1 + index_of(s.drop_first(), b)
    }
}

pub proof fn lemma_index_of(s: Seq<u8>, b: u8)
    ensures
        0 <= index_of(s, b) <= s.len(),
        index_of(s, b) < s.len() ==> s[index_of(s, b)] == b,
        forall|i: int| 0 <= i < index_of(s, b) ==> s[i] != b,
    decreases s.len(),
{
    if s.len() == 0 {
    } else if s[0] == b {
    } else {
        lemma_index_of(s.drop_first(), b);
        if index_of(s, b) < s.len() {
            assert(s.drop_first()[index_of(s, b) - 1] == s[index_of(s, b)]);
        }
        assert forall|i: int| 0 <= i < index_of(s, b) implies s[i] != b by {
            if i > 0 {
                assert(s.drop_first()[i - 1] == s[i]);
            }
        }
    }
}

/// Returns the index of the first occurrence of `b` in `s`, or
/// `s.len()` if there is none.
fn find_byte(s: &[u8], b: u8) -> (r: usize)
    ensures
        r == index_of(s@, b),
        r <= s@.len(),
{
    proof {
        lemma_index_of(s@, b);
    }
    let n: usize = s.len();
    let mut i: usize = 0;
    while i < n
        invariant
            n == s@.len(),
            0 <= i <= n,
            forall|j: int| 0 <= j < i ==> s@[j] != b,
        decreases n - i,
    {
        if s[i] == b {
            proof {
                lemma_index_of(s@, b);
                if i < index_of(s@, b) {
                    assert(s@[i as int] != b);
                }
                if index_of(s@, b) < i {
                    assert(s@[index_of(s@, b)] != b);
                }
            }
            return i;
        }
        i = i + 1;
    }
    proof {
        if index_of(s@, b) < i {
            assert(s@[index_of(s@, b)] != b);
        }
    }
    i
}

/// What base64 decoding with the standard, padded alphabet returns:
/// the decoded bytes, or nothing when the input is not valid base64.
pub uninterp spec fn base64_decoded(s: Seq<u8>) -> Option<Seq<u8>>;

/// Relies on base64's `STANDARD` engine `decode`: whether it succeeds,
/// and the decoded bytes, are determined by the input alone.
#[verifier::external_body]
fn b64_decode(s: &[u8]) -> (r: Option<Vec<u8>>)
    ensures
        (r matches Some(v) ==> base64_decoded(s@) == Some(v@)),
        (r is None ==> base64_decoded(s@) is None),
{
    match base64::engine::general_purpose::STANDARD.decode(s) {
        Ok(v) => Some(v),
        Err(_) => None,
    }
}

/// What raw AES-256-CBC decryption (no padding removal) returns: one
/// output byte per ciphertext byte, determined by key, IV and
/// ciphertext alone.
pub uninterp spec fn aes256_cbc_decrypted(key: Seq<u8>, iv: Seq<u8>, ct: Seq<u8>) -> Seq<u8>;

/// Relies on `cbc::Decryptor<aes::Aes256>` with `NoPadding`: raw
/// CBC decryption of whole blocks, whose output has the ciphertext's
/// length and is determined by key, IV and ciphertext alone.
#[verifier::external_body]
fn aes256_cbc_decrypt_raw(key: &[u8], iv: &[u8], ct: &[u8]) -> (r: Vec<u8>)
    requires
        key@.len() == 32,
        iv@.len() == 16,
        ct@.len() > 0,
        ct@.len() % 16 == 0,
    ensures
        r@ == aes256_cbc_decrypted(key@, iv@, ct@),
        r@.len() == ct@.len(),
{
    let dec = cbc::Decryptor::<aes::Aes256>::new_from_slices(key, iv).unwrap();
    dec.decrypt_padded_vec::<cipher::block_padding::NoPadding>(ct).unwrap()
}

/// A parsed cipher string: a 16-byte IV and a whole number of
/// ciphertext blocks, both already base64-decoded.
#[derive(Clone, Debug)]
pub struct ParsedPayload {
    pub iv: Vec<u8>,
    pub ciphertext: Vec<u8>,
}

/// How a cipher string parses: the scheme tag before the first `.`
/// must be `2`; the remainder splits on `|` into an IV, a ciphertext
/// and an optional (ignored) MAC segment; IV and ciphertext must be
/// valid base64; the IV must decode to exactly 16 bytes and the
/// ciphertext to a positive multiple of 16.
pub open spec fn parse_payload_spec(s: Seq<u8>) -> Result<(Seq<u8>, Seq<u8>), PayloadFormatError> {
    let dot = index_of(s, SCHEME_DELIMITER);
    if dot == s.len() {
        Err(PayloadFormatError::MissingDelimiter)
    } else if !(dot == 1 && s[0] == SCHEME_AES256_CBC) {
        Err(PayloadFormatError::UnsupportedScheme)
    } else {
        let rest = s.skip(dot + 1);
        let pipe = index_of(rest, SEGMENT_DELIMITER);
        if pipe == rest.len() {
            Err(PayloadFormatError::MissingDelimiter)
        } else {
            let iv_b64 = rest.take(pipe);
            let tail = rest.skip(pipe + 1);
            let pipe2 = index_of(tail, SEGMENT_DELIMITER);
            let ct_b64 = tail.take(pipe2);
            let mac = tail.skip(pipe2 + 1);
            if pipe2 < tail.len() && index_of(mac, SEGMENT_DELIMITER) < mac.len() {
                Err(PayloadFormatError::TooManySegments)
            } else {
                match base64_decoded(iv_b64) {
                    None => Err(PayloadFormatError::InvalidBase64),
                    Some(iv) => if iv.len() != 16 {
                        Err(PayloadFormatError::InvalidIvLength)
                    } else {
                        match base64_decoded(ct_b64) {
                            None => Err(PayloadFormatError::InvalidBase64),
                            Some(ct) => if ct.len() == 0 || ct.len() % 16 != 0 {
                                Err(PayloadFormatError::InvalidCiphertextLength)
                            } else {
                                Ok((iv, ct))
                            },
                        }
                    },
                }
            }
        }
    }
}

/// Parses a cipher string into its decoded IV and ciphertext,
/// rejecting every malformed shape without attempting decryption.
pub fn parse_payload(s: &[u8]) -> (r: Result<ParsedPayload, PayloadFormatError>)
    ensures
        (r matches Ok(p) ==> {
            &&& parse_payload_spec(s@) == Ok::<_, PayloadFormatError>((p.iv@, p.ciphertext@))
            &&& p.iv@.len() == 16
            &&& p.ciphertext@.len() > 0
            &&& p.ciphertext@.len() % 16 == 0
        }),
        (r matches Err(e) ==> parse_payload_spec(s@) == Err::<(Seq<u8>, Seq<u8>), _>(e)),
{
    let dot = find_byte(s, SCHEME_DELIMITER);
    if dot == s.len() {
        return Err(PayloadFormatError::MissingDelimiter);
    }
    if !(dot == 1 && s[0] == SCHEME_AES256_CBC) {
        return Err(PayloadFormatError::UnsupportedScheme);
    }
    let rest = slice_subrange(s, dot + 1, s.len());
    let pipe = find_byte(rest, SEGMENT_DELIMITER);
    if pipe == rest.len() {
        return Err(PayloadFormatError::MissingDelimiter);
    }
    let iv_b64 = slice_subrange(rest, 0, pipe);
    let tail = slice_subrange(rest, pipe + 1, rest.len());
    let pipe2 = find_byte(tail, SEGMENT_DELIMITER);
    let ct_b64 = slice_subrange(tail, 0, pipe2);
    if pipe2 < tail.len() {
        let mac = slice_subrange(tail, pipe2 + 1, tail.len());
        if find_byte(mac, SEGMENT_DELIMITER) < mac.len() {
            return Err(PayloadFormatError::TooManySegments);
        }
    }
    let iv = match b64_decode(iv_b64) {
        Some(v) => v,
        None => return Err(PayloadFormatError::InvalidBase64),
    };
    if iv.len() != 16 {
        return Err(PayloadFormatError::InvalidIvLength);
    }
    let ct = match b64_decode(ct_b64) {
        Some(v) => v,
        None => return Err(PayloadFormatError::InvalidBase64),
    };
    if ct.len() == 0 || ct.len() % 16 != 0 {
        return Err(PayloadFormatError::InvalidCiphertextLength);
    }
    Ok(ParsedPayload { iv, ciphertext: ct })
}

/// PKCS#7 padding: append n copies of the byte n, where
/// n = 16 - (len % 16), so the result is a whole number of blocks.
pub open spec fn pkcs7_pad(p: Seq<u8>) -> Seq<u8> {
    let n = 16 - (p.len() % 16);
    p + Seq::new(n as nat, |i: int| n as u8)
}

/// PKCS#7 padding removal: the last byte names the pad length, which
/// must be between 1 and 16, fit within the data, and fill the whole
/// tail; anything else is invalid padding.
pub open spec fn pkcs7_unpad(s: Seq<u8>) -> Option<Seq<u8>> {
    if s.len() == 0 {
        None
    } else {
        let n = s.last() as int;
        if 1 <= n <= s.len() && n <= 16 && (forall|i: int| s.len() - n <= i < s.len() ==> s[i] == s.last()) {
            Some(s.take(s.len() - n))
        } else {
            None
        }
    }
}

/// Law: stripping PKCS#7 padding from a padded plaintext recovers the
/// plaintext exactly, whatever its length.
pub proof fn lemma_pkcs7_round_trip(p: Seq<u8>)
    ensures
        pkcs7_unpad(pkcs7_pad(p)) == Some(p),
{
    let s = pkcs7_pad(p);
    let n = 16 - (p.len() % 16);
    assert(s.len() == p.len() + n);
    assert(s.last() == n as u8);
    assert(forall|i: int| s.len() - n <= i < s.len() ==> s[i] == s.last());
    assert(s.take(s.len() - n) =~= p);
}

/// Law: for a well-formed payload, whenever raw CBC decryption under
/// `key` yields the padded form of a plaintext `p` — as it does when
/// the payload was produced by encrypting `p` under the same key and
/// IV — the envelope decryptor returns exactly `p`.
pub proof fn lemma_decrypt_recovers_padded_plaintext(s: Seq<u8>, key: Seq<u8>, p: Seq<u8>)
    ensures
        (parse_payload_spec(s) matches Ok(parts)
            && aes256_cbc_decrypted(key, parts.0, parts.1) == pkcs7_pad(p))
            ==> decrypt_payload_spec(s, key) == Ok::<_, DecryptError>(p),
{
    lemma_pkcs7_round_trip(p);
}

/// Strips PKCS#7 padding, or reports invalid padding.
pub fn strip_pkcs7(s: &[u8]) -> (r: Option<Vec<u8>>)
    ensures
        (r matches Some(v) ==> pkcs7_unpad(s@) == Some(v@)),
        (r is None ==> pkcs7_unpad(s@) is None),
{
    let len = s.len();
    if len == 0 {
        return None;
    }
    let n = s[len - 1];
    if n < 1 || n as usize > len || n > 16 {
        return None;
    }
    let start = len - n as usize;
    let mut i: usize = start;
    while i < len
        invariant
            len == s@.len(),
            1 <= n <= 16,
            n as usize <= len,
            start == len - n as usize,
            s@.last() == n,
            start <= i <= len,
            forall|j: int| start <= j < i ==> s@[j] == n,
        decreases len - i,
    {
        if s[i] != n {
            proof {
                assert(s@.last() == n);
                assert(s@[i as int] != s@.last());
                assert(s@.len() - (s@.last() as int) <= i as int);
                assert((i as int) < s@.len());
            }
            return None;
        }
        i = i + 1;
    }
    Some(slice_to_vec(slice_subrange(s, 0, start)))
}

/// How a payload decrypts under a 32-byte key: parse it, run
/// AES-256-CBC with the decoded IV, and strip PKCS#7 padding. A
/// malformed string is a format error; bad padding after decryption
/// signals a wrong key or corrupted ciphertext.
pub open spec fn decrypt_payload_spec(s: Seq<u8>, key: Seq<u8>) -> Result<Seq<u8>, DecryptError> {
    match parse_payload_spec(s) {
        Err(e) => Err(DecryptError::Format(e)),
        Ok((iv, ct)) => match pkcs7_unpad(aes256_cbc_decrypted(key, iv, ct)) {
            None => Err(DecryptError::Decryption),
            Some(p) => Ok(p),
        },
    }
}

/// Decrypts a cipher string under a 32-byte key into raw plaintext
/// bytes. Never panics: every malformed input or padding failure is a
/// reported error.
pub fn decrypt_payload(s: &[u8], key: &[u8]) -> (r: Result<Vec<u8>, DecryptError>)
    requires
        key@.len() == 32,
    ensures
        (r matches Ok(v) ==> decrypt_payload_spec(s@, key@) == Ok::<_, DecryptError>(v@)),
        (r matches Err(e) ==> decrypt_payload_spec(s@, key@) == Err::<Seq<u8>, _>(e)),
{
    let parsed = match parse_payload(s) {
        Ok(p) => p,
        Err(e) => return Err(DecryptError::Format(e)),
    };
    let raw = aes256_cbc_decrypt_raw(key, parsed.iv.as_slice(), parsed.ciphertext.as_slice());
    match strip_pkcs7(raw.as_slice()) {
        Some(v) => Ok(v),
        None => Err(DecryptError::Decryption),
    }
}

/// Relies on `String::from_utf8`: it succeeds exactly on valid UTF-8
/// and returns the string those bytes encode.
#[verifier::external_body]
fn utf8_to_string(b: Vec<u8>) -> (r: Option<String>)
    ensures
        (r matches Some(t) ==> valid_utf8(b@) && t@ == decode_utf8(b@)),
        (r is None ==> !valid_utf8(b@)),
{
    match String::from_utf8(b) {
        Ok(s) => Some(s),
        Err(_) => None,
    }
}

/// How a payload decrypts to text: as [`decrypt_payload_spec`], then
/// UTF-8 decoding; bytes that are not valid UTF-8 are an encoding
/// error, not a crash.
pub open spec fn decrypt_payload_utf8_spec(s: Seq<u8>, key: Seq<u8>) -> Result<Seq<char>, DecryptError> {
    match decrypt_payload_spec(s, key) {
        Err(e) => Err(e),
        Ok(p) => if valid_utf8(p) {
            Ok(decode_utf8(p))
        } else {
            Err(DecryptError::Encoding)
        },
    }
}

/// Decrypts a cipher string under a 32-byte key and interprets the
/// plaintext as UTF-8 text.
pub fn decrypt_payload_utf8(s: &[u8], key: &[u8]) -> (r: Result<String, DecryptError>)
    requires
        key@.len() == 32,
    ensures
        (r matches Ok(t) ==> decrypt_payload_utf8_spec(s@, key@) == Ok::<_, DecryptError>(t@)),
        (r matches Err(e) ==> decrypt_payload_utf8_spec(s@, key@) == Err::<Seq<char>, _>(e)),
{
    let raw = match decrypt_payload(s, key) {
        Ok(v) => v,
        Err(e) => return Err(e),
    };
    match utf8_to_string(raw) {
        Some(t) => Ok(t),
        None => Err(DecryptError::Encoding),
    }
}

} // verus!
