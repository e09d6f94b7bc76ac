//! The cryptographic primitives and encodings that the service takes from
//! outside crates, each behind one trusted wrapper.
use vstd::prelude::*;
use hmac::Mac;
use base64::Engine;
use chrono::TimeZone;

verus! {

/// HMAC-SHA256 tag of `msg` under `key` (hmac 0.12 with sha2 0.10).
pub uninterp spec fn hmac_sha256_spec(key: Seq<u8>, msg: Seq<u8>) -> Seq<u8>;

/// SHA-256 digest of `data` (sha2 0.10).
pub uninterp spec fn sha256_spec(data: Seq<u8>) -> Seq<u8>;

/// AES-128 CMAC tag of `msg` under a 16-byte `key` (cmac 0.7 with aes 0.8).
pub uninterp spec fn aes128_cmac_spec(key: Seq<u8>, msg: Seq<u8>) -> Seq<u8>;

/// Unpadded URL-safe base64 text of `bytes` (base64 0.22, `URL_SAFE_NO_PAD`).
pub uninterp spec fn base64url_encode_spec(bytes: Seq<u8>) -> Seq<char>;

/// Bytes that unpadded URL-safe base64 `text` denotes, or `None` when the
/// text is not such an encoding (base64 0.22, `URL_SAFE_NO_PAD`).
pub uninterp spec fn base64url_decode_spec(text: Seq<char>) -> Option<Seq<u8>>;

/// Whether `secs` seconds after the Unix epoch is a representable
/// `DateTime<Utc>` (chrono 0.4): from the first second of the year -262143
/// to the last second of the year 262142, chrono's date range.
pub open spec fn utc_timestamp_valid(secs: i64) -> bool {
    -8_334_601_228_800 <= secs <= 8_210_266_876_799
}

/// A character of the URL-safe base64 alphabet.
pub open spec fn is_base64url_char(c: char) -> bool {
    ||| ('A' <= c && c <= 'Z')
    ||| ('a' <= c && c <= 'z')
    ||| ('0' <= c && c <= '9')
    ||| c == '-'
    ||| c == '_'
}

/// Calls `Hmac::<Sha256>::new_from_slice`, `Mac::update` and `Mac::finalize`.
/// Claims that the result is the named HMAC-SHA256 tag of `msg` under `key`,
/// 32 bytes long, and that keying never fails: hmac 0.12's
/// `new_from_slice` returns `Ok` for every key length.
#[verifier::external_body]
pub(crate) fn hmac_sha256(key: &[u8], msg: &[u8]) -> (r: Option<Vec<u8>>)
    ensures
        r is Some,
        r.unwrap()@ == hmac_sha256_spec(key@, msg@),
        r.unwrap()@.len() == 32,
{
    match hmac::Hmac::<sha2::Sha256>::new_from_slice(key) {
        Ok(mut mac) => {
            mac.update(msg);
            Some(mac.finalize().into_bytes().to_vec())
        },
        Err(_) => None,
    }
}

/// Calls `sha2::Sha256::digest`.
/// Claims that the result is the named SHA-256 digest of `data`, 32 bytes long.
#[verifier::external_body]
pub(crate) fn sha256(data: &[u8]) -> (r: Vec<u8>)
    ensures
        r@ == sha256_spec(data@),
        r@.len() == 32,
{
    <sha2::Sha256 as sha2::Digest>::digest(data).to_vec()
}

/// Calls `Cmac::<Aes128>::new_from_slice`, `Mac::update` and `Mac::finalize`.
/// Claims that keying succeeds exactly for 16-byte keys (the length check of
/// crypto-common's `KeyInit::new_from_slice`) and that the result is then the
/// named 16-byte AES-128 CMAC tag of `msg` under `key`.
#[verifier::external_body]
pub(crate) fn aes128_cmac(key: &[u8], msg: &[u8]) -> (r: Option<Vec<u8>>)
    ensures
        r is Some <==> key@.len() == 16,
        r matches Some(t) ==> t@ == aes128_cmac_spec(key@, msg@) && t@.len() == 16,
{
    match <cmac::Cmac<aes::Aes128> as Mac>::new_from_slice(key) {
        Ok(mut mac) => {
            mac.update(msg);
            Some(mac.finalize().into_bytes().to_vec())
        },
        Err(_) => None,
    }
}

/// Calls `URL_SAFE_NO_PAD.encode`.
/// Claims that the result is the named encoding of `bytes`, that it has
/// `ceil(4n/3)` characters of the URL-safe alphabet (base64 0.22's
/// `encoded_len` without padding), and that decoding it with the same
/// engine gives `bytes` back, the round trip that base64 documents.
#[verifier::external_body]
pub(crate) fn base64url_encode(bytes: &[u8]) -> (r: String)
    requires
        bytes@.len() <= 4096,
    ensures
        r@ == base64url_encode_spec(bytes@),
        r@.len() == (4 * bytes@.len() + 2) / 3,
        forall|i: int| 0 <= i < r@.len() ==> is_base64url_char(#[trigger] r@[i]),
        base64url_decode_spec(r@) == Some(bytes@),
{
    base64::engine::general_purpose::URL_SAFE_NO_PAD.encode(bytes)
}

/// Calls `URL_SAFE_NO_PAD.decode`.
/// Claims that the result is the named decoding of `text`, an error exactly
/// when the engine reports a `DecodeError`; the error's text is that
/// `DecodeError` displayed, of which nothing is claimed.
#[verifier::external_body]
pub(crate) fn base64url_decode(text: &str) -> (r: Result<Vec<u8>, String>)
    ensures
        match r {
            Ok(v) => base64url_decode_spec(text@) == Some(v@),
            Err(_) => base64url_decode_spec(text@) is None,
        },
{
    base64::engine::general_purpose::URL_SAFE_NO_PAD.decode(text).map_err(|e| e.to_string())
}

/// Calls `Utc.timestamp_opt(secs, 0).single()`.
/// Claims that the result tells whether the instant lies in chrono's range,
/// as `utc_timestamp_valid` states it (`DateTime::from_timestamp` with
/// `NaiveDate`'s years -262143 to 262142).
#[verifier::external_body]
pub(crate) fn utc_timestamp_is_valid(secs: i64) -> (b: bool)
    ensures
        b == utc_timestamp_valid(secs),
{
    chrono::Utc.timestamp_opt(secs, 0).single().is_some()
}

/// Calls `uuid::Uuid::new_v4` and returns its 16 bytes.
/// Nothing is claimed of the bytes: they come from a random source.
#[verifier::external_body]
pub(crate) fn random_uuid_bytes() -> (r: [u8; 16]) {
    uuid::Uuid::new_v4().into_bytes()
}

/// Appends `s` to `v`.
pub fn append_bytes(v: &mut Vec<u8>, s: &[u8])
    ensures
        final(v)@ == old(v)@ + s@,
{
    let mut i: usize = 0;
    while i < s.len()
        invariant
            i <= s@.len(),
            v@ == old(v)@ + s@.subrange(0, i as int),
        decreases s@.len() - i,
    {
        v.push(s[i]);
        i = i + 1;
        assert(v@ =~= old(v)@ + s@.subrange(0, i as int));
    }
    assert(s@.subrange(0, s@.len() as int) =~= s@);
}

} // verus!
