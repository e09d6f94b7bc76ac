//! The signed token format: `base64url(token_id ‖ expires_at ‖ mac)`, with
//! `mac = HMAC-SHA256(secret, token_id ‖ product_public_id ‖ expires_at)`
//! and `expires_at` as big-endian Unix seconds.
use vstd::prelude::*;
use vstd::utf8::encode_utf8;
use crate::bytes::{i64_be, i64_of_be, i64_to_be_bytes, i64_from_be_bytes, bytes_eq, lemma_i64_be_roundtrip};
use crate::crypto::{
    hmac_sha256, hmac_sha256_spec, sha256, sha256_spec, base64url_encode, base64url_decode,
    base64url_encode_spec, base64url_decode_spec, utc_timestamp_is_valid, utc_timestamp_valid,
    random_uuid_bytes, append_bytes, is_base64url_char,
};
use crate::error::{AppError, validation, internal};
use crate::time::UtcTime;

verus! {

/// Bytes of a decoded token: 16 of id, 8 of expiry, 32 of MAC.
pub const TOKEN_PAYLOAD_LEN: usize = 56;

/// What the MAC of a token authenticates.
pub open spec fn mac_input(token_id: Seq<u8>, product_public_id: Seq<char>, expires_secs: i64) -> Seq<u8> {
    token_id + encode_utf8(product_public_id) + i64_be(expires_secs)
}

/// The MAC of a token.
pub open spec fn token_mac(secret: Seq<u8>, token_id: Seq<u8>, product_public_id: Seq<char>, expires_secs: i64) -> Seq<u8> {
    hmac_sha256_spec(secret, mac_input(token_id, product_public_id, expires_secs))
}

/// The bytes that a token encodes.
pub open spec fn token_payload(secret: Seq<u8>, token_id: Seq<u8>, product_public_id: Seq<char>, expires_secs: i64) -> Seq<u8> {
    token_id + i64_be(expires_secs) + token_mac(secret, token_id, product_public_id, expires_secs)
}

/// The text of the token for this id, product and expiry.
pub open spec fn token_text(secret: Seq<u8>, token_id: Seq<u8>, product_public_id: Seq<char>, expires_secs: i64) -> Seq<char> {
    base64url_encode_spec(token_payload(secret, token_id, product_public_id, expires_secs))
}

/// Why a token is refused, in the order the checks are made.
#[derive(Clone, Copy, Debug, PartialEq, Eq, Structural)]
pub enum TokenDefect {
    NotBase64,
    BadLength,
    BadExpiry,
    BadMac,
}

/// What checking `token` for `product_public_id` under `secret` finds:
/// the token id and expiry seconds, or the first defect.
pub open spec fn check_token(secret: Seq<u8>, product_public_id: Seq<char>, token: Seq<char>) -> Result<(Seq<u8>, i64), TokenDefect> {
    match base64url_decode_spec(token) {
        None => Err(TokenDefect::NotBase64),
        Some(p) => {
            if p.len() != 56 {
                Err(TokenDefect::BadLength)
            } else {
                let id = p.subrange(0, 16);
                let secs = i64_of_be(p.subrange(16, 24));
                if !utc_timestamp_valid(secs) {
                    Err(TokenDefect::BadExpiry)
                } else if p.subrange(24, 56) != token_mac(secret, id, product_public_id, secs) {
                    Err(TokenDefect::BadMac)
                } else {
                    Ok((id, secs))
                }
            }
        },
    }
}

/// A freshly generated token: its id and its text.
#[derive(Debug)]
pub struct GeneratedScanToken {
    pub token_id: [u8; 16],
    pub token: String,
}

/// What a valid token carries.
#[derive(Debug)]
pub struct VerifiedScanToken {
    pub token_id: [u8; 16],
    pub expires_at: UtcTime,
}

/// Signs and checks one-time scan tokens with a shared secret.
pub struct HmacScanTokenService {
    secret: Vec<u8>,
}

impl HmacScanTokenService {
    /// The secret that the service signs with.
    pub closed spec fn secret(&self) -> Seq<u8> {
        self.secret@
    }

    pub fn new(secret: &[u8]) -> (s: HmacScanTokenService)
        ensures
            s.secret() == secret@,
    {
        let mut v: Vec<u8> = Vec::new();
        append_bytes(&mut v, secret);
        HmacScanTokenService { secret: v }
    }

    /// The MAC over the token id, the product id and the expiry seconds.
    pub fn build_mac(&self, token_id: &[u8; 16], product_public_id: &str, expires_secs: i64) -> (r: Result<Vec<u8>, AppError>)
        ensures
            r matches Ok(m) && m@ == token_mac(self.secret(), token_id@, product_public_id@, expires_secs)
                && m@.len() == 32,
    {
        let mut msg: Vec<u8> = Vec::new();
        append_bytes(&mut msg, token_id.as_slice());
        append_bytes(&mut msg, product_public_id.as_bytes());
        let ts = i64_to_be_bytes(expires_secs);
        append_bytes(&mut msg, ts.as_slice());
        assert(msg@ =~= mac_input(token_id@, product_public_id@, expires_secs));
        match hmac_sha256(self.secret.as_slice(), msg.as_slice()) {
            Some(m) => Ok(m),
            None => Err(internal("HMAC key rejected")),
        }
    }

    /// Encodes the token for a given id: the part of generation that
    /// follows the draw of the id.
    pub fn encode_token(&self, token_id: [u8; 16], product_public_id: &str, expires_at: UtcTime) -> (r: Result<GeneratedScanToken, AppError>)
        ensures
            r matches Ok(g) && g.token_id == token_id
                && g.token@ == token_text(self.secret(), token_id@, product_public_id@, expires_at.secs)
                && (utc_timestamp_valid(expires_at.secs) ==> check_token(self.secret(), product_public_id@, g.token@)
                    == Ok::<(Seq<u8>, i64), TokenDefect>((token_id@, expires_at.secs)))
                && (forall|i: int| 0 <= i < g.token@.len() ==> is_base64url_char(#[trigger] g.token@[i]))
                && g.token@.len() == 75,
    {
        let mac = match self.build_mac(&token_id, product_public_id, expires_at.secs) {
            Ok(m) => m,
            Err(e) => return Err(e),
        };
        let mut payload: Vec<u8> = Vec::new();
        append_bytes(&mut payload, token_id.as_slice());
        let ts = i64_to_be_bytes(expires_at.secs);
        append_bytes(&mut payload, ts.as_slice());
        append_bytes(&mut payload, mac.as_slice());
        let ghost p = token_payload(self.secret(), token_id@, product_public_id@, expires_at.secs);
        assert(payload@ =~= p);
        let token = base64url_encode(payload.as_slice());
        proof {
            lemma_i64_be_roundtrip(expires_at.secs);
            assert(p.subrange(0, 16) =~= token_id@);
            assert(p.subrange(16, 24) =~= i64_be(expires_at.secs));
            assert(p.subrange(24, 56) =~= mac@);
        }
        Ok(GeneratedScanToken { token_id, token })
    }

    /// Generates a token with a fresh random id.
    pub fn generate_token(&self, product_public_id: &str, expires_at: UtcTime) -> (r: Result<GeneratedScanToken, AppError>)
        ensures
            r matches Ok(g)
                && g.token@ == token_text(self.secret(), g.token_id@, product_public_id@, expires_at.secs)
                && (utc_timestamp_valid(expires_at.secs) ==> check_token(self.secret(), product_public_id@, g.token@)
                    == Ok::<(Seq<u8>, i64), TokenDefect>((g.token_id@, expires_at.secs)))
                && (forall|i: int| 0 <= i < g.token@.len() ==> is_base64url_char(#[trigger] g.token@[i]))
                && g.token@.len() == 75,
    {
        let token_id = random_uuid_bytes();
        self.encode_token(token_id, product_public_id, expires_at)
    }

    /// Checks a token against a product id: it must decode to 56 bytes, carry
    /// a representable expiry and a MAC that matches.
    pub fn parse_and_verify_token(&self, product_public_id: &str, token: &str) -> (r: Result<VerifiedScanToken, AppError>)
        ensures
            match check_token(self.secret(), product_public_id@, token@) {
                Ok((id, secs)) => r matches Ok(v) && v.token_id@ == id
                    && v.expires_at == (UtcTime { secs, nanos: 0 }),
                Err(TokenDefect::NotBase64) => r matches Err(AppError::Validation(_)),
                Err(TokenDefect::BadLength) => r matches Err(AppError::Validation(m))
                    && m@ == "Scan token payload length is invalid"@,
                Err(TokenDefect::BadExpiry) => r matches Err(AppError::Validation(m))
                    && m@ == "expires_at is invalid"@,
                Err(TokenDefect::BadMac) => r matches Err(AppError::Validation(m))
                    && m@ == "Scan token MAC is invalid"@,
            },
    {
        let payload = match base64url_decode(token) {
            Ok(p) => p,
            Err(message) => return Err(AppError::Validation(message)),
        };
        if payload.len() != TOKEN_PAYLOAD_LEN {
            return Err(validation("Scan token payload length is invalid"));
        }
        let token_id: [u8; 16] = [
            payload[0], payload[1], payload[2], payload[3], payload[4], payload[5], payload[6], payload[7],
            payload[8], payload[9], payload[10], payload[11], payload[12], payload[13], payload[14], payload[15],
        ];
        let ts: [u8; 8] = [
            payload[16], payload[17], payload[18], payload[19], payload[20], payload[21], payload[22], payload[23],
        ];
        proof {
            assert(token_id@ =~= payload@.subrange(0, 16));
            assert(ts@ =~= payload@.subrange(16, 24));
        }
        let secs = i64_from_be_bytes(ts);
        if !utc_timestamp_is_valid(secs) {
            return Err(validation("expires_at is invalid"));
        }
        let expected = match self.build_mac(&token_id, product_public_id, secs) {
            Ok(m) => m,
            Err(e) => return Err(e),
        };
        let mut received: Vec<u8> = Vec::new();
        let mut i: usize = 24;
        while i < TOKEN_PAYLOAD_LEN
            invariant
                payload@.len() == 56,
                24 <= i <= 56,
                received@ == payload@.subrange(24, i as int),
            decreases 56 - i,
        {
            received.push(payload[i]);
            i = i + 1;
            assert(received@ =~= payload@.subrange(24, i as int));
        }
        if !bytes_eq(expected.as_slice(), received.as_slice()) {
            return Err(validation("Scan token MAC is invalid"));
        }
        Ok(VerifiedScanToken { token_id, expires_at: UtcTime::from_timestamp(secs) })
    }

    /// SHA-256 of the token text, the only form in which a token is stored.
    pub fn hash_token(&self, token: &str) -> (h: Vec<u8>)
        ensures
            h@ == sha256_spec(encode_utf8(token@)),
            h@.len() == 32,
    {
        sha256(token.as_bytes())
    }
}

/// Issues, checks and hashes one-time scan tokens.
pub trait ScanTokenService {
    /// The text of the token `token_id` for a product, expiring at `expires_secs`.
    spec fn token_for(&self, token_id: Seq<u8>, product_public_id: Seq<char>, expires_secs: i64) -> Seq<char>;

    /// What checking `token` for a product finds: its id and expiry, or its defect.
    spec fn checked(&self, product_public_id: Seq<char>, token: Seq<char>) -> Result<(Seq<u8>, i64), TokenDefect>;

    /// The hash under which the text of a token is stored.
    spec fn hash_of(&self, token: Seq<char>) -> Seq<u8>;

    /// A fresh token for a product; it checks back to its id and expiry
    /// whenever the expiry is an instant that the clock can represent.
    fn generate_token(&self, product_public_id: &str, expires_at: UtcTime) -> (r: Result<GeneratedScanToken, AppError>)
        ensures
            r matches Ok(g) && g.token@ == self.token_for(g.token_id@, product_public_id@, expires_at.secs)
                && (utc_timestamp_valid(expires_at.secs) ==> self.checked(product_public_id@, g.token@)
                    == Ok::<(Seq<u8>, i64), TokenDefect>((g.token_id@, expires_at.secs))),
    ;

    /// The id and expiry of a token for a product, or a validation error.
    fn parse_and_verify_token(&self, product_public_id: &str, token: &str) -> (r: Result<VerifiedScanToken, AppError>)
        ensures
            match self.checked(product_public_id@, token@) {
                Ok((id, secs)) => r matches Ok(v) && v.token_id@ == id && v.expires_at == (UtcTime { secs, nanos: 0 }),
                Err(_) => r matches Err(AppError::Validation(_)),
            },
    ;

    /// The stored hash of a token's text.
    fn hash_token(&self, token: &str) -> (h: Vec<u8>)
        ensures
            h@ == self.hash_of(token@),
    ;
}

impl ScanTokenService for HmacScanTokenService {
    open spec fn token_for(&self, token_id: Seq<u8>, product_public_id: Seq<char>, expires_secs: i64) -> Seq<char> {
        token_text(self.secret(), token_id, product_public_id, expires_secs)
    }

    open spec fn checked(&self, product_public_id: Seq<char>, token: Seq<char>) -> Result<(Seq<u8>, i64), TokenDefect> {
        check_token(self.secret(), product_public_id, token)
    }

    open spec fn hash_of(&self, token: Seq<char>) -> Seq<u8> {
        sha256_spec(encode_utf8(token))
    }

    fn generate_token(&self, product_public_id: &str, expires_at: UtcTime) -> (r: Result<GeneratedScanToken, AppError>) {
        HmacScanTokenService::generate_token(self, product_public_id, expires_at)
    }

    fn parse_and_verify_token(&self, product_public_id: &str, token: &str) -> (r: Result<VerifiedScanToken, AppError>) {
        HmacScanTokenService::parse_and_verify_token(self, product_public_id, token)
    }

    fn hash_token(&self, token: &str) -> (h: Vec<u8>) {
        HmacScanTokenService::hash_token(self, token)
    }
}

} // verus!
