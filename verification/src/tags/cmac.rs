//! Per-tag keys and AES-CMAC tags for dynamic NFC tags.
//!
//! `K_tag = HMAC(HMAC(salt = uid_bytes, master), key_version_be ‖ 0x01)[..16]`,
//! an HKDF-SHA256 extract-and-expand of one block, and the tag of a message
//! is `AES-CMAC(K_tag, message)`.
use vstd::prelude::*;
use crate::bytes::{hex_decode, hex_decode_seq, i32_be, i32_to_be_bytes, bytes_eq};
use crate::crypto::{hmac_sha256, hmac_sha256_spec, aes128_cmac, aes128_cmac_spec, append_bytes};
use crate::error::{AppError, validation, internal};
use vstd::string::StringExecFns;

verus! {

/// Computes and checks the authentication tags of dynamic tag messages.
pub trait CryptoService {
    /// The tag expected for `message` from the tag `tag_uid` at `key_version`,
    /// or `None` when none can be computed (the call then fails).
    spec fn expected_cmac(&self, key_version: i32, tag_uid: Seq<char>, message: Seq<u8>) -> Option<Seq<u8>>;

    /// Whether `signature` is the expected tag.
    fn verify_cmac(&self, key_version: i32, tag_uid: &str, message: &[u8], signature: &[u8]) -> (r: Result<bool, AppError>)
        ensures
            match self.expected_cmac(key_version, tag_uid@, message@) {
                Some(t) => r == Ok::<bool, AppError>(signature@ == t),
                None => r is Err,
            },
    ;

    /// The expected tag, which is never empty.
    fn generate_cmac(&self, key_version: i32, tag_uid: &str, message: &[u8]) -> (r: Result<Vec<u8>, AppError>)
        ensures
            match self.expected_cmac(key_version, tag_uid@, message@) {
                Some(t) => r matches Ok(v) && v@ == t && t.len() > 0,
                None => r is Err,
            },
    ;
}

/// The key of the tag whose identifier bytes are `salt`, at `key_version`.
pub open spec fn derived_key(master: Seq<u8>, key_version: i32, salt: Seq<u8>) -> Seq<u8> {
    hmac_sha256_spec(hmac_sha256_spec(salt, master), i32_be(key_version) + seq![1u8]).subrange(0, 16)
}

/// The tag of `message` for a tag identifier given in hex.
pub open spec fn tag_cmac(master: Seq<u8>, key_version: i32, tag_uid: Seq<char>, message: Seq<u8>) -> Option<Seq<u8>> {
    match hex_decode_seq(tag_uid) {
        Some(salt) => Some(aes128_cmac_spec(derived_key(master, key_version, salt), message)),
        None => None,
    }
}

/// AES-CMAC over keys derived from a master secret.
pub struct AesCmacService {
    master_key: Vec<u8>,
}

impl AesCmacService {
    /// The master secret.
    pub closed spec fn master(&self) -> Seq<u8> {
        self.master_key@
    }

    /// Builds the service from the master secret in hex; refuses text that
    /// is not hex, then a secret shorter than 16 bytes.
    pub fn new(master_key_hex: &str) -> (r: Result<AesCmacService, AppError>)
        ensures
            match hex_decode_seq(master_key_hex@) {
                Some(k) => if k.len() >= 16 {
                    r matches Ok(s) && s.master() == k
                } else {
                    r matches Err(AppError::Internal(m))
                        && m@ == "TAG_SIGNING_MASTER must be at least 16 bytes encoded as hex"@
                },
                None => r matches Err(AppError::Internal(m))
                    && "Invalid TAG_SIGNING_MASTER: "@.is_prefix_of(m@),
            },
    {
        let master_key = match hex_decode(master_key_hex) {
            Ok(k) => k,
            Err(message) => {
                let text = String::from_str("Invalid TAG_SIGNING_MASTER: ").concat(message.as_str());
                return Err(AppError::Internal(text));
            },
        };
        if master_key.len() < 16 {
            return Err(internal("TAG_SIGNING_MASTER must be at least 16 bytes encoded as hex"));
        }
        Ok(AesCmacService { master_key })
    }

    /// The 16-byte key of a tag at a key version; refuses an identifier that
    /// is not hex.
    pub fn derive_key(&self, key_version: i32, tag_uid: &str) -> (r: Result<Vec<u8>, AppError>)
        ensures
            match hex_decode_seq(tag_uid@) {
                Some(salt) => r matches Ok(k) && k@ == derived_key(self.master(), key_version, salt)
                    && k@.len() == 16,
                None => r matches Err(AppError::Validation(m))
                    && m@ == "tag_uid must be a valid uppercase hex string"@,
            },
    {
        let salt = match hex_decode(tag_uid) {
            Ok(s) => s,
            Err(_) => return Err(validation("tag_uid must be a valid uppercase hex string")),
        };
        let prk = match hmac_sha256(salt.as_slice(), self.master_key.as_slice()) {
            Some(p) => p,
            None => return Err(internal("HMAC key rejected")),
        };
        let mut info: Vec<u8> = Vec::new();
        let kv = i32_to_be_bytes(key_version);
        append_bytes(&mut info, kv.as_slice());
        info.push(1u8);
        assert(info@ =~= i32_be(key_version) + seq![1u8]);
        let okm = match hmac_sha256(prk.as_slice(), info.as_slice()) {
            Some(o) => o,
            None => return Err(internal("HMAC key rejected")),
        };
        let mut key: Vec<u8> = Vec::new();
        let mut i: usize = 0;
        while i < 16
            invariant
                okm@.len() == 32,
                i <= 16,
                key@ == okm@.subrange(0, i as int),
            decreases 16 - i,
        {
            key.push(okm[i]);
            i = i + 1;
            assert(key@ =~= okm@.subrange(0, i as int));
        }
        Ok(key)
    }

    /// The AES-CMAC tag of a message under the derived key of a tag.
    pub fn build_cmac(&self, key_version: i32, tag_uid: &str, message: &[u8]) -> (r: Result<Vec<u8>, AppError>)
        ensures
            match tag_cmac(self.master(), key_version, tag_uid@, message@) {
                Some(t) => r matches Ok(v) && v@ == t && v@.len() == 16,
                None => r matches Err(AppError::Validation(m))
                    && m@ == "tag_uid must be a valid uppercase hex string"@,
            },
    {
        let key = self.derive_key(key_version, tag_uid)?;
        match aes128_cmac(key.as_slice(), message) {
            Some(t) => Ok(t),
            None => Err(internal("CMAC key rejected")),
        }
    }
}

impl CryptoService for AesCmacService {
    open spec fn expected_cmac(&self, key_version: i32, tag_uid: Seq<char>, message: Seq<u8>) -> Option<Seq<u8>> {
        tag_cmac(self.master(), key_version, tag_uid, message)
    }

    fn verify_cmac(&self, key_version: i32, tag_uid: &str, message: &[u8], signature: &[u8]) -> (r: Result<bool, AppError>) {
        let expected = self.build_cmac(key_version, tag_uid, message)?;
        Ok(bytes_eq(expected.as_slice(), signature))
    }

    fn generate_cmac(&self, key_version: i32, tag_uid: &str, message: &[u8]) -> (r: Result<Vec<u8>, AppError>) {
        self.build_cmac(key_version, tag_uid, message)
    }
}

/// Whether a crypto service accepts `signature` for a message.
pub open spec fn cmac_accepts<C: CryptoService>(c: &C, key_version: i32, tag_uid: Seq<char>, message: Seq<u8>, signature: Seq<u8>) -> bool {
    match c.expected_cmac(key_version, tag_uid, message) {
        Some(t) => signature == t,
        None => false,
    }
}

/// What `generate_cmac` gives for a message is accepted by `verify_cmac`
/// for the same key version, identifier and message, and nothing else is.
pub proof fn lemma_generated_cmac_verifies<C: CryptoService>(c: &C, key_version: i32, tag_uid: Seq<char>, message: Seq<u8>, signature: Seq<u8>)
    requires
        c.expected_cmac(key_version, tag_uid, message) is Some,
    ensures
        cmac_accepts(c, key_version, tag_uid, message, signature)
            <==> signature == c.expected_cmac(key_version, tag_uid, message)->0,
{
}

} // verus!
