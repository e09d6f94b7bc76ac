//! Verification of a dynamic tag message `(tag_uid, counter, cmac)`.
use vstd::prelude::*;
use vstd::string::StringExecFns;
use crate::bytes::{hex_decode, hex_decode_seq};
use crate::crypto::random_uuid_bytes;
use crate::error::AppError;
use crate::time::UtcTime;
use crate::tags::entities::{Tag, TagMode, TagStatus, ScanEvent, ScanVerdict, scan_verdict_text};
use crate::tags::provision::{build_dynamic_message, dynamic_message};
use crate::tags::cmac::CryptoService;

verus! {

/// A message read from a dynamic tag.
pub struct VerifyRequest {
    pub tag_uid: String,
    pub counter: i64,
    pub cmac: String,
}

/// The tag a verification was about.
#[derive(Debug, Clone, Copy)]
pub struct ProductInfo {
    pub tag_id: [u8; 16],
}

/// The answer to a verification.
#[derive(Debug)]
pub struct VerifyResponse {
    pub verdict: ScanVerdict,
    pub product_info: Option<ProductInfo>,
}

/// Where a verification stands: decided, or authentic and waiting on the
/// atomic "counter greater than the last one" update of the tag.
#[derive(Debug)]
pub enum VerifyStep {
    Decided { verdict: ScanVerdict },
    UpdateCounter { tag_id: [u8; 16], counter: i64 },
}

/// The signature bytes of a hex `cmac`, empty when it is not hex.
pub open spec fn signature_bytes(cmac: Seq<char>) -> Seq<u8> {
    match hex_decode_seq(cmac) {
        Some(b) => b,
        None => Seq::empty(),
    }
}

/// How a message from `tag` is judged before any counter update: an unknown
/// tag, a revoked tag, a tag of another mode, an empty or non-hex signature
/// and a wrong signature are decided; an authentic one needs the counter
/// update (`Ok(None)`); `Err` when the message or the expected tag cannot
/// be computed.
pub open spec fn verify_decision<C: CryptoService>(
    crypto: &C,
    uid: Seq<char>,
    tag: Option<Tag>,
    counter: i64,
    cmac: Seq<char>,
) -> Result<Option<ScanVerdict>, ()> {
    match tag {
        None => Ok(Some(ScanVerdict::TagNotFound)),
        Some(t) => if t.status == TagStatus::Revoked {
            Ok(Some(ScanVerdict::TagRevoked))
        } else if t.mode != TagMode::DynamicCmac {
            Ok(Some(ScanVerdict::InvalidSignature))
        } else if signature_bytes(cmac).len() == 0 {
            Ok(Some(ScanVerdict::InvalidSignature))
        } else {
            match dynamic_message(uid, counter) {
                None => Err(()),
                Some(m) => match crypto.expected_cmac(t.key_version, uid, m) {
                    None => Err(()),
                    Some(expected) => if signature_bytes(cmac) == expected {
                        Ok(None)
                    } else {
                        Ok(Some(ScanVerdict::InvalidSignature))
                    },
                },
            }
        },
    }
}

/// Judges a message from the tag found under its normalised identifier.
pub fn verify_decide<C: CryptoService>(
    crypto: &C,
    normalized_uid: &str,
    tag: Option<&Tag>,
    request: &VerifyRequest,
) -> (r: Result<VerifyStep, AppError>)
    ensures
        match verify_decision(crypto, normalized_uid@, match tag { Some(t) => Some(*t), None => None },
            request.counter, request.cmac@) {
            Ok(Some(v)) => r == Ok::<VerifyStep, AppError>(VerifyStep::Decided { verdict: v }),
            Ok(None) => r == Ok::<VerifyStep, AppError>(
                VerifyStep::UpdateCounter { tag_id: tag->0.id, counter: request.counter }),
            Err(()) => r is Err && (dynamic_message(normalized_uid@, request.counter) is None
                ==> (r matches Err(AppError::Validation(msg)) && if request.counter < 0 {
                    msg@ == "counter must be greater than or equal to 0"@
                } else {
                    msg@ == "tag_uid must be a valid uppercase hex string"@
                })),
        },
{
    let tag = match tag {
        None => return Ok(VerifyStep::Decided { verdict: ScanVerdict::TagNotFound }),
        Some(t) => t,
    };
    if tag.status == TagStatus::Revoked {
        return Ok(VerifyStep::Decided { verdict: ScanVerdict::TagRevoked });
    }
    if tag.mode != TagMode::DynamicCmac {
        return Ok(VerifyStep::Decided { verdict: ScanVerdict::InvalidSignature });
    }
    let signature = match hex_decode(request.cmac.as_str()) {
        Ok(b) => b,
        Err(_) => Vec::new(),
    };
    if signature.len() == 0 {
        return Ok(VerifyStep::Decided { verdict: ScanVerdict::InvalidSignature });
    }
    let message = build_dynamic_message(normalized_uid, request.counter)?;
    let valid = crypto.verify_cmac(tag.key_version, normalized_uid, message.as_slice(), signature.as_slice())?;
    if !valid {
        return Ok(VerifyStep::Decided { verdict: ScanVerdict::InvalidSignature });
    }
    Ok(VerifyStep::UpdateCounter { tag_id: tag.id, counter: request.counter })
}

/// The verdict of an authentic message once the counter update has run: it
/// applied (the counter was new) or it did not (a replay).
pub fn verdict_after_update(updated: bool) -> (v: ScanVerdict)
    ensures
        v == if updated { ScanVerdict::Valid } else { ScanVerdict::ReplayDetected },
{
    if updated { ScanVerdict::Valid } else { ScanVerdict::ReplayDetected }
}

/// Metadata recorded with every dynamic verification.
pub open spec fn dynamic_scan_metadata() -> Seq<char> {
    "{\"mode\":\"dynamic_cmac\"}"@
}

/// The event recorded for a verification, whatever its verdict.
pub fn verify_scan_event(
    normalized_uid: &str,
    tag_id: Option<[u8; 16]>,
    counter: i64,
    verdict: ScanVerdict,
    now: UtcTime,
) -> (e: ScanEvent)
    ensures
        e.tag_id == tag_id,
        e.token_id is None,
        e.tag_uid@ == normalized_uid@,
        e.product_public_id is None,
        e.received_counter == Some(counter),
        e.verdict@ == scan_verdict_text(verdict),
        e.metadata matches Some(m) && m@ == dynamic_scan_metadata(),
        e.ip is None,
        e.user_agent is None,
        e.created_at == now,
{
    ScanEvent {
        id: random_uuid_bytes(),
        tag_id,
        token_id: None,
        tag_uid: String::from_str(normalized_uid),
        product_public_id: None,
        received_counter: Some(counter),
        verdict: String::from_str(verdict.as_str()),
        metadata: Some(String::from_str("{\"mode\":\"dynamic_cmac\"}")),
        ip: None,
        user_agent: None,
        created_at: now,
    }
}

/// The answer to a verification: the verdict, and the tag when one was found.
pub fn verify_response(verdict: ScanVerdict, tag_id: Option<[u8; 16]>) -> (r: VerifyResponse)
    ensures
        r.verdict == verdict,
        match tag_id {
            Some(id) => r.product_info matches Some(p) && p.tag_id == id,
            None => r.product_info is None,
        },
{
    VerifyResponse {
        verdict,
        product_info: match tag_id {
            Some(id) => Some(ProductInfo { tag_id: id }),
            None => None,
        },
    }
}

} // verus!
