//! The records of the one-time token flow and their textual statuses.
use vstd::prelude::*;
use crate::time::UtcTime;
use crate::text::str_eq;

verus! {

/// A one-time token as it is stored: only its hash is kept, never its text.
#[derive(Clone, Debug)]
pub struct ScanToken {
    pub token_id: [u8; 16],
    pub batch_id: Option<[u8; 16]>,
    pub tag_id: Option<[u8; 16]>,
    pub product_public_id: String,
    pub expires_at: UtcTime,
    pub status: ScanTokenStatus,
    pub created_at: UtcTime,
    pub used_at: Option<UtcTime>,
    pub used_ip: Option<String>,
    pub used_user_agent: Option<String>,
    pub revoked_at: Option<UtcTime>,
    pub token_hash: Vec<u8>,
}

#[derive(Clone, Copy, Debug, PartialEq, Eq, Structural)]
pub enum ScanTokenStatus {
    Unused,
    Used,
    Revoked,
}

pub open spec fn scan_token_status_text(s: ScanTokenStatus) -> Seq<char> {
    match s {
        ScanTokenStatus::Unused => "UNUSED"@,
        ScanTokenStatus::Used => "USED"@,
        ScanTokenStatus::Revoked => "REVOKED"@,
    }
}

impl ScanTokenStatus {
    /// The stored text of the status.
    pub fn as_str(&self) -> (s: &'static str)
        ensures
            s@ == scan_token_status_text(*self),
    {
        match self {
            ScanTokenStatus::Unused => "UNUSED",
            ScanTokenStatus::Used => "USED",
            ScanTokenStatus::Revoked => "REVOKED",
        }
    }

    /// The status whose stored text is `text`, if any.
    pub fn parse(text: &str) -> (r: Option<ScanTokenStatus>)
        ensures
            match r {
                Some(s) => scan_token_status_text(s) == text@,
                None => forall|s: ScanTokenStatus| scan_token_status_text(s) != text@,
            },
    {
        if str_eq(text, "UNUSED") {
            Some(ScanTokenStatus::Unused)
        } else if str_eq(text, "USED") {
            Some(ScanTokenStatus::Used)
        } else if str_eq(text, "REVOKED") {
            Some(ScanTokenStatus::Revoked)
        } else {
            None
        }
    }
}

/// A batch of tokens generated together, for a product or a tag.
#[derive(Clone, Debug)]
pub struct TokenBatch {
    pub id: [u8; 16],
    pub tag_id: Option<[u8; 16]>,
    pub product_public_id: String,
    pub status: TokenBatchStatus,
    pub expires_at: UtcTime,
    pub created_at: UtcTime,
    pub revoked_at: Option<UtcTime>,
}

#[derive(Clone, Copy, Debug, PartialEq, Eq, Structural)]
pub enum TokenBatchStatus {
    Active,
    Revoked,
}

pub open spec fn token_batch_status_text(s: TokenBatchStatus) -> Seq<char> {
    match s {
        TokenBatchStatus::Active => "ACTIVE"@,
        TokenBatchStatus::Revoked => "REVOKED"@,
    }
}

impl TokenBatchStatus {
    /// The stored text of the status.
    pub fn as_str(&self) -> (s: &'static str)
        ensures
            s@ == token_batch_status_text(*self),
    {
        match self {
            TokenBatchStatus::Active => "ACTIVE",
            TokenBatchStatus::Revoked => "REVOKED",
        }
    }

    /// The status whose stored text is `text`, if any.
    pub fn parse(text: &str) -> (r: Option<TokenBatchStatus>)
        ensures
            match r {
                Some(s) => token_batch_status_text(s) == text@,
                None => forall|s: TokenBatchStatus| token_batch_status_text(s) != text@,
            },
    {
        if str_eq(text, "ACTIVE") {
            Some(TokenBatchStatus::Active)
        } else if str_eq(text, "REVOKED") {
            Some(TokenBatchStatus::Revoked)
        } else {
            None
        }
    }
}

/// Outcome of scanning a one-time token.
#[derive(Clone, Copy, Debug, PartialEq, Eq, Structural)]
pub enum StaticScanResult {
    Authentic,
    Replay,
    Invalid,
    Expired,
    Revoked,
    NotFound,
}

pub open spec fn static_scan_result_text(r: StaticScanResult) -> Seq<char> {
    match r {
        StaticScanResult::Authentic => "OK"@,
        StaticScanResult::Replay => "REPLAY"@,
        StaticScanResult::Invalid => "INVALID"@,
        StaticScanResult::Expired => "EXPIRED"@,
        StaticScanResult::Revoked => "REVOKED"@,
        StaticScanResult::NotFound => "NOT_FOUND"@,
    }
}

/// The HTTP status that answers a scan: 200 on a first authentic use, 400
/// for a malformed or forged token, 403 when revoked, 404 when unknown, 409
/// on replay and 410 when expired.
pub open spec fn static_scan_status(r: StaticScanResult) -> u16 {
    match r {
        StaticScanResult::Authentic => 200,
        StaticScanResult::Invalid => 400,
        StaticScanResult::Revoked => 403,
        StaticScanResult::NotFound => 404,
        StaticScanResult::Replay => 409,
        StaticScanResult::Expired => 410,
    }
}

impl StaticScanResult {
    /// The text recorded for the outcome.
    pub fn as_str(&self) -> (s: &'static str)
        ensures
            s@ == static_scan_result_text(*self),
    {
        match self {
            StaticScanResult::Authentic => "OK",
            StaticScanResult::Replay => "REPLAY",
            StaticScanResult::Invalid => "INVALID",
            StaticScanResult::Expired => "EXPIRED",
            StaticScanResult::Revoked => "REVOKED",
            StaticScanResult::NotFound => "NOT_FOUND",
        }
    }

    /// The HTTP status code that answers this outcome.
    pub fn http_status(&self) -> (code: u16)
        ensures
            code == static_scan_status(*self),
    {
        match self {
            StaticScanResult::Authentic => 200,
            StaticScanResult::Invalid => 400,
            StaticScanResult::Revoked => 403,
            StaticScanResult::NotFound => 404,
            StaticScanResult::Replay => 409,
            StaticScanResult::Expired => 410,
        }
    }
}

/// Reading back the stored text of a token status gives the status.
pub proof fn lemma_scan_token_status_text_roundtrip(s: ScanTokenStatus, t: ScanTokenStatus)
    ensures
        scan_token_status_text(s) == scan_token_status_text(t) ==> s == t,
{
    reveal_strlit("UNUSED");
    reveal_strlit("USED");
    reveal_strlit("REVOKED");
    assert("UNUSED"@.len() == 6 && "USED"@.len() == 4 && "REVOKED"@.len() == 7);
    match s {
        ScanTokenStatus::Unused => {},
        ScanTokenStatus::Used => {},
        ScanTokenStatus::Revoked => {},
    }
}

/// Reading back the stored text of a batch status gives the status.
pub proof fn lemma_token_batch_status_text_roundtrip(s: TokenBatchStatus, t: TokenBatchStatus)
    ensures
        token_batch_status_text(s) == token_batch_status_text(t) ==> s == t,
{
    reveal_strlit("ACTIVE");
    reveal_strlit("REVOKED");
    assert("ACTIVE"@.len() == 6 && "REVOKED"@.len() == 7);
}

} // verus!
