//! Tags, the items they are attached to, and the events recorded about them.
use vstd::prelude::*;
use vstd::string::StringExecFns;
use crate::time::UtcTime;
use crate::text::str_eq;

verus! {

/// An NFC tag under management.
#[derive(Clone, Debug)]
pub struct Tag {
    pub id: [u8; 16],
    pub tag_uid: String,
    pub mode: TagMode,
    pub status: TagStatus,
    pub key_version: i32,
    pub last_counter: Option<i64>,
    pub created_at: UtcTime,
    pub updated_at: UtcTime,
}

/// How a tag proves itself: a per-scan AES-CMAC over an increasing counter,
/// or a static URL carrying a one-time token.
#[derive(Clone, Copy, Debug, PartialEq, Eq, Structural)]
pub enum TagMode {
    DynamicCmac,
    OneTimeTokens,
}

pub open spec fn tag_mode_text(m: TagMode) -> Seq<char> {
    match m {
        TagMode::DynamicCmac => "dynamic_cmac"@,
        TagMode::OneTimeTokens => "one_time_tokens"@,
    }
}

impl TagMode {
    /// The name of the mode, as requests and storage write it.
    pub fn as_str(&self) -> (s: &'static str)
        ensures
            s@ == tag_mode_text(*self),
    {
        match self {
            TagMode::DynamicCmac => "dynamic_cmac",
            TagMode::OneTimeTokens => "one_time_tokens",
        }
    }

    /// The mode named `value`, or the message `Unsupported tag mode: <value>`.
    pub fn parse(value: &str) -> (r: Result<TagMode, String>)
        ensures
            match r {
                Ok(m) => tag_mode_text(m) == value@,
                Err(msg) => msg@ == "Unsupported tag mode: "@ + value@
                    && forall|m: TagMode| tag_mode_text(m) != value@,
            },
    {
        if str_eq(value, "dynamic_cmac") {
            Ok(TagMode::DynamicCmac)
        } else if str_eq(value, "one_time_tokens") {
            Ok(TagMode::OneTimeTokens)
        } else {
            Err(String::from_str("Unsupported tag mode: ").concat(value))
        }
    }
}

/// The mode stored for a tag; an unknown name is an internal error.
pub fn parse_tag_mode(value: &str) -> (r: Result<TagMode, crate::error::AppError>)
    ensures
        match r {
            Ok(m) => tag_mode_text(m) == value@,
            Err(e) => (e matches crate::error::AppError::Internal(msg) && msg@ == "Unsupported tag mode: "@ + value@)
                && forall|m: TagMode| tag_mode_text(m) != value@,
        },
{
    match TagMode::parse(value) {
        Ok(m) => Ok(m),
        Err(msg) => Err(crate::error::AppError::Internal(msg)),
    }
}

/// Whether a tag still authenticates.
#[derive(Clone, Copy, Debug, PartialEq, Eq, Structural)]
pub enum TagStatus {
    Active,
    Revoked,
}

pub open spec fn tag_status_text(s: TagStatus) -> Seq<char> {
    match s {
        TagStatus::Active => "ACTIVE"@,
        TagStatus::Revoked => "REVOKED"@,
    }
}

impl TagStatus {
    /// The stored text of the status.
    pub fn as_str(&self) -> (s: &'static str)
        ensures
            s@ == tag_status_text(*self),
    {
        match self {
            TagStatus::Active => "ACTIVE",
            TagStatus::Revoked => "REVOKED",
        }
    }

    /// The status whose stored text is `text`, if any.
    pub fn parse(text: &str) -> (r: Option<TagStatus>)
        ensures
            match r {
                Some(s) => tag_status_text(s) == text@,
                None => forall|s: TagStatus| tag_status_text(s) != text@,
            },
    {
        if str_eq(text, "ACTIVE") {
            Some(TagStatus::Active)
        } else if str_eq(text, "REVOKED") {
            Some(TagStatus::Revoked)
        } else {
            None
        }
    }

    /// A new tag is active.
    pub fn default_status() -> (s: TagStatus)
        ensures
            s == TagStatus::Active,
    {
        TagStatus::Active
    }
}

/// The product item that a tag is attached to.
#[derive(Clone, Debug)]
pub struct Item {
    pub id: [u8; 16],
    pub product_code: String,
    pub size: Option<String>,
    pub color: Option<String>,
    pub tag_id: [u8; 16],
    pub created_at: UtcTime,
    pub updated_at: UtcTime,
}

/// A record of one verification or scan attempt, whatever its outcome.
#[derive(Clone, Debug)]
pub struct ScanEvent {
    pub id: [u8; 16],
    pub tag_id: Option<[u8; 16]>,
    pub token_id: Option<[u8; 16]>,
    pub tag_uid: String,
    pub product_public_id: Option<String>,
    pub received_counter: Option<i64>,
    pub verdict: String,
    pub metadata: Option<String>,
    pub ip: Option<String>,
    pub user_agent: Option<String>,
    pub created_at: UtcTime,
}

/// Outcome of verifying a dynamic tag message.
#[derive(Clone, Copy, Debug, PartialEq, Eq, Structural)]
pub enum ScanVerdict {
    Valid,
    InvalidSignature,
    ReplayDetected,
    TagRevoked,
    TagNotFound,
}

pub open spec fn scan_verdict_text(v: ScanVerdict) -> Seq<char> {
    match v {
        ScanVerdict::Valid => "VALID"@,
        ScanVerdict::InvalidSignature => "INVALID_SIGNATURE"@,
        ScanVerdict::ReplayDetected => "REPLAY_DETECTED"@,
        ScanVerdict::TagRevoked => "TAG_REVOKED"@,
        ScanVerdict::TagNotFound => "TAG_NOT_FOUND"@,
    }
}

/// The HTTP status that answers a verification: 200 valid, 401 bad
/// signature, 409 replay, 410 revoked tag, 404 unknown tag.
pub open spec fn scan_verdict_status(v: ScanVerdict) -> u16 {
    match v {
        ScanVerdict::Valid => 200,
        ScanVerdict::InvalidSignature => 401,
        ScanVerdict::ReplayDetected => 409,
        ScanVerdict::TagRevoked => 410,
        ScanVerdict::TagNotFound => 404,
    }
}

impl ScanVerdict {
    /// The text recorded for the verdict.
    pub fn as_str(&self) -> (s: &'static str)
        ensures
            s@ == scan_verdict_text(*self),
    {
        match self {
            ScanVerdict::Valid => "VALID",
            ScanVerdict::InvalidSignature => "INVALID_SIGNATURE",
            ScanVerdict::ReplayDetected => "REPLAY_DETECTED",
            ScanVerdict::TagRevoked => "TAG_REVOKED",
            ScanVerdict::TagNotFound => "TAG_NOT_FOUND",
        }
    }

    /// The HTTP status code that answers this verdict.
    pub fn http_status(&self) -> (code: u16)
        ensures
            code == scan_verdict_status(*self),
    {
        match self {
            ScanVerdict::Valid => 200,
            ScanVerdict::InvalidSignature => 401,
            ScanVerdict::ReplayDetected => 409,
            ScanVerdict::TagRevoked => 410,
            ScanVerdict::TagNotFound => 404,
        }
    }
}

/// An administrative event about a tag.
#[derive(Clone, Debug)]
pub struct AuditEvent {
    pub id: [u8; 16],
    pub tag_id: Option<[u8; 16]>,
    pub event_type: String,
    pub metadata: Option<String>,
    pub created_at: UtcTime,
}

/// Distinct modes have distinct names, so parsing a mode's name gives the mode.
pub proof fn lemma_tag_mode_text_injective(a: TagMode, b: TagMode)
    ensures
        tag_mode_text(a) == tag_mode_text(b) ==> a == b,
{
    reveal_strlit("dynamic_cmac");
    reveal_strlit("one_time_tokens");
    assert("dynamic_cmac"@.len() == 12 && "one_time_tokens"@.len() == 15);
}

/// Distinct statuses have distinct texts, so parsing a status's text gives the status.
pub proof fn lemma_tag_status_text_injective(a: TagStatus, b: TagStatus)
    ensures
        tag_status_text(a) == tag_status_text(b) ==> a == b,
{
    reveal_strlit("ACTIVE");
    reveal_strlit("REVOKED");
    assert("ACTIVE"@.len() == 6 && "REVOKED"@.len() == 7);
}

} // verus!
