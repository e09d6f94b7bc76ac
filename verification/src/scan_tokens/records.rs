//! One-time tokens and their batches as the database stores them, and the
//! reading of stored rows back into records.
use vstd::prelude::*;
use vstd::string::StringExecFns;
use crate::error::AppError;
use crate::time::UtcTime;
use crate::text::clone_opt_string;
use crate::scan_tokens::entities::{
    ScanToken, ScanTokenStatus, TokenBatch, TokenBatchStatus, scan_token_status_text,
    token_batch_status_text, lemma_scan_token_status_text_roundtrip,
    lemma_token_batch_status_text_roundtrip,
};

verus! {

/// A row of the `scan_tokens` table: the status is kept by name.
pub struct ScanTokenRow {
    pub token_id: [u8; 16],
    pub batch_id: Option<[u8; 16]>,
    pub tag_id: Option<[u8; 16]>,
    pub product_public_id: String,
    pub expires_at: UtcTime,
    pub status: String,
    pub created_at: UtcTime,
    pub used_at: Option<UtcTime>,
    pub used_ip: Option<String>,
    pub used_user_agent: Option<String>,
    pub revoked_at: Option<UtcTime>,
    pub token_hash: Vec<u8>,
}

/// A row of the `token_batches` table: the status is kept by name.
pub struct TokenBatchRow {
    pub id: [u8; 16],
    pub tag_id: Option<[u8; 16]>,
    pub product_public_id: String,
    pub status: String,
    pub expires_at: UtcTime,
    pub created_at: UtcTime,
    pub revoked_at: Option<UtcTime>,
}

/// `row` stores the token record `t`.
pub open spec fn row_holds_token(row: ScanTokenRow, t: ScanToken) -> bool {
    &&& row.token_id == t.token_id
    &&& row.batch_id == t.batch_id
    &&& row.tag_id == t.tag_id
    &&& row.product_public_id == t.product_public_id
    &&& row.expires_at == t.expires_at
    &&& row.status@ == scan_token_status_text(t.status)
    &&& row.created_at == t.created_at
    &&& row.used_at == t.used_at
    &&& row.used_ip == t.used_ip
    &&& row.used_user_agent == t.used_user_agent
    &&& row.revoked_at == t.revoked_at
    &&& row.token_hash@ == t.token_hash@
}

/// `row` stores the batch `b`.
pub open spec fn row_holds_batch(row: TokenBatchRow, b: TokenBatch) -> bool {
    &&& row.id == b.id
    &&& row.tag_id == b.tag_id
    &&& row.product_public_id == b.product_public_id
    &&& row.status@ == token_batch_status_text(b.status)
    &&& row.expires_at == b.expires_at
    &&& row.created_at == b.created_at
    &&& row.revoked_at == b.revoked_at
}

/// The text names a token status.
pub open spec fn known_token_status(text: Seq<char>) -> bool {
    exists|s: ScanTokenStatus| scan_token_status_text(s) == text
}

/// The text names a batch status.
pub open spec fn known_batch_status(text: Seq<char>) -> bool {
    exists|s: TokenBatchStatus| token_batch_status_text(s) == text
}

/// A copy of the bytes of a hash.
fn copy_bytes(v: &Vec<u8>) -> (r: Vec<u8>)
    ensures
        r@ == v@,
{
    let mut r: Vec<u8> = Vec::new();
    let mut i: usize = 0;
    while i < v.len()
        invariant
            i <= v@.len(),
            r@ == v@.subrange(0, i as int),
        decreases v@.len() - i,
    {
        r.push(v[i]);
        i = i + 1;
    }
    assert(r@ == v@);
    r
}

/// The row that stores a token record.
pub fn token_row(t: &ScanToken) -> (row: ScanTokenRow)
    ensures
        row_holds_token(row, *t),
{
    ScanTokenRow {
        token_id: t.token_id,
        batch_id: t.batch_id,
        tag_id: t.tag_id,
        product_public_id: t.product_public_id.clone(),
        expires_at: t.expires_at,
        status: String::from_str(t.status.as_str()),
        created_at: t.created_at,
        used_at: t.used_at,
        used_ip: clone_opt_string(&t.used_ip),
        used_user_agent: clone_opt_string(&t.used_user_agent),
        revoked_at: t.revoked_at,
        token_hash: copy_bytes(&t.token_hash),
    }
}

/// Reads a stored row back into a token record; an unknown status is the
/// internal error `Unknown scan token status`.
pub fn token_from_row(row: ScanTokenRow) -> (r: Result<ScanToken, AppError>)
    ensures
        r is Ok <==> known_token_status(row.status@),
        r matches Ok(t) ==> row_holds_token(row, t),
        r matches Err(e) ==> e matches AppError::Internal(msg) && msg@ == "Unknown scan token status"@,
{
    let status = match ScanTokenStatus::parse(row.status.as_str()) {
        Some(s) => s,
        None => return Err(AppError::Internal(String::from_str("Unknown scan token status"))),
    };
    Ok(ScanToken {
        token_id: row.token_id,
        batch_id: row.batch_id,
        tag_id: row.tag_id,
        product_public_id: row.product_public_id,
        expires_at: row.expires_at,
        status,
        created_at: row.created_at,
        used_at: row.used_at,
        used_ip: row.used_ip,
        used_user_agent: row.used_user_agent,
        revoked_at: row.revoked_at,
        token_hash: row.token_hash,
    })
}

/// The row that stores a batch.
pub fn batch_row(b: &TokenBatch) -> (row: TokenBatchRow)
    ensures
        row_holds_batch(row, *b),
{
    TokenBatchRow {
        id: b.id,
        tag_id: b.tag_id,
        product_public_id: b.product_public_id.clone(),
        status: String::from_str(b.status.as_str()),
        expires_at: b.expires_at,
        created_at: b.created_at,
        revoked_at: b.revoked_at,
    }
}

/// Reads a stored row back into a batch; an unknown status is the internal
/// error `Unknown token batch status`.
pub fn batch_from_row(row: TokenBatchRow) -> (r: Result<TokenBatch, AppError>)
    ensures
        r is Ok <==> known_batch_status(row.status@),
        r matches Ok(b) ==> row_holds_batch(row, b),
        r matches Err(e) ==> e matches AppError::Internal(msg) && msg@ == "Unknown token batch status"@,
{
    let status = match TokenBatchStatus::parse(row.status.as_str()) {
        Some(s) => s,
        None => return Err(AppError::Internal(String::from_str("Unknown token batch status"))),
    };
    Ok(TokenBatch {
        id: row.id,
        tag_id: row.tag_id,
        product_public_id: row.product_public_id,
        status,
        expires_at: row.expires_at,
        created_at: row.created_at,
        revoked_at: row.revoked_at,
    })
}

/// A stored token record reads back, and reads back as itself (its hash
/// taken by its bytes).
pub proof fn lemma_token_row_round_trip(t: ScanToken, row: ScanTokenRow, back: ScanToken)
    requires
        row_holds_token(row, t),
    ensures
        known_token_status(row.status@),
        row_holds_token(row, back) ==> back.status == t.status && back.token_hash@ == t.token_hash@
            && back.token_id == t.token_id && back.batch_id == t.batch_id && back.tag_id == t.tag_id
            && back.product_public_id == t.product_public_id && back.expires_at == t.expires_at
            && back.created_at == t.created_at && back.used_at == t.used_at && back.used_ip == t.used_ip
            && back.used_user_agent == t.used_user_agent && back.revoked_at == t.revoked_at,
{
    lemma_scan_token_status_text_roundtrip(t.status, back.status);
}

/// A stored batch reads back, and reads back as itself.
pub proof fn lemma_batch_row_round_trip(b: TokenBatch, row: TokenBatchRow, back: TokenBatch)
    requires
        row_holds_batch(row, b),
    ensures
        known_batch_status(row.status@),
        row_holds_batch(row, back) ==> back == b,
{
    lemma_token_batch_status_text_roundtrip(b.status, back.status);
}

} // verus!
