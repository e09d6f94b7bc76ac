//! The decisions of the one-time token flow: generating a batch of tokens
//! and consuming a scanned token. Loading and storing records is left to
//! the caller, which hands each result back to the next step.
use vstd::prelude::*;
use vstd::string::StringExecFns;
use vstd::utf8::encode_utf8;
use crate::text::{is_blank, all_ws, str_eq, clone_opt_string};
use crate::crypto::{random_uuid_bytes, sha256_spec, utc_timestamp_valid, is_base64url_char};
use crate::error::{AppError, validation};
use crate::time::UtcTime;
use crate::scan_tokens::entities::{ScanToken, ScanTokenStatus, TokenBatch, TokenBatchStatus, StaticScanResult,
    static_scan_result_text};
use crate::scan_tokens::codec::{HmacScanTokenService, GeneratedScanToken, VerifiedScanToken, token_text,
    check_token, TokenDefect};
use crate::tags::entities::ScanEvent;

verus! {

/// What a generated token must satisfy: its stored record and its text agree
/// with the batch, the product and the expiry.
pub open spec fn token_matches_batch(
    secret: Seq<u8>,
    record: ScanToken,
    generated: GeneratedScanToken,
    batch: TokenBatch,
    product_public_id: Seq<char>,
    now: UtcTime,
) -> bool {
    &&& record.token_id == generated.token_id
    &&& record.batch_id == Some(batch.id)
    &&& record.tag_id == batch.tag_id
    &&& record.product_public_id@ == product_public_id
    &&& record.expires_at == batch.expires_at
    &&& record.status == ScanTokenStatus::Unused
    &&& record.created_at == now
    &&& record.used_at is None
    &&& record.used_ip is None
    &&& record.used_user_agent is None
    &&& record.revoked_at is None
    &&& record.token_hash@ == sha256_spec(encode_utf8(generated.token@))
    &&& generated.token@ == token_text(secret, generated.token_id@, product_public_id, batch.expires_at.secs)
    &&& (utc_timestamp_valid(batch.expires_at.secs) ==> check_token(secret, product_public_id, generated.token@)
        == Ok::<(Seq<u8>, i64), TokenDefect>((generated.token_id@, batch.expires_at.secs)))
    &&& generated.token@.len() > 0
    &&& forall|i: int| 0 <= i < generated.token@.len() ==> is_base64url_char(#[trigger] generated.token@[i])
}

/// A new active batch and `count` fresh tokens for it, each stored unused
/// with the hash of its text.
pub fn plan_token_batch(
    service: &HmacScanTokenService,
    tag_id: Option<[u8; 16]>,
    product_public_id: &str,
    count: u32,
    now: UtcTime,
    expires_at: UtcTime,
) -> (r: Result<(TokenBatch, Vec<ScanToken>, Vec<GeneratedScanToken>), AppError>)
    ensures
        r matches Ok((batch, records, generated)) && {
            &&& batch.tag_id == tag_id
            &&& batch.product_public_id@ == product_public_id@
            &&& batch.status == TokenBatchStatus::Active
            &&& batch.expires_at == expires_at
            &&& batch.created_at == now
            &&& batch.revoked_at is None
            &&& records@.len() == count
            &&& generated@.len() == count
            &&& forall|i: int| 0 <= i < count ==> token_matches_batch(service.secret(), #[trigger] records@[i],
                generated@[i], batch, product_public_id@, now)
        },
{
    let batch_id = random_uuid_bytes();
    let batch = TokenBatch {
        id: batch_id,
        tag_id,
        product_public_id: String::from_str(product_public_id),
        status: TokenBatchStatus::Active,
        expires_at,
        created_at: now,
        revoked_at: None,
    };
    let mut records: Vec<ScanToken> = Vec::new();
    let mut generated: Vec<GeneratedScanToken> = Vec::new();
    let mut k: u32 = 0;
    while k < count
        invariant
            k <= count,
            records@.len() == k,
            generated@.len() == k,
            batch.id == batch_id,
            batch.tag_id == tag_id,
            batch.expires_at == expires_at,
            forall|i: int| 0 <= i < k ==> token_matches_batch(service.secret(), #[trigger] records@[i],
                generated@[i], batch, product_public_id@, now),
        decreases count - k,
    {
        let g = match service.generate_token(product_public_id, expires_at) {
            Ok(g) => g,
            Err(e) => return Err(e),
        };
        let record = ScanToken {
            token_id: g.token_id,
            batch_id: Some(batch_id),
            tag_id,
            product_public_id: String::from_str(product_public_id),
            expires_at,
            status: ScanTokenStatus::Unused,
            created_at: now,
            used_at: None,
            used_ip: None,
            used_user_agent: None,
            revoked_at: None,
            token_hash: service.hash_token(g.token.as_str()),
        };
        records.push(record);
        generated.push(g);
        k = k + 1;
    }
    Ok((batch, records, generated))
}

/// A request for a batch of one-time tokens for a product.
pub struct GenerateScanTokensRequest {
    pub product_public_id: String,
    pub count: u32,
    pub ttl_seconds: i64,
}

/// One generated token as returned to the administrator.
pub struct GeneratedScanTokenUrl {
    pub token_id: [u8; 16],
    pub token: String,
    pub expires_at: UtcTime,
}

/// The answer to a batch generation.
pub struct GenerateScanTokensResponse {
    pub product_public_id: String,
    pub batch_id: [u8; 16],
    pub tokens: Vec<GeneratedScanTokenUrl>,
}

/// A valid generation request: a product id that is not blank, 1 to 1000
/// tokens, and a positive lifetime.
pub open spec fn valid_generate_request(r: GenerateScanTokensRequest) -> bool {
    !all_ws(r.product_public_id@) && 1 <= r.count <= 1000 && r.ttl_seconds > 0
}

/// Checks a generation request, field by field, with one message per field.
pub fn validate_generate_request(request: &GenerateScanTokensRequest) -> (r: Result<(), AppError>)
    ensures
        r is Ok <==> valid_generate_request(*request),
        r matches Err(e) ==> e matches AppError::Validation(m) && if all_ws(request.product_public_id@) {
            m@ == "product_public_id cannot be empty"@
        } else if !(1 <= request.count <= 1000) {
            m@ == "count must be between 1 and 1000"@
        } else {
            m@ == "ttl_seconds must be greater than 0"@
        },
{
    if is_blank(request.product_public_id.as_str()) {
        return Err(validation("product_public_id cannot be empty"));
    }
    if request.count == 0 || request.count > 1000 {
        return Err(validation("count must be between 1 and 1000"));
    }
    if request.ttl_seconds <= 0 {
        return Err(validation("ttl_seconds must be greater than 0"));
    }
    Ok(())
}

/// The instant `ttl_seconds` after `now`, or `None` when the seconds
/// overflow an `i64`.
pub fn expiry_after(now: UtcTime, ttl_seconds: i64) -> (r: Option<UtcTime>)
    ensures
        match r {
            Some(t) => t.secs == now.secs + ttl_seconds && t.nanos == now.nanos,
            None => now.secs + ttl_seconds > i64::MAX || now.secs + ttl_seconds < i64::MIN,
        },
{
    match now.secs.checked_add(ttl_seconds) {
        Some(secs) => Some(UtcTime { secs, nanos: now.nanos }),
        None => None,
    }
}

/// Everything that a batch generation stores and answers.
pub struct GenerateScanTokensPlan {
    pub batch: TokenBatch,
    pub tokens: Vec<ScanToken>,
    pub response: GenerateScanTokensResponse,
}

/// The batch for a validated request once the product's existence is known:
/// `ProductNotFound` for an unknown product, otherwise a product-level batch
/// of `count` tokens expiring at `expires_at`, and the answer listing them.
pub fn plan_generate_scan_tokens(
    service: &HmacScanTokenService,
    request: &GenerateScanTokensRequest,
    product_exists: bool,
    now: UtcTime,
    expires_at: UtcTime,
) -> (r: Result<GenerateScanTokensPlan, AppError>)
    requires
        valid_generate_request(*request),
    ensures
        !product_exists <==> r == Err::<GenerateScanTokensPlan, AppError>(AppError::ProductNotFound),
        product_exists ==> (r matches Ok(plan) && {
            &&& plan.batch.tag_id is None
            &&& plan.batch.product_public_id@ == request.product_public_id@
            &&& plan.batch.status == TokenBatchStatus::Active
            &&& plan.batch.expires_at == expires_at
            &&& plan.batch.created_at == now
            &&& plan.response.product_public_id@ == request.product_public_id@
            &&& plan.response.batch_id == plan.batch.id
            &&& plan.tokens@.len() == request.count
            &&& plan.response.tokens@.len() == request.count
            &&& forall|i: int| 0 <= i < request.count ==> {
                &&& token_matches_batch(service.secret(), #[trigger] plan.tokens@[i],
                    GeneratedScanToken { token_id: plan.response.tokens@[i].token_id,
                        token: plan.response.tokens@[i].token },
                    plan.batch, request.product_public_id@, now)
                &&& plan.response.tokens@[i].expires_at == expires_at
            }
        }),
{
    if !product_exists {
        return Err(AppError::ProductNotFound);
    }
    let (batch, tokens, generated) = match plan_token_batch(
        service, None, request.product_public_id.as_str(), request.count, now, expires_at) {
        Ok(t) => t,
        Err(e) => return Err(e),
    };
    let mut urls: Vec<GeneratedScanTokenUrl> = Vec::new();
    let mut gen = generated;
    let ghost all = gen@;
    let mut k: usize = 0;
    while k < gen.len()
        invariant
            k <= gen@.len(),
            gen@ == all,
            urls@.len() == k,
            forall|i: int| 0 <= i < k ==> #[trigger] urls@[i].token_id == all[i].token_id
                && urls@[i].token == all[i].token && urls@[i].expires_at == expires_at,
        decreases gen@.len() - k,
    {
        let g = &gen[k];
        urls.push(GeneratedScanTokenUrl { token_id: g.token_id, token: g.token.clone(), expires_at });
        k = k + 1;
    }
    let batch_id = batch.id;
    Ok(GenerateScanTokensPlan {
        batch,
        tokens,
        response: GenerateScanTokensResponse {
            product_public_id: request.product_public_id.clone(),
            batch_id,
            tokens: urls,
        },
    })
}

/// A scan of a one-time token.
pub struct ConsumeScanTokenRequest {
    pub product_public_id: String,
    pub token: String,
    pub ip: Option<String>,
    pub user_agent: Option<String>,
}

/// The answer to a scan.
pub struct ConsumeScanTokenResponse {
    pub result: StaticScanResult,
    pub authentic: bool,
    pub product_public_id: String,
}

/// Refuses a scan without a product id, then one without a token.
pub fn validate_consume_request(request: &ConsumeScanTokenRequest) -> (r: Result<(), AppError>)
    ensures
        r is Ok <==> !all_ws(request.product_public_id@) && !all_ws(request.token@),
        r matches Err(e) ==> e matches AppError::Validation(m) && if all_ws(request.product_public_id@) {
            m@ == "pid is required"@
        } else {
            m@ == "t is required"@
        },
{
    if is_blank(request.product_public_id.as_str()) {
        return Err(validation("pid is required"));
    }
    if is_blank(request.token.as_str()) {
        return Err(validation("t is required"));
    }
    Ok(())
}

/// Where a scan stands: decided, or waiting on the stored record of a
/// token, or on the atomic `UNUSED -> USED` update of it.
#[derive(Debug)]
pub enum ConsumeStep {
    Decided { token_id: Option<[u8; 16]>, result: StaticScanResult },
    LoadToken { verified: VerifiedScanToken },
    ConsumeToken { token_id: [u8; 16] },
}

/// First step of a scan: a token that fails its check is `Invalid` with no
/// token id; a valid one must be looked up.
pub fn consume_begin(service: &HmacScanTokenService, request: &ConsumeScanTokenRequest) -> (s: ConsumeStep)
    ensures
        match check_token(service.secret(), request.product_public_id@, request.token@) {
            Ok((id, secs)) => s matches ConsumeStep::LoadToken { verified } && verified.token_id@ == id
                && verified.expires_at == (UtcTime { secs, nanos: 0 }),
            Err(_) => s == (ConsumeStep::Decided { token_id: None, result: StaticScanResult::Invalid }),
        },
{
    match service.parse_and_verify_token(request.product_public_id.as_str(), request.token.as_str()) {
        Ok(verified) => ConsumeStep::LoadToken { verified },
        Err(_) => ConsumeStep::Decided { token_id: None, result: StaticScanResult::Invalid },
    }
}

/// How a verified token is answered once its stored record is known: unknown
/// tokens are `NotFound`; a record for another product is `Invalid`; then a
/// revoked one is `Revoked`, a used one `Replay`, and an expired one (by its
/// record or by its text) `Expired`; any other must be consumed.
pub open spec fn stored_token_step(
    product_public_id: Seq<char>,
    verified_id: Seq<u8>,
    verified_expiry: UtcTime,
    stored: Option<ScanToken>,
    now: UtcTime,
) -> (Option<Seq<u8>>, Option<StaticScanResult>) {
    match stored {
        None => (Some(verified_id), Some(StaticScanResult::NotFound)),
        Some(t) => if t.product_public_id@ != product_public_id {
            (Some(t.token_id@), Some(StaticScanResult::Invalid))
        } else if t.status == ScanTokenStatus::Revoked {
            (Some(t.token_id@), Some(StaticScanResult::Revoked))
        } else if t.status == ScanTokenStatus::Used {
            (Some(t.token_id@), Some(StaticScanResult::Replay))
        } else if t.expires_at.earlier(now) || verified_expiry.earlier(now) {
            (Some(t.token_id@), Some(StaticScanResult::Expired))
        } else {
            (Some(t.token_id@), None)
        },
    }
}

/// Second step of a scan, given the stored record of the verified token.
pub fn consume_after_lookup(
    request: &ConsumeScanTokenRequest,
    verified: &VerifiedScanToken,
    stored: Option<&ScanToken>,
    now: UtcTime,
) -> (s: ConsumeStep)
    ensures
        ({
            let (id, decided) = stored_token_step(request.product_public_id@, verified.token_id@,
                verified.expires_at, match stored { Some(t) => Some(*t), None => None }, now);
            match decided {
                Some(result) => s matches ConsumeStep::Decided { token_id, result: r }
                    && r == result && (token_id matches Some(t) && Some(t@) == id),
                None => s matches ConsumeStep::ConsumeToken { token_id } && Some(token_id@) == id,
            }
        }),
{
    match stored {
        None => ConsumeStep::Decided { token_id: Some(verified.token_id), result: StaticScanResult::NotFound },
        Some(token) => {
            if !str_eq(token.product_public_id.as_str(), request.product_public_id.as_str()) {
                ConsumeStep::Decided { token_id: Some(token.token_id), result: StaticScanResult::Invalid }
            } else if token.status == ScanTokenStatus::Revoked {
                ConsumeStep::Decided { token_id: Some(token.token_id), result: StaticScanResult::Revoked }
            } else if token.status == ScanTokenStatus::Used {
                ConsumeStep::Decided { token_id: Some(token.token_id), result: StaticScanResult::Replay }
            } else if token.expires_at.is_before(&now) || verified.expires_at.is_before(&now) {
                ConsumeStep::Decided { token_id: Some(token.token_id), result: StaticScanResult::Expired }
            } else {
                ConsumeStep::ConsumeToken { token_id: token.token_id }
            }
        },
    }
}

/// Last step of a scan: the token was consumed by this scan, or another
/// scan got there first.
pub fn consume_after_update(token_id: [u8; 16], consumed: bool) -> (s: ConsumeStep)
    ensures
        s == (ConsumeStep::Decided {
            token_id: Some(token_id),
            result: if consumed { StaticScanResult::Authentic } else { StaticScanResult::Replay },
        }),
{
    let result = if consumed { StaticScanResult::Authentic } else { StaticScanResult::Replay };
    ConsumeStep::Decided { token_id: Some(token_id), result }
}

/// Metadata recorded with every one-time token scan.
pub open spec fn one_time_scan_metadata() -> Seq<char> {
    "{\"mode\":\"one_time_tokens\"}"@
}

/// The event recorded for a scan.
pub fn consume_scan_event(
    request: &ConsumeScanTokenRequest,
    token_id: Option<[u8; 16]>,
    result: StaticScanResult,
    now: UtcTime,
) -> (e: ScanEvent)
    ensures
        e.tag_id is None,
        e.token_id == token_id,
        e.tag_uid@.len() == 0,
        e.product_public_id matches Some(p) && p@ == request.product_public_id@,
        e.received_counter is None,
        e.verdict@ == static_scan_result_text(result),
        e.metadata matches Some(m) && m@ == one_time_scan_metadata(),
        e.ip == request.ip,
        e.user_agent == request.user_agent,
        e.created_at == now,
{
    ScanEvent {
        id: random_uuid_bytes(),
        tag_id: None,
        token_id,
        tag_uid: String::new(),
        product_public_id: Some(request.product_public_id.clone()),
        received_counter: None,
        verdict: String::from_str(result.as_str()),
        metadata: Some(String::from_str("{\"mode\":\"one_time_tokens\"}")),
        ip: clone_opt_string(&request.ip),
        user_agent: clone_opt_string(&request.user_agent),
        created_at: now,
    }
}

/// The answer to a scan: authentic exactly when the result is `OK`.
pub fn consume_response(request: &ConsumeScanTokenRequest, result: StaticScanResult) -> (r: ConsumeScanTokenResponse)
    ensures
        r.result == result,
        r.authentic == (result == StaticScanResult::Authentic),
        r.product_public_id@ == request.product_public_id@,
{
    ConsumeScanTokenResponse {
        result,
        authentic: result == StaticScanResult::Authentic,
        product_public_id: request.product_public_id.clone(),
    }
}

} // verus!
