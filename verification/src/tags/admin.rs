//! Administration of tags: test vectors for dynamic tags, revocation, key
//! rotation, reconfiguration, and the audit trail of these actions.
use vstd::prelude::*;
use vstd::string::StringExecFns;
use crate::bytes::{hex_encode_upper, hex_upper_seq};
use crate::crypto::random_uuid_bytes;
use crate::error::{AppError, validation};
use crate::text::{i64_to_decimal, int_decimal, json_string, json_string_spec};
use crate::time::UtcTime;
use crate::scan_tokens::codec::{HmacScanTokenService, GeneratedScanToken};
use crate::scan_tokens::entities::{ScanToken, TokenBatch, TokenBatchStatus};
use crate::scan_tokens::usecases::{plan_token_batch, token_matches_batch};
use crate::tags::entities::{Tag, TagMode, TagStatus, Item, AuditEvent, tag_mode_text};
use crate::tags::provision::{build_dynamic_message, dynamic_message, build_scan_path, scan_path,
    OneTimeTokenRecord, GeneratedBatch, validate_token_batch, COUNTER_INITIAL};
use crate::tags::cmac::CryptoService;

verus! {

/// A request for the next authentic messages of a dynamic tag.
pub struct NextMessagesRequest {
    pub tag_id: [u8; 16],
    pub count: u32,
    pub starting_counter: Option<i64>,
}

/// One authentic message: a counter and its tag in upper-case hex.
pub struct GeneratedMessage {
    pub counter: i64,
    pub cmac: String,
}

/// The messages a dynamic tag would produce next.
pub struct NextMessagesResponse {
    pub tag_id: [u8; 16],
    pub tag_uid: String,
    pub key_version: i32,
    pub messages: Vec<GeneratedMessage>,
}

/// Refuses a request for fewer than 1 or more than 50 messages.
pub fn validate_next_messages_count(count: u32) -> (r: Result<(), AppError>)
    ensures
        r is Ok <==> 1 <= count <= 50,
        r matches Err(e) ==> e matches AppError::Validation(m) && m@ == "count must be between 1 and 50"@,
{
    if count == 0 || count > 50 {
        return Err(validation("count must be between 1 and 50"));
    }
    Ok(())
}

/// The first counter of the next messages: the one asked for, or the one
/// after the last accepted counter (after 0 when none was accepted).
pub open spec fn next_start(tag: Tag, starting_counter: Option<i64>) -> int {
    match starting_counter {
        Some(s) => s as int,
        None => match tag.last_counter {
            Some(l) => l + 1,
            None => 1,
        },
    }
}

/// The counters of the next messages fit in an `i64` wherever they are
/// computed: for a valid count and an active dynamic tag whose first
/// counter is above 0.
pub open spec fn next_messages_in_range_spec(tag: Option<&Tag>, request: &NextMessagesRequest) -> bool {
    match tag {
        Some(t) => 1 <= request.count <= 50 && t.status != TagStatus::Revoked && t.mode == TagMode::DynamicCmac
            && next_start(*t, request.starting_counter) > 0
            ==> next_start(*t, request.starting_counter) + request.count <= i64::MAX + 1,
        None => true,
    }
}

/// Whether the counters of the next messages fit in an `i64`, which
/// `next_messages_for_tag` needs.
pub fn next_messages_in_range(tag: Option<&Tag>, request: &NextMessagesRequest) -> (b: bool)
    ensures
        b == next_messages_in_range_spec(tag, request),
{
    match tag {
        None => true,
        Some(t) => if request.count == 0 || request.count > 50 || t.status == TagStatus::Revoked
            || t.mode != TagMode::DynamicCmac { true } else {
            let start: i128 = match request.starting_counter {
                Some(s) => s as i128,
                None => match t.last_counter {
                    Some(l) => l as i128 + 1,
                    None => 1,
                },
            };
            start <= 0 || start + request.count as i128 <= i64::MAX as i128 + 1
        },
    }
}

/// The tag of the message with `counter` from `tag`.
pub open spec fn message_cmac<C: CryptoService>(crypto: &C, tag: Tag, counter: i64) -> Option<Seq<u8>> {
    match dynamic_message(tag.tag_uid@, counter) {
        Some(m) => crypto.expected_cmac(tag.key_version, tag.tag_uid@, m),
        None => None,
    }
}

/// The next `count` messages of a dynamic tag, which the tag's state does
/// not record: counters `start, start + 1, ...` and their tags.
pub fn next_messages_for_tag<C: CryptoService>(
    crypto: &C,
    tag: Option<&Tag>,
    request: &NextMessagesRequest,
) -> (r: Result<NextMessagesResponse, AppError>)
    requires
        next_messages_in_range_spec(tag, request),
    ensures
        !(1 <= request.count <= 50) ==> (r matches Err(AppError::Validation(m))
            && m@ == "count must be between 1 and 50"@),
        1 <= request.count <= 50 ==> match tag {
            None => r == Err::<NextMessagesResponse, AppError>(AppError::TagNotFound),
            Some(t) => if t.status == TagStatus::Revoked {
                r == Err::<NextMessagesResponse, AppError>(AppError::TagRevoked)
            } else if t.mode != TagMode::DynamicCmac {
                r == Err::<NextMessagesResponse, AppError>(AppError::UnsupportedTagMode)
            } else if next_start(*t, request.starting_counter) <= 0 {
                r matches Err(AppError::Validation(m)) && m@ == "starting_counter must be greater than 0"@
            } else {
                &&& (forall|i: int| 0 <= i < request.count
                    ==> (#[trigger] message_cmac(crypto, *t, (next_start(*t, request.starting_counter) + i) as i64)) is Some)
                    ==> r is Ok
                &&& r matches Ok(resp) ==> {
                    &&& resp.tag_id == t.id
                    &&& resp.tag_uid@ == t.tag_uid@
                    &&& resp.key_version == t.key_version
                    &&& resp.messages@.len() == request.count
                    &&& forall|i: int| 0 <= i < request.count ==> {
                        &&& (#[trigger] resp.messages@[i]).counter == next_start(*t, request.starting_counter) + i
                        &&& message_cmac(crypto, *t, resp.messages@[i].counter) matches Some(c)
                            && c.len() > 0 && resp.messages@[i].cmac@ == hex_upper_seq(c)
                    }
                }
            },
        },
{
    if let Err(e) = validate_next_messages_count(request.count) {
        return Err(e);
    }
    let t = match tag {
        None => return Err(AppError::TagNotFound),
        Some(t) => t,
    };
    if t.status == TagStatus::Revoked {
        return Err(AppError::TagRevoked);
    }
    if t.mode != TagMode::DynamicCmac {
        return Err(AppError::UnsupportedTagMode);
    }
    let start: i64 = match request.starting_counter {
        Some(s) => s,
        None => match t.last_counter {
            Some(l) => l + 1,
            None => 1,
        },
    };
    if start <= 0 {
        return Err(validation("starting_counter must be greater than 0"));
    }
    let mut messages: Vec<GeneratedMessage> = Vec::new();
    let mut offset: u32 = 0;
    while offset < request.count
        invariant
            tag == Some(t),
            1 <= request.count <= 50,
            t.status != TagStatus::Revoked,
            offset <= request.count,
            start == next_start(*t, request.starting_counter),
            start > 0,
            start + request.count <= i64::MAX + 1,
            t.mode == TagMode::DynamicCmac,
            messages@.len() == offset,
            forall|i: int| 0 <= i < offset ==> {
                &&& (#[trigger] messages@[i]).counter == start + i
                &&& message_cmac(crypto, *t, messages@[i].counter) matches Some(c)
                    && c.len() > 0 && messages@[i].cmac@ == hex_upper_seq(c)
            },
        decreases request.count - offset,
    {
        let counter: i64 = start + offset as i64;
        let message = match build_dynamic_message(t.tag_uid.as_str(), counter) {
            Ok(m) => m,
            Err(e) => {
                assert(message_cmac(crypto, *t, (next_start(*t, request.starting_counter) + offset) as i64) is None);
                return Err(e);
            },
        };
        let cmac = match crypto.generate_cmac(t.key_version, t.tag_uid.as_str(), message.as_slice()) {
            Ok(c) => c,
            Err(e) => {
                assert(message_cmac(crypto, *t, (next_start(*t, request.starting_counter) + offset) as i64) is None);
                return Err(e);
            },
        };
        messages.push(GeneratedMessage { counter, cmac: hex_encode_upper(cmac.as_slice()) });
        offset = offset + 1;
    }
    let tag = t;
    Ok(NextMessagesResponse {
        tag_id: tag.id,
        tag_uid: tag.tag_uid.clone(),
        key_version: tag.key_version,
        messages,
    })
}

/// The new key version of a rotation: refused for an unknown or revoked
/// tag and for a tag that is not dynamic; otherwise one more than the
/// current version.
pub fn rotate_key_decision(tag: Option<&Tag>) -> (r: Result<i32, AppError>)
    requires
        match tag {
            Some(t) => t.status != TagStatus::Revoked && t.mode == TagMode::DynamicCmac ==> t.key_version < i32::MAX,
            None => true,
        },
    ensures
        match tag {
            None => r == Err::<i32, AppError>(AppError::TagNotFound),
            Some(t) => r == if t.status == TagStatus::Revoked {
                Err::<i32, AppError>(AppError::TagRevoked)
            } else if t.mode != TagMode::DynamicCmac {
                Err::<i32, AppError>(AppError::UnsupportedTagMode)
            } else {
                Ok::<i32, AppError>((t.key_version + 1) as i32)
            },
        },
{
    let tag = match tag {
        None => return Err(AppError::TagNotFound),
        Some(t) => t,
    };
    if tag.status == TagStatus::Revoked {
        return Err(AppError::TagRevoked);
    }
    if tag.mode != TagMode::DynamicCmac {
        return Err(AppError::UnsupportedTagMode);
    }
    Ok(tag.key_version + 1)
}

/// Whether a revocation must be applied: refused for an unknown tag,
/// nothing to do (`false`) for a tag already revoked.
pub fn revoke_tag_decision(tag: Option<&Tag>) -> (r: Result<bool, AppError>)
    ensures
        match tag {
            None => r == Err::<bool, AppError>(AppError::TagNotFound),
            Some(t) => r == Ok::<bool, AppError>(t.status != TagStatus::Revoked),
        },
{
    match tag {
        None => Err(AppError::TagNotFound),
        Some(t) => Ok(t.status != TagStatus::Revoked),
    }
}

/// The answer to revoking a one-time token: it was revoked, or there is no
/// token that can be.
pub fn revoke_scan_token_result(revoked: bool) -> (r: Result<(), AppError>)
    ensures
        r == if revoked { Ok::<(), AppError>(()) } else { Err::<(), AppError>(AppError::ScanTokenNotFound) },
{
    if revoked { Ok(()) } else { Err(AppError::ScanTokenNotFound) }
}

/// A reconfiguration of a tag.
pub struct ReconfigureTagRequest {
    pub tag_id: [u8; 16],
    pub reset_counter: bool,
    pub rotate_key: bool,
    pub revoke_existing_batch: bool,
    pub token_count: Option<u32>,
    pub ttl_seconds: Option<i64>,
}

/// What a reconfigured tag must now be written with.
pub enum ReconfigurePayload {
    DynamicCmac { key_version: i32, counter_initial: i64 },
    OneTimeTokens { revoked_batches: u64, batch_id: [u8; 16], records: Vec<OneTimeTokenRecord> },
}

/// The answer to a reconfiguration.
pub struct ReconfigureTagResponse {
    pub tag_id: [u8; 16],
    pub mode: TagMode,
    pub payload: ReconfigurePayload,
}

/// What a reconfiguration does to the stored state.
#[derive(Debug)]
pub enum ReconfigureAction {
    /// Rotate to `rotate_to` (which also resets the counter), or else reset
    /// the counter when `reset_counter`; the tag then uses `key_version`.
    DynamicCmac { rotate_to: Option<i32>, reset_counter: bool, key_version: i32 },
    /// Optionally revoke the tag's active batches, then issue a new batch.
    OneTimeTokens { revoke_existing_batch: bool, product_code: String, count: u32, ttl_seconds: i64 },
}

/// Refuses to reconfigure an unknown or revoked tag.
pub fn reconfigure_check_tag(tag: Option<&Tag>) -> (r: Result<(), AppError>)
    ensures
        match tag {
            None => r == Err::<(), AppError>(AppError::TagNotFound),
            Some(t) => r == if t.status == TagStatus::Revoked {
                Err::<(), AppError>(AppError::TagRevoked)
            } else {
                Ok::<(), AppError>(())
            },
        },
{
    match tag {
        None => Err(AppError::TagNotFound),
        Some(t) => if t.status == TagStatus::Revoked { Err(AppError::TagRevoked) } else { Ok(()) },
    }
}

/// The action of a reconfiguration, given the tag's item: refused without
/// an item; a dynamic tag rotates its key (one version up) when asked, else
/// resets its counter when asked; a token tag gets a new batch, of 3 tokens
/// for a day unless asked otherwise.
pub fn reconfigure_plan(tag: &Tag, item: Option<&Item>, request: &ReconfigureTagRequest) -> (r: Result<ReconfigureAction, AppError>)
    requires
        item is Some && tag.mode == TagMode::DynamicCmac && request.rotate_key ==> tag.key_version < i32::MAX,
    ensures
        item is None <==> r == Err::<ReconfigureAction, AppError>(AppError::ProductNotFound),
        item matches Some(it) ==> match tag.mode {
            TagMode::DynamicCmac => r matches Ok(ReconfigureAction::DynamicCmac { rotate_to, reset_counter, key_version })
                && rotate_to == (if request.rotate_key { Some((tag.key_version + 1) as i32) } else { None })
                && reset_counter == (!request.rotate_key && request.reset_counter)
                && key_version == (if request.rotate_key { (tag.key_version + 1) as i32 } else { tag.key_version }),
            TagMode::OneTimeTokens => r matches Ok(ReconfigureAction::OneTimeTokens { revoke_existing_batch, product_code, count, ttl_seconds })
                && revoke_existing_batch == request.revoke_existing_batch
                && product_code@ == it.product_code@
                && count == (match request.token_count { Some(c) => c, None => 3 })
                && ttl_seconds == (match request.ttl_seconds { Some(t) => t, None => 86400 }),
        },
{
    let item = match item {
        None => return Err(AppError::ProductNotFound),
        Some(i) => i,
    };
    match tag.mode {
        TagMode::DynamicCmac => {
            if request.rotate_key {
                let v = tag.key_version + 1;
                Ok(ReconfigureAction::DynamicCmac { rotate_to: Some(v), reset_counter: false, key_version: v })
            } else {
                Ok(ReconfigureAction::DynamicCmac {
                    rotate_to: None,
                    reset_counter: request.reset_counter,
                    key_version: tag.key_version,
                })
            }
        },
        TagMode::OneTimeTokens => {
            let count = match request.token_count { Some(c) => c, None => 3 };
            let ttl_seconds = match request.ttl_seconds { Some(t) => t, None => 86400 };
            Ok(ReconfigureAction::OneTimeTokens {
                revoke_existing_batch: request.revoke_existing_batch,
                product_code: item.product_code.clone(),
                count,
                ttl_seconds,
            })
        },
    }
}

/// What a reconfigured dynamic tag must be written with.
pub fn reconfigured_dynamic_payload(key_version: i32) -> (p: ReconfigurePayload)
    ensures
        p matches ReconfigurePayload::DynamicCmac { key_version: k, counter_initial }
            && k == key_version && counter_initial == COUNTER_INITIAL,
{
    ReconfigurePayload::DynamicCmac { key_version, counter_initial: COUNTER_INITIAL }
}

/// A batch of one-time tokens for a tag: validated, then planned, with the
/// scan path of each token.
pub fn tag_token_batch(
    service: &HmacScanTokenService,
    tag_id: [u8; 16],
    product_code: &str,
    count: u32,
    ttl_seconds: i64,
    now: UtcTime,
    expires_at: UtcTime,
) -> (r: Result<(TokenBatch, Vec<ScanToken>, GeneratedBatch), AppError>)
    ensures
        match r {
            Err(e) => !(1 <= count <= 1000 && ttl_seconds > 0) && (e matches AppError::Validation(m)
                && if !(1 <= count <= 1000) {
                    m@ == "count must be between 1 and 1000"@
                } else {
                    m@ == "ttl_seconds must be greater than 0"@
                }),
            Ok((batch, tokens, generated)) => {
                &&& 1 <= count <= 1000 && ttl_seconds > 0
                &&& batch.tag_id == Some(tag_id)
                &&& batch.status == TokenBatchStatus::Active
                &&& batch.revoked_at is None
                &&& batch.product_public_id@ == product_code@
                &&& batch.expires_at == expires_at
                &&& batch.created_at == now
                &&& generated.batch_id == batch.id
                &&& tokens@.len() == count
                &&& generated.records@.len() == count
                &&& forall|i: int| 0 <= i < count ==> {
                    &&& token_matches_batch(service.secret(), #[trigger] tokens@[i],
                        GeneratedScanToken { token_id: generated.records@[i].token_id,
                            token: generated.records@[i].token },
                        batch, product_code@, now)
                    &&& generated.records@[i].url@ == scan_path(product_code@, generated.records@[i].token@)
                    &&& generated.records@[i].expires_at == expires_at
                }
            },
        },
{
    validate_token_batch(count, ttl_seconds)?;
    let (batch, tokens, gen) = plan_token_batch(service, Some(tag_id), product_code, count, now, expires_at)?;
    let mut records: Vec<OneTimeTokenRecord> = Vec::new();
    let mut k: usize = 0;
    while k < gen.len()
        invariant
            k <= gen@.len(),
            records@.len() == k,
            forall|i: int| 0 <= i < k ==> {
                &&& (#[trigger] records@[i]).token_id == gen@[i].token_id
                &&& records@[i].token == gen@[i].token
                &&& records@[i].url@ == scan_path(product_code@, gen@[i].token@)
                &&& records@[i].expires_at == expires_at
            },
        decreases gen@.len() - k,
    {
        let g = &gen[k];
        let url = build_scan_path(product_code, g.token.as_str());
        records.push(OneTimeTokenRecord { token_id: g.token_id, token: g.token.clone(), url, expires_at });
        k = k + 1;
    }
    let batch_id = batch.id;
    Ok((batch, tokens, GeneratedBatch { batch_id, records }))
}

/// Audit metadata of an enrolment.
pub open spec fn enrolled_metadata(mode: TagMode, product_code: Seq<char>) -> Seq<char> {
    "{\"mode\":"@ + json_string_spec(tag_mode_text(mode)) + ",\"product_code\":"@
        + json_string_spec(product_code) + "}"@
}

/// Audit metadata of a key rotation.
pub open spec fn rotated_metadata(key_version: i32) -> Seq<char> {
    "{\"key_version\":"@ + int_decimal(key_version as int) + "}"@
}

pub open spec fn bool_text(b: bool) -> Seq<char> {
    if b { "true"@ } else { "false"@ }
}

/// Audit metadata of a reconfiguration (keys in serde_json's sorted order).
pub open spec fn reconfigured_metadata(mode: TagMode, reset_counter: bool, revoke_existing_batch: bool, rotate_key: bool) -> Seq<char> {
    "{\"mode\":"@ + json_string_spec(tag_mode_text(mode)) + ",\"reset_counter\":"@ + bool_text(reset_counter)
        + ",\"revoke_existing_batch\":"@ + bool_text(revoke_existing_batch) + ",\"rotate_key\":"@
        + bool_text(rotate_key) + "}"@
}

fn bool_str(b: bool) -> (s: &'static str)
    ensures
        s@ == bool_text(b),
{
    if b { "true" } else { "false" }
}

/// The audit event of an enrolment.
pub fn enrolled_audit_event(tag: &Tag, product_code: &str, now: UtcTime) -> (e: AuditEvent)
    ensures
        e.tag_id == Some(tag.id),
        e.event_type@ == "TAG_ENROLLED"@,
        e.metadata matches Some(m) && m@ == enrolled_metadata(tag.mode, product_code@),
        e.created_at == now,
{
    let meta = String::from_str("{\"mode\":").concat(json_string(tag.mode.as_str()).as_str())
        .concat(",\"product_code\":").concat(json_string(product_code).as_str()).concat("}");
    AuditEvent {
        id: random_uuid_bytes(),
        tag_id: Some(tag.id),
        event_type: String::from_str("TAG_ENROLLED"),
        metadata: Some(meta),
        created_at: now,
    }
}

/// The audit event of a revocation.
pub fn revoked_audit_event(tag_id: [u8; 16], now: UtcTime) -> (e: AuditEvent)
    ensures
        e.tag_id == Some(tag_id),
        e.event_type@ == "TAG_REVOKED"@,
        e.metadata is None,
        e.created_at == now,
{
    AuditEvent {
        id: random_uuid_bytes(),
        tag_id: Some(tag_id),
        event_type: String::from_str("TAG_REVOKED"),
        metadata: None,
        created_at: now,
    }
}

/// The audit event of a key rotation.
pub fn rotated_audit_event(tag_id: [u8; 16], key_version: i32, now: UtcTime) -> (e: AuditEvent)
    ensures
        e.tag_id == Some(tag_id),
        e.event_type@ == "TAG_KEY_ROTATED"@,
        e.metadata matches Some(m) && m@ == rotated_metadata(key_version),
        e.created_at == now,
{
    let meta = String::from_str("{\"key_version\":").concat(i64_to_decimal(key_version as i64).as_str()).concat("}");
    AuditEvent {
        id: random_uuid_bytes(),
        tag_id: Some(tag_id),
        event_type: String::from_str("TAG_KEY_ROTATED"),
        metadata: Some(meta),
        created_at: now,
    }
}

/// The audit event of a reconfiguration.
pub fn reconfigured_audit_event(tag: &Tag, request: &ReconfigureTagRequest, now: UtcTime) -> (e: AuditEvent)
    ensures
        e.tag_id == Some(tag.id),
        e.event_type@ == "TAG_RECONFIGURED"@,
        e.metadata matches Some(m) && m@ == reconfigured_metadata(tag.mode, request.reset_counter,
            request.revoke_existing_batch, request.rotate_key),
        e.created_at == now,
{
    let meta = String::from_str("{\"mode\":").concat(json_string(tag.mode.as_str()).as_str())
        .concat(",\"reset_counter\":").concat(bool_str(request.reset_counter))
        .concat(",\"revoke_existing_batch\":").concat(bool_str(request.revoke_existing_batch))
        .concat(",\"rotate_key\":").concat(bool_str(request.rotate_key)).concat("}");
    AuditEvent {
        id: random_uuid_bytes(),
        tag_id: Some(tag.id),
        event_type: String::from_str("TAG_RECONFIGURED"),
        metadata: Some(meta),
        created_at: now,
    }
}

} // verus!
