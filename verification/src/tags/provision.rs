//! Enrolment of tags: identifier normalisation, the message that a dynamic
//! tag authenticates, and the records created for a new tag.
use vstd::prelude::*;
use vstd::string::{StrSliceExecFns, StringExecFns};
use crate::text::{trim, to_ascii_uppercase, trim_seq, ascii_upper_seq, ascii_upper, is_hex_digit,
    is_hex_digit_char, is_blank, all_ws, is_ws, clone_opt_string, lemma_trim_no_edge_ws,
    lemma_ascii_upper_idempotent};
use crate::bytes::{hex_decode, hex_decode_seq, i64_be, i64_to_be_bytes};
use crate::crypto::{append_bytes, random_uuid_bytes};
use crate::error::{AppError, validation};
use crate::time::UtcTime;
use crate::tags::entities::{Tag, TagMode, TagStatus, Item, AuditEvent};

verus! {

/// Counter value that a freshly (re)configured dynamic tag starts from.
pub const COUNTER_INITIAL: i64 = 0;

/// A tag identifier as the service stores it: trimmed and upper-cased.
pub open spec fn normalized_uid(s: Seq<char>) -> Seq<char> {
    ascii_upper_seq(trim_seq(s))
}

/// A non-empty, even-length string of hex digits.
pub open spec fn is_valid_uid(u: Seq<char>) -> bool {
    &&& u.len() > 0
    &&& u.len() % 2 == 0
    &&& forall|i: int| 0 <= i < u.len() ==> is_hex_digit(#[trigger] u[i])
}

/// Trims and upper-cases a tag identifier, and refuses it unless it is then
/// a non-empty, even-length string of hex digits.
pub fn normalize_tag_uid(value: &str) -> (r: Result<String, AppError>)
    ensures
        match r {
            Ok(u) => u@ == normalized_uid(value@) && is_valid_uid(u@),
            Err(e) => !is_valid_uid(normalized_uid(value@)) && (e matches AppError::Validation(m)
                && m@ == "tag_uid must be a non-empty even-length hex string"@),
        },
{
    let trimmed = trim(value);
    let normalized = to_ascii_uppercase(trimmed);
    let n = normalized.as_str().unicode_len();
    if n == 0 || n % 2 != 0 {
        return Err(validation("tag_uid must be a non-empty even-length hex string"));
    }
    let mut i: usize = 0;
    while i < n
        invariant
            n == normalized@.len(),
            normalized@ == normalized_uid(value@),
            i <= n,
            forall|k: int| 0 <= k < i ==> is_hex_digit(#[trigger] normalized@[k]),
        decreases n - i,
    {
        if !is_hex_digit_char(normalized.as_str().get_char(i)) {
            assert(!is_hex_digit(normalized@[i as int]));
            return Err(validation("tag_uid must be a non-empty even-length hex string"));
        }
        i = i + 1;
    }
    Ok(normalized)
}

/// Normalising a normalised identifier changes nothing.
pub proof fn lemma_normalize_idempotent(s: Seq<char>)
    requires
        is_valid_uid(normalized_uid(s)),
    ensures
        normalized_uid(normalized_uid(s)) == normalized_uid(s),
{
    let u = normalized_uid(s);
    assert(is_hex_digit(u[0]));
    assert(is_hex_digit(u[u.len() - 1]));
    lemma_trim_no_edge_ws(u);
    assert forall|i: int| 0 <= i < u.len() implies ascii_upper(u[i]) == u[i] by {
        lemma_ascii_upper_idempotent(trim_seq(s)[i]);
    }
    assert(ascii_upper_seq(u) =~= u);
}

/// Refuses a product code that is empty or only whitespace.
pub fn validate_product_code(value: &str) -> (r: Result<(), AppError>)
    ensures
        match r {
            Ok(()) => !all_ws(value@),
            Err(e) => all_ws(value@) && (e matches AppError::Validation(m)
                && m@ == "product_code cannot be empty"@),
        },
{
    if is_blank(value) {
        return Err(validation("product_code cannot be empty"));
    }
    Ok(())
}

/// The bytes that a dynamic tag authenticates for a counter value: the
/// identifier's bytes followed by the counter in big-endian order.
pub open spec fn dynamic_message(uid: Seq<char>, counter: i64) -> Option<Seq<u8>> {
    if counter < 0 {
        None
    } else {
        match hex_decode_seq(uid) {
            Some(b) => Some(b + i64_be(counter)),
            None => None,
        }
    }
}

/// Builds the message that a dynamic tag authenticates; refuses a negative
/// counter, then an identifier that is not hex.
pub fn build_dynamic_message(tag_uid: &str, counter: i64) -> (r: Result<Vec<u8>, AppError>)
    ensures
        match dynamic_message(tag_uid@, counter) {
            Some(m) => r matches Ok(v) && v@ == m,
            None => r matches Err(AppError::Validation(msg)) && (if counter < 0 {
                msg@ == "counter must be greater than or equal to 0"@
            } else {
                msg@ == "tag_uid must be a valid uppercase hex string"@
            }),
        },
{
    if counter < 0 {
        return Err(validation("counter must be greater than or equal to 0"));
    }
    let mut message = match hex_decode(tag_uid) {
        Ok(b) => b,
        Err(_) => return Err(validation("tag_uid must be a valid uppercase hex string")),
    };
    let ts = i64_to_be_bytes(counter);
    append_bytes(&mut message, ts.as_slice());
    Ok(message)
}

/// A request to enrol a tag on a product.
pub struct EnrollTagRequest {
    pub tag_uid: String,
    pub product_code: String,
    pub size: Option<String>,
    pub color: Option<String>,
    pub mode: TagMode,
}

/// What must be written to a newly enrolled tag.
#[derive(Debug)]
pub enum TagWritePayload {
    DynamicCmac { key_version: i32, counter_initial: i64, verify_format: String },
    OneTimeTokens { batch_id: [u8; 16], records: Vec<OneTimeTokenRecord> },
}

/// One token of a batch and the path at which it is scanned.
#[derive(Debug, Clone)]
pub struct OneTimeTokenRecord {
    pub token_id: [u8; 16],
    pub token: String,
    pub url: String,
    pub expires_at: UtcTime,
}

/// A batch of one-time tokens generated for a tag.
pub struct GeneratedBatch {
    pub batch_id: [u8; 16],
    pub records: Vec<OneTimeTokenRecord>,
}

/// The answer to an enrolment.
#[derive(Debug)]
pub struct EnrollTagResponse {
    pub tag_id: [u8; 16],
    pub item_id: [u8; 16],
    pub mode: TagMode,
    pub payload: TagWritePayload,
}

/// Checks an enrolment request; gives the normalised identifier.
pub fn validate_enrollment(request: &EnrollTagRequest) -> (r: Result<String, AppError>)
    ensures
        match r {
            Ok(u) => u@ == normalized_uid(request.tag_uid@) && is_valid_uid(u@)
                && !all_ws(request.product_code@),
            Err(e) => if is_valid_uid(normalized_uid(request.tag_uid@)) {
                all_ws(request.product_code@) && (e matches AppError::Validation(m)
                    && m@ == "product_code cannot be empty"@)
            } else {
                e matches AppError::Validation(m)
                    && m@ == "tag_uid must be a non-empty even-length hex string"@
            },
        },
{
    let uid = normalize_tag_uid(request.tag_uid.as_str())?;
    validate_product_code(request.product_code.as_str())?;
    Ok(uid)
}

/// The tag and item records of an enrolment, once the identifier is known
/// to be free: a new active tag at key version 1 with no counter yet, and
/// its item. Refuses an identifier that is already taken.
pub fn enrollment_records(request: &EnrollTagRequest, normalized_uid: String, uid_taken: bool, now: UtcTime)
    -> (r: Result<(Tag, Item), AppError>)
    ensures
        uid_taken <==> r == Err::<(Tag, Item), AppError>(AppError::TagAlreadyExists),
        !uid_taken <==> r is Ok,
        r matches Ok((tag, item)) ==> {
            &&& tag.tag_uid@ == normalized_uid@
            &&& tag.mode == request.mode
            &&& tag.status == TagStatus::Active
            &&& tag.key_version == 1
            &&& tag.last_counter is None
            &&& tag.created_at == now && tag.updated_at == now
            &&& item.product_code@ == request.product_code@
            &&& item.size == request.size && item.color == request.color
            &&& item.tag_id == tag.id
            &&& item.created_at == now && item.updated_at == now
        },
{
    if uid_taken {
        return Err(AppError::TagAlreadyExists);
    }
    let tag_id = random_uuid_bytes();
    let item_id = random_uuid_bytes();
    let tag = Tag {
        id: tag_id,
        tag_uid: normalized_uid,
        mode: request.mode,
        status: TagStatus::Active,
        key_version: 1,
        last_counter: None,
        created_at: now,
        updated_at: now,
    };
    let item = Item {
        id: item_id,
        product_code: request.product_code.clone(),
        size: clone_opt_string(&request.size),
        color: clone_opt_string(&request.color),
        tag_id,
        created_at: now,
        updated_at: now,
    };
    Ok((tag, item))
}

/// The documented shape of a verification request.
pub open spec fn verify_format_text() -> Seq<char> {
    "POST /verify {\"tag_uid\":\"<tag_uid>\",\"counter\":<counter>,\"cmac\":\"<hex>\"}"@
}

/// What to write to a dynamic tag: its key version, the initial counter and
/// the shape of a verification request.
pub fn dynamic_write_payload(tag: &Tag) -> (p: TagWritePayload)
    ensures
        p matches TagWritePayload::DynamicCmac { key_version, counter_initial, verify_format }
            && key_version == tag.key_version && counter_initial == COUNTER_INITIAL
            && verify_format@ == verify_format_text(),
{
    TagWritePayload::DynamicCmac {
        key_version: tag.key_version,
        counter_initial: COUNTER_INITIAL,
        verify_format: String::from_str(
            "POST /verify {\"tag_uid\":\"<tag_uid>\",\"counter\":<counter>,\"cmac\":\"<hex>\"}",
        ),
    }
}

/// Refuses a batch size outside 1..=1000 and a non-positive lifetime.
pub fn validate_token_batch(count: u32, ttl_seconds: i64) -> (r: Result<(), AppError>)
    ensures
        match r {
            Ok(()) => 1 <= count <= 1000 && ttl_seconds > 0,
            Err(e) => e matches AppError::Validation(m) && if !(1 <= count <= 1000) {
                m@ == "count must be between 1 and 1000"@
            } else {
                ttl_seconds <= 0 && m@ == "ttl_seconds must be greater than 0"@
            },
        },
{
    if count == 0 || count > 1000 {
        return Err(validation("count must be between 1 and 1000"));
    }
    if ttl_seconds <= 0 {
        return Err(validation("ttl_seconds must be greater than 0"));
    }
    Ok(())
}

/// The path at which a token is scanned: `/v1/scan?pid=<pid>&t=<token>`.
pub open spec fn scan_path(product_code: Seq<char>, token: Seq<char>) -> Seq<char> {
    "/v1/scan?pid="@ + product_code + "&t="@ + token
}

pub fn build_scan_path(product_code: &str, token: &str) -> (r: String)
    ensures
        r@ == scan_path(product_code@, token@),
{
    String::from_str("/v1/scan?pid=").concat(product_code).concat("&t=").concat(token)
}

/// The full URL of a record under a base URL.
pub fn record_url(base_url: &str, record: &OneTimeTokenRecord) -> (r: String)
    ensures
        r@ == base_url@ + record.url@,
{
    String::from_str(base_url).concat(record.url.as_str())
}

} // verus!
