//! Bodies of the tag HTTP endpoints, and the defaults they apply.
use vstd::prelude::*;
use vstd::string::StringExecFns;
use crate::tags::admin::{ReconfigureTagRequest as ReconfigureCommand, NextMessagesRequest as NextMessagesCommand, GeneratedMessage};

verus! {

/// Body of an error answer.
pub struct ErrorResponse {
    pub error: String,
}

/// Body of an enrolment request; the mode is given by name.
pub struct EnrollTagRequest {
    pub tag_uid: String,
    pub product_code: String,
    pub size: Option<String>,
    pub color: Option<String>,
    pub mode: String,
}

/// Body of a verification request.
pub struct VerifyTagRequest {
    pub tag_uid: String,
    pub counter: i64,
    pub cmac: String,
}

/// Body answering a key rotation.
pub struct RotateKeyResponse {
    pub new_key_version: i32,
    pub counter_reset: bool,
    pub message: String,
}

/// One message of a next-messages answer.
pub struct GeneratedMessageDto {
    pub counter: i64,
    pub cmac: String,
}

/// Body of a reconfiguration request; every field may be left out.
pub struct ReconfigureTagRequest {
    pub reset_counter: Option<bool>,
    pub rotate_key: Option<bool>,
    pub revoke_existing_batch: Option<bool>,
    pub token_count: Option<u32>,
    pub ttl_seconds: Option<i64>,
}

/// Body of a next-messages request; every field may be left out.
pub struct NextMessagesRequest {
    pub count: Option<u32>,
    pub starting_counter: Option<i64>,
}

/// The answer to a key rotation: the new version, and that the counter was reset.
pub fn rotate_key_response(new_key_version: i32) -> (r: RotateKeyResponse)
    ensures
        r.new_key_version == new_key_version,
        r.counter_reset,
        r.message@ == "Key rotated successfully"@,
{
    RotateKeyResponse { new_key_version, counter_reset: true, message: String::from_str("Key rotated successfully") }
}

/// A reconfiguration with the defaults of the endpoint: no counter reset,
/// no key rotation, and the existing batch revoked.
pub fn reconfigure_request(tag_id: [u8; 16], body: &ReconfigureTagRequest) -> (r: ReconfigureCommand)
    ensures
        r.tag_id == tag_id,
        r.reset_counter == (match body.reset_counter { Some(b) => b, None => false }),
        r.rotate_key == (match body.rotate_key { Some(b) => b, None => false }),
        r.revoke_existing_batch == (match body.revoke_existing_batch { Some(b) => b, None => true }),
        r.token_count == body.token_count,
        r.ttl_seconds == body.ttl_seconds,
{
    ReconfigureCommand {
        tag_id,
        reset_counter: match body.reset_counter { Some(b) => b, None => false },
        rotate_key: match body.rotate_key { Some(b) => b, None => false },
        revoke_existing_batch: match body.revoke_existing_batch { Some(b) => b, None => true },
        token_count: body.token_count,
        ttl_seconds: body.ttl_seconds,
    }
}

/// A next-messages request with the default of the endpoint: 3 messages.
pub fn next_messages_request(tag_id: [u8; 16], body: &NextMessagesRequest) -> (r: NextMessagesCommand)
    ensures
        r.tag_id == tag_id,
        r.count == (match body.count { Some(c) => c, None => 3 }),
        r.starting_counter == body.starting_counter,
{
    NextMessagesCommand {
        tag_id,
        count: match body.count { Some(c) => c, None => 3 },
        starting_counter: body.starting_counter,
    }
}

/// The body form of a generated message.
pub fn generated_message_dto(m: &GeneratedMessage) -> (d: GeneratedMessageDto)
    ensures
        d.counter == m.counter,
        d.cmac@ == m.cmac@,
{
    GeneratedMessageDto { counter: m.counter, cmac: m.cmac.clone() }
}

} // verus!
