use anticounterfeit::config::Config;
use anticounterfeit::error::AppError;
use anticounterfeit::scan_tokens::codec::HmacScanTokenService;
use anticounterfeit::tags::admin::{
    enrolled_audit_event, next_messages_for_tag, reconfigure_check_tag, reconfigure_plan, reconfigured_audit_event,
    revoke_scan_token_result, revoke_tag_decision, revoked_audit_event, rotate_key_decision, rotated_audit_event,
    tag_token_batch, validate_next_messages_count, NextMessagesRequest, ReconfigureAction, ReconfigureTagRequest,
};
use anticounterfeit::tags::cmac::{AesCmacService, CryptoService};
use anticounterfeit::tags::dtos::{next_messages_request, reconfigure_request, rotate_key_response};
use anticounterfeit::tags::entities::{parse_tag_mode, ScanVerdict, Tag, TagMode, TagStatus};
use anticounterfeit::tags::provision::{
    build_dynamic_message, dynamic_write_payload, enrollment_records, normalize_tag_uid, validate_enrollment,
    validate_product_code, validate_token_batch, EnrollTagRequest, TagWritePayload,
};
use anticounterfeit::tags::store::{ItemStore, TagStore};
use anticounterfeit::tags::verify::{verdict_after_update, verify_decide, verify_response, verify_scan_event, VerifyRequest, VerifyStep};
use anticounterfeit::time::UtcTime;

const NOW: UtcTime = UtcTime { secs: 1_700_000_000, nanos: 0 };
const MASTER: &str = "000102030405060708090A0B0C0D0E0F";

fn crypto() -> AesCmacService {
    AesCmacService::new(MASTER).unwrap()
}

fn dynamic_tag(last_counter: Option<i64>) -> Tag {
    Tag {
        id: [4; 16],
        tag_uid: "04AABBCCDD".to_string(),
        mode: TagMode::DynamicCmac,
        status: TagStatus::Active,
        key_version: 1,
        last_counter,
        created_at: NOW,
        updated_at: NOW,
    }
}

/// Runs a verification through every step, with the store standing for the database.
fn verify(crypto: &AesCmacService, tags: &mut TagStore, tag_uid: &str, counter: i64, cmac: &str) -> Result<ScanVerdict, AppError> {
    let uid = normalize_tag_uid(tag_uid)?;
    let request = VerifyRequest { tag_uid: tag_uid.to_string(), counter, cmac: cmac.to_string() };
    let step = verify_decide(crypto, &uid, tags.find_by_uid(&uid), &request)?;
    Ok(match step {
        VerifyStep::Decided { verdict } => verdict,
        VerifyStep::UpdateCounter { tag_id, counter } => verdict_after_update(tags.update_counter_if_greater(&tag_id, counter, NOW)),
    })
}

fn enroll_dynamic_tag(tags: &mut TagStore, items: &mut ItemStore) -> [u8; 16] {
    let request = EnrollTagRequest {
        tag_uid: "04AABBCCDD".to_string(),
        product_code: "SKU-123".to_string(),
        size: Some("M".to_string()),
        color: Some("BLACK".to_string()),
        mode: TagMode::DynamicCmac,
    };
    let uid = validate_enrollment(&request).unwrap();
    let taken = tags.find_by_uid(&uid).is_some();
    let (tag, item) = enrollment_records(&request, uid, taken, NOW).unwrap();
    let id = tag.id;
    tags.save(tag);
    items.save(item);
    id
}

#[test]
fn derived_cmac_round_trips() {
    let service = AesCmacService::new("000102030405060708090A0B0C0D0E0F").unwrap();
    let message = [0xAA, 0xBB, 0xCC, 0x01];

    let cmac = service.generate_cmac(2, "04AABBCCDD", &message).unwrap();
    let verified = service.verify_cmac(2, "04AABBCCDD", &message, &cmac).unwrap();

    assert!(verified);
}

#[test]
fn cmac_depends_on_key_version_and_message() {
    let service = crypto();
    let a = service.generate_cmac(1, "04AABBCCDD", &[1, 2, 3]).unwrap();
    let b = service.generate_cmac(2, "04AABBCCDD", &[1, 2, 3]).unwrap();
    let c = service.generate_cmac(1, "04AABBCCDD", &[1, 2, 4]).unwrap();
    assert_eq!(a.len(), 16);
    assert_ne!(a, b);
    assert_ne!(a, c);
    assert!(!service.verify_cmac(2, "04AABBCCDD", &[1, 2, 3], &a).unwrap());
    assert_eq!(service.derive_key(1, "04AABBCCDD").unwrap().len(), 16);
    assert!(matches!(service.generate_cmac(1, "XYZ", &[1]), Err(AppError::Validation(m)) if m == "tag_uid must be a valid uppercase hex string"));
}

#[test]
fn cmac_service_master_key_checks() {
    assert!(matches!(AesCmacService::new("0001"), Err(AppError::Internal(m)) if m == "TAG_SIGNING_MASTER must be at least 16 bytes encoded as hex"));
    assert!(matches!(AesCmacService::new("zz"), Err(AppError::Internal(m)) if m.starts_with("Invalid TAG_SIGNING_MASTER: ")));
}

#[test]
fn verify_marks_replay_when_counter_is_reused() {
    let crypto = crypto();
    let mut tags = TagStore::new();
    tags.save(dynamic_tag(Some(3)));
    let message = build_dynamic_message("04AABBCCDD", 3).unwrap();
    let cmac = hex::encode_upper(crypto.generate_cmac(1, "04AABBCCDD", &message).unwrap());

    let verdict = verify(&crypto, &mut tags, "04AABBCCDD", 3, &cmac).unwrap();

    assert_eq!(verdict, ScanVerdict::ReplayDetected);
}

#[test]
fn verify_verdicts_for_each_situation() {
    let crypto = crypto();
    let mut tags = TagStore::new();
    assert_eq!(verify(&crypto, &mut tags, "04AABBCCDD", 1, "AABB").unwrap(), ScanVerdict::TagNotFound);
    tags.save(dynamic_tag(None));
    assert_eq!(verify(&crypto, &mut tags, "04aabbccdd", 1, "").unwrap(), ScanVerdict::InvalidSignature);
    assert_eq!(verify(&crypto, &mut tags, "04AABBCCDD", 1, "not hex").unwrap(), ScanVerdict::InvalidSignature);
    assert_eq!(verify(&crypto, &mut tags, "04AABBCCDD", 1, "00112233445566778899AABBCCDDEEFF").unwrap(), ScanVerdict::InvalidSignature);
    assert!(matches!(verify(&crypto, &mut tags, "04AABBCCDD", -1, "AABB"), Err(AppError::Validation(_))));
    assert!(matches!(verify(&crypto, &mut tags, "XYZ", 1, "AABB"), Err(AppError::Validation(_))));
    tags.revoke(&[4; 16], NOW);
    let verdict = verify(&crypto, &mut tags, "04AABBCCDD", 1, "AABB").unwrap();
    assert_eq!(verdict, ScanVerdict::TagRevoked);
    assert_eq!(verdict.http_status(), 410);
}

#[test]
fn next_messages_then_verify_accepts_three_messages_and_rejects_replay() {
    let crypto = crypto();
    let mut tags = TagStore::new();
    let mut items = ItemStore::new();
    let tag_id = enroll_dynamic_tag(&mut tags, &mut items);

    let request = NextMessagesRequest { tag_id, count: 3, starting_counter: None };
    validate_next_messages_count(request.count).unwrap();
    let response = next_messages_for_tag(&crypto, tags.find_by_id(&tag_id), &request).unwrap();
    assert_eq!(response.messages.len(), 3);

    for message in &response.messages {
        let verdict = verify(&crypto, &mut tags, &response.tag_uid, message.counter, &message.cmac).unwrap();
        assert_eq!(verdict.http_status(), 200);
    }

    let replay = verify(&crypto, &mut tags, &response.tag_uid, response.messages[1].counter, &response.messages[1].cmac).unwrap();
    assert_eq!(replay.http_status(), 409);
}

#[test]
fn next_messages_respects_explicit_starting_counter() {
    let crypto = crypto();
    let mut tags = TagStore::new();
    let mut items = ItemStore::new();
    let tag_id = enroll_dynamic_tag(&mut tags, &mut items);
    let request = NextMessagesRequest { tag_id, count: 2, starting_counter: Some(42) };
    let response = next_messages_for_tag(&crypto, tags.find_by_id(&tag_id), &request).unwrap();
    assert_eq!(response.messages[0].counter, 42);
    assert_eq!(response.messages[1].counter, 43);
}

#[test]
fn next_messages_follow_last_counter_and_do_not_change_it() {
    let crypto = crypto();
    let mut tags = TagStore::new();
    tags.save(dynamic_tag(Some(7)));
    let request = NextMessagesRequest { tag_id: [4; 16], count: 1, starting_counter: None };
    let response = next_messages_for_tag(&crypto, tags.find_by_id(&[4; 16]), &request).unwrap();
    assert_eq!(response.messages[0].counter, 8);
    assert_eq!(response.messages[0].cmac.len(), 32);
    assert_eq!(tags.find_by_id(&[4; 16]).unwrap().last_counter, Some(7));
    let zero = NextMessagesRequest { tag_id: [4; 16], count: 1, starting_counter: Some(0) };
    assert!(matches!(next_messages_for_tag(&crypto, tags.find_by_id(&[4; 16]), &zero),
        Err(AppError::Validation(m)) if m == "starting_counter must be greater than 0"));
    assert!(matches!(next_messages_for_tag(&crypto, None, &request), Err(AppError::TagNotFound)));
    assert!(matches!(validate_next_messages_count(51), Err(AppError::Validation(_))));
    assert!(matches!(validate_next_messages_count(0), Err(AppError::Validation(_))));
}

#[test]
fn concurrent_verify_requests_accept_only_one_of_same_counter_and_cmac() {
    let crypto = crypto();
    let mut tags = TagStore::new();
    let mut items = ItemStore::new();
    let tag_id = enroll_dynamic_tag(&mut tags, &mut items);
    let request = NextMessagesRequest { tag_id, count: 1, starting_counter: None };
    let response = next_messages_for_tag(&crypto, tags.find_by_id(&tag_id), &request).unwrap();
    let mut ok_count = 0;
    let mut conflict_count = 0;
    for _ in 0..8 {
        let verdict = verify(&crypto, &mut tags, &response.tag_uid, response.messages[0].counter, &response.messages[0].cmac).unwrap();
        match verdict.http_status() {
            200 => ok_count += 1,
            409 => conflict_count += 1,
            status => panic!("unexpected status: {status}"),
        }
    }
    assert_eq!(ok_count, 1);
    assert_eq!(conflict_count, 7);
}

#[test]
fn rotation_invalidates_old_messages_and_resets_counter() {
    let crypto = crypto();
    let mut tags = TagStore::new();
    tags.save(dynamic_tag(Some(10)));
    let old = next_messages_for_tag(&crypto, tags.find_by_id(&[4; 16]),
        &NextMessagesRequest { tag_id: [4; 16], count: 1, starting_counter: None }).unwrap();
    let new_version = rotate_key_decision(tags.find_by_id(&[4; 16])).unwrap();
    assert_eq!(new_version, 2);
    tags.rotate_key(&[4; 16], new_version, true, NOW);
    let tag = tags.find_by_id(&[4; 16]).unwrap();
    assert_eq!(tag.key_version, 2);
    assert_eq!(tag.last_counter, None);
    assert_eq!(verify(&crypto, &mut tags, "04AABBCCDD", old.messages[0].counter, &old.messages[0].cmac).unwrap(),
        ScanVerdict::InvalidSignature);
    let fresh = next_messages_for_tag(&crypto, tags.find_by_id(&[4; 16]),
        &NextMessagesRequest { tag_id: [4; 16], count: 1, starting_counter: None }).unwrap();
    assert_eq!(fresh.messages[0].counter, 1);
    assert_eq!(verify(&crypto, &mut tags, "04AABBCCDD", 1, &fresh.messages[0].cmac).unwrap(), ScanVerdict::Valid);
    let body = rotate_key_response(new_version);
    assert!(body.counter_reset);
    assert_eq!(body.message, "Key rotated successfully");
}

#[test]
fn admin_decisions() {
    let mut revoked = dynamic_tag(None);
    revoked.status = TagStatus::Revoked;
    let mut token_tag = dynamic_tag(None);
    token_tag.mode = TagMode::OneTimeTokens;
    assert!(matches!(rotate_key_decision(None), Err(AppError::TagNotFound)));
    assert!(matches!(rotate_key_decision(Some(&revoked)), Err(AppError::TagRevoked)));
    assert!(matches!(rotate_key_decision(Some(&token_tag)), Err(AppError::UnsupportedTagMode)));
    assert!(matches!(revoke_tag_decision(None), Err(AppError::TagNotFound)));
    assert_eq!(revoke_tag_decision(Some(&revoked)).unwrap(), false);
    assert_eq!(revoke_tag_decision(Some(&dynamic_tag(None))).unwrap(), true);
    assert!(matches!(revoke_scan_token_result(false), Err(AppError::ScanTokenNotFound)));
    assert!(revoke_scan_token_result(true).is_ok());
    assert!(matches!(reconfigure_check_tag(Some(&revoked)), Err(AppError::TagRevoked)));
    assert!(matches!(reconfigure_check_tag(None), Err(AppError::TagNotFound)));
}

#[test]
fn reconfigure_defaults_and_plans() {
    let body = anticounterfeit::tags::dtos::ReconfigureTagRequest {
        reset_counter: None,
        rotate_key: None,
        revoke_existing_batch: None,
        token_count: None,
        ttl_seconds: None,
    };
    let request = reconfigure_request([4; 16], &body);
    assert!(!request.reset_counter && !request.rotate_key && request.revoke_existing_batch);

    let mut items = ItemStore::new();
    assert!(matches!(reconfigure_plan(&dynamic_tag(None), items.find_by_tag_id(&[4; 16]), &request), Err(AppError::ProductNotFound)));
    items.save(anticounterfeit::tags::entities::Item {
        id: [8; 16],
        product_code: "SKU-123".to_string(),
        size: None,
        color: None,
        tag_id: [4; 16],
        created_at: NOW,
        updated_at: NOW,
    });
    let mut token_tag = dynamic_tag(None);
    token_tag.mode = TagMode::OneTimeTokens;
    match reconfigure_plan(&token_tag, items.find_by_tag_id(&[4; 16]), &request).unwrap() {
        ReconfigureAction::OneTimeTokens { revoke_existing_batch, product_code, count, ttl_seconds } => {
            assert!(revoke_existing_batch);
            assert_eq!(product_code, "SKU-123");
            assert_eq!(count, 3);
            assert_eq!(ttl_seconds, 86_400);
        }
        other => panic!("unexpected plan {other:?}"),
    }
    let rotate = ReconfigureTagRequest {
        tag_id: [4; 16],
        reset_counter: true,
        rotate_key: true,
        revoke_existing_batch: false,
        token_count: None,
        ttl_seconds: None,
    };
    match reconfigure_plan(&dynamic_tag(None), items.find_by_tag_id(&[4; 16]), &rotate).unwrap() {
        ReconfigureAction::DynamicCmac { rotate_to, reset_counter, key_version } => {
            assert_eq!(rotate_to, Some(2));
            assert!(!reset_counter);
            assert_eq!(key_version, 2);
        }
        other => panic!("unexpected plan {other:?}"),
    }
    let event = reconfigured_audit_event(&token_tag, &request, NOW);
    assert_eq!(event.event_type, "TAG_RECONFIGURED");
    assert_eq!(event.metadata.as_deref(),
        Some("{\"mode\":\"one_time_tokens\",\"reset_counter\":false,\"revoke_existing_batch\":true,\"rotate_key\":false}"));
    let next = next_messages_request([4; 16], &anticounterfeit::tags::dtos::NextMessagesRequest { count: None, starting_counter: None });
    assert_eq!(next.count, 3);
}

#[test]
fn tag_token_batch_has_scan_paths() {
    let service = HmacScanTokenService::new(b"test-token-secret");
    let expires = UtcTime { secs: NOW.secs + 3600, nanos: 0 };
    let (batch, tokens, generated) = tag_token_batch(&service, [4; 16], "SKU-123", 3, 3600, NOW, expires).unwrap();
    assert_eq!(batch.tag_id, Some([4; 16]));
    assert_eq!(generated.batch_id, batch.id);
    assert_eq!(tokens.len(), 3);
    for record in &generated.records {
        assert_eq!(record.url, format!("/v1/scan?pid=SKU-123&t={}", record.token));
    }
    assert!(matches!(tag_token_batch(&service, [4; 16], "SKU-123", 0, 3600, NOW, expires), Err(AppError::Validation(_))));
    assert!(matches!(validate_token_batch(5, 0), Err(AppError::Validation(m)) if m == "ttl_seconds must be greater than 0"));
}

#[test]
fn normalization_of_tag_uids() {
    assert_eq!(normalize_tag_uid("  04aabbccdd\n").unwrap(), "04AABBCCDD");
    assert_eq!(normalize_tag_uid("04AABBCCDD").unwrap(), "04AABBCCDD");
    for bad in ["", "   ", "ABC", "0G", "04 AA", "é1"] {
        assert!(matches!(normalize_tag_uid(bad), Err(AppError::Validation(m)) if m == "tag_uid must be a non-empty even-length hex string"));
    }
    let once = normalize_tag_uid(" 0a0b ").unwrap();
    assert_eq!(normalize_tag_uid(&once).unwrap(), once);
}

#[test]
fn dynamic_message_layout() {
    assert_eq!(build_dynamic_message("04AABBCCDD", 1).unwrap(), vec![0x04, 0xAA, 0xBB, 0xCC, 0xDD, 0, 0, 0, 0, 0, 0, 0, 1]);
    assert_eq!(build_dynamic_message("0a", 258).unwrap(), vec![0x0A, 0, 0, 0, 0, 0, 0, 1, 2]);
    assert!(matches!(build_dynamic_message("04", -1), Err(AppError::Validation(m)) if m == "counter must be greater than or equal to 0"));
    assert!(matches!(build_dynamic_message("0", 1), Err(AppError::Validation(m)) if m == "tag_uid must be a valid uppercase hex string"));
}

#[test]
fn enrollment_checks_and_records() {
    let mut tags = TagStore::new();
    let mut items = ItemStore::new();
    enroll_dynamic_tag(&mut tags, &mut items);
    let request = EnrollTagRequest {
        tag_uid: " 04aabbccdd ".to_string(),
        product_code: "SKU-9".to_string(),
        size: None,
        color: None,
        mode: TagMode::OneTimeTokens,
    };
    let uid = validate_enrollment(&request).unwrap();
    assert_eq!(uid, "04AABBCCDD");
    let taken = tags.find_by_uid(&uid).is_some();
    assert!(matches!(enrollment_records(&request, uid, taken, NOW), Err(AppError::TagAlreadyExists)));
    let blank = EnrollTagRequest { product_code: " ".to_string(), ..request };
    assert!(matches!(validate_enrollment(&blank), Err(AppError::Validation(m)) if m == "product_code cannot be empty"));
    assert!(validate_product_code("X").is_ok());
    let tag = tags.find_by_uid("04AABBCCDD").unwrap();
    assert_eq!(tag.key_version, 1);
    assert_eq!(tag.status, TagStatus::Active);
    match dynamic_write_payload(tag) {
        TagWritePayload::DynamicCmac { key_version, counter_initial, verify_format } => {
            assert_eq!(key_version, 1);
            assert_eq!(counter_initial, 0);
            assert_eq!(verify_format, r#"POST /verify {"tag_uid":"<tag_uid>","counter":<counter>,"cmac":"<hex>"}"#);
        }
        other => panic!("unexpected payload {other:?}"),
    }
    let event = enrolled_audit_event(tag, "SKU-\"1\"", NOW);
    assert_eq!(event.metadata.as_deref(), Some("{\"mode\":\"dynamic_cmac\",\"product_code\":\"SKU-\\\"1\\\"\"}"));
    assert_eq!(rotated_audit_event([1; 16], 12, NOW).metadata.as_deref(), Some("{\"key_version\":12}"));
    assert!(revoked_audit_event([1; 16], NOW).metadata.is_none());
}

#[test]
fn tag_texts_and_modes() {
    assert_eq!(TagMode::DynamicCmac.as_str(), "dynamic_cmac");
    assert_eq!(TagMode::parse("one_time_tokens"), Ok(TagMode::OneTimeTokens));
    assert_eq!(TagMode::parse("nfc"), Err("Unsupported tag mode: nfc".to_string()));
    assert!(matches!(parse_tag_mode("x"), Err(AppError::Internal(m)) if m == "Unsupported tag mode: x"));
    assert_eq!(TagStatus::parse("REVOKED"), Some(TagStatus::Revoked));
    assert_eq!(TagStatus::default_status(), TagStatus::Active);
    assert_eq!(ScanVerdict::InvalidSignature.as_str(), "INVALID_SIGNATURE");
    assert_eq!(ScanVerdict::InvalidSignature.http_status(), 401);
    assert_eq!(ScanVerdict::TagNotFound.http_status(), 404);
}

#[test]
fn verify_event_and_response() {
    let event = verify_scan_event("04AABBCCDD", Some([4; 16]), 5, ScanVerdict::Valid, NOW);
    assert_eq!(event.verdict, "VALID");
    assert_eq!(event.received_counter, Some(5));
    assert_eq!(event.metadata.as_deref(), Some("{\"mode\":\"dynamic_cmac\"}"));
    let response = verify_response(ScanVerdict::Valid, Some([4; 16]));
    assert_eq!(response.product_info.unwrap().tag_id, [4; 16]);
    assert!(verify_response(ScanVerdict::TagNotFound, None).product_info.is_none());
}

#[test]
fn scan_base_url_forms() {
    let config = |domain: &str| Config {
        address: String::new(),
        database_url: String::new(),
        api_domain: domain.to_string(),
        token_secret: String::new(),
        admin_key: String::new(),
        db_wipe_token: None,
        tag_signing_master: String::new(),
        default_scan_token_batch_size: 3,
        default_scan_token_ttl_seconds: 86_400,
    };
    assert_eq!(config("api.example.com/").scan_base_url(), "https://api.example.com");
    assert_eq!(config("http://localhost:8080//").scan_base_url(), "http://localhost:8080");
    assert_eq!(config("https://x.test").scan_base_url(), "https://x.test");
}

#[test]
fn error_answers() {
    assert_eq!(AppError::TagNotFound.http_response(), (404, "Tag not found".to_string()));
    assert_eq!(AppError::ScanTokenRevoked.http_response(), (403, "Scan token revoked".to_string()));
    assert_eq!(AppError::ScanTokenExpired.http_response(), (410, "Scan token expired".to_string()));
    assert_eq!(AppError::Validation("bad".to_string()).http_response(), (400, "bad".to_string()));
    assert_eq!(AppError::Internal("secret detail".to_string()).http_response(), (500, "Internal server error".to_string()));
    assert_eq!(AppError::Unauthorized.http_response(), (401, "Unauthorized".to_string()));
    assert_eq!(AppError::Validation("x".to_string()).describe(), "Validation error: x");
    assert_eq!(AppError::ReplayDetected.describe(), "Replay detected");
}
