use anticounterfeit::error::AppError;
use anticounterfeit::scan_tokens::codec::HmacScanTokenService;
use anticounterfeit::scan_tokens::dtos::{generated_token_dto, scan_token_response};
use anticounterfeit::scan_tokens::entities::{ScanTokenStatus, StaticScanResult, TokenBatchStatus};
use anticounterfeit::scan_tokens::store::ScanTokenStore;
use anticounterfeit::scan_tokens::usecases::{
    consume_after_lookup, consume_after_update, consume_begin, consume_response, consume_scan_event,
    expiry_after, plan_generate_scan_tokens, plan_token_batch, validate_consume_request,
    validate_generate_request, ConsumeScanTokenRequest, ConsumeStep, GenerateScanTokensRequest,
};
use anticounterfeit::tags::entities::Item;
use anticounterfeit::tags::store::ItemStore;
use anticounterfeit::time::UtcTime;

const NOW: UtcTime = UtcTime { secs: 1_700_000_000, nanos: 250 };

fn in_one_hour() -> UtcTime {
    expiry_after(NOW, 3600).unwrap()
}

fn request(pid: &str, token: &str) -> ConsumeScanTokenRequest {
    ConsumeScanTokenRequest {
        product_public_id: pid.to_string(),
        token: token.to_string(),
        ip: Some("203.0.113.7".to_string()),
        user_agent: None,
    }
}

/// Runs a scan through every step, with the store standing for the database.
fn scan(service: &HmacScanTokenService, store: &mut ScanTokenStore, pid: &str, token: &str, now: UtcTime) -> StaticScanResult {
    let req = request(pid, token);
    validate_consume_request(&req).unwrap();
    let step = match consume_begin(service, &req) {
        ConsumeStep::LoadToken { verified } => consume_after_lookup(&req, &verified, store.find_by_id(&verified.token_id), now),
        other => other,
    };
    let step = match step {
        ConsumeStep::ConsumeToken { token_id } => {
            let consumed = store.consume_if_unused(&token_id, now, req.ip.clone(), req.user_agent.clone());
            consume_after_update(token_id, consumed)
        }
        other => other,
    };
    match step {
        ConsumeStep::Decided { result, .. } => result,
        _ => panic!("scan left undecided"),
    }
}

fn stored_batch(service: &HmacScanTokenService, store: &mut ScanTokenStore, pid: &str, count: u32, expires_at: UtcTime) -> Vec<String> {
    let (batch, tokens, generated) = plan_token_batch(service, None, pid, count, NOW, expires_at).unwrap();
    store.save_batch(batch);
    store.save_many(tokens);
    generated.into_iter().map(|g| g.token).collect()
}

#[test]
fn generated_token_round_trips() {
    let service = HmacScanTokenService::new(b"test-secret");
    let expires_at = in_one_hour();

    let generated = service.generate_token("PID-123", expires_at).unwrap();
    let verified = service.parse_and_verify_token("PID-123", &generated.token).unwrap();

    assert_eq!(verified.token_id, generated.token_id);
    assert_eq!(verified.expires_at.secs, expires_at.secs);
}

#[test]
fn token_is_bound_to_product_public_id() {
    let service = HmacScanTokenService::new(b"test-secret");
    let expires_at = in_one_hour();
    let generated = service.generate_token("PID-123", expires_at).unwrap();

    let error = service.parse_and_verify_token("PID-999", &generated.token).unwrap_err();

    assert!(matches!(error, AppError::Validation(_)));
}

#[test]
fn generate_scan_tokens_creates_batch_and_tokens() {
    let mut items = ItemStore::new();
    items.save(Item {
        id: [1; 16],
        product_code: "SKU-123".to_string(),
        size: None,
        color: None,
        tag_id: [2; 16],
        created_at: NOW,
        updated_at: NOW,
    });
    let service = HmacScanTokenService::new(b"unit-test-secret");
    let request = GenerateScanTokensRequest { product_public_id: "SKU-123".to_string(), count: 2, ttl_seconds: 60 };

    validate_generate_request(&request).unwrap();
    let exists = items.exists_by_product_code(&request.product_public_id);
    let expires_at = expiry_after(NOW, request.ttl_seconds).unwrap();
    let plan = plan_generate_scan_tokens(&service, &request, exists, NOW, expires_at).unwrap();

    assert_eq!(plan.response.tokens.len(), 2);
    assert_eq!(plan.tokens.len(), 2);
    assert_eq!(plan.batch.status, TokenBatchStatus::Active);
    assert_eq!(plan.response.batch_id, plan.batch.id);
    assert_eq!(plan.response.product_public_id, "SKU-123");
    assert_ne!(plan.response.tokens[0].token, plan.response.tokens[1].token);
    for (record, url) in plan.tokens.iter().zip(plan.response.tokens.iter()) {
        assert_eq!(record.status, ScanTokenStatus::Unused);
        assert_eq!(record.token_id, url.token_id);
        assert_eq!(record.token_hash, service.hash_token(&url.token));
        assert_eq!(record.expires_at.secs, NOW.secs + 60);
    }
}

#[test]
fn generation_for_unknown_product_is_refused() {
    let service = HmacScanTokenService::new(b"unit-test-secret");
    let request = GenerateScanTokensRequest { product_public_id: "SKU-404".to_string(), count: 1, ttl_seconds: 60 };
    let result = plan_generate_scan_tokens(&service, &request, false, NOW, in_one_hour());
    assert!(matches!(result, Err(AppError::ProductNotFound)));
}

#[test]
fn generate_request_validation_messages() {
    let check = |pid: &str, count: u32, ttl: i64| {
        validate_generate_request(&GenerateScanTokensRequest { product_public_id: pid.to_string(), count, ttl_seconds: ttl })
    };
    assert!(matches!(check(" \t", 1, 1), Err(AppError::Validation(m)) if m == "product_public_id cannot be empty"));
    assert!(matches!(check("P", 0, 1), Err(AppError::Validation(m)) if m == "count must be between 1 and 1000"));
    assert!(matches!(check("P", 1001, 1), Err(AppError::Validation(m)) if m == "count must be between 1 and 1000"));
    assert!(matches!(check("P", 1000, 0), Err(AppError::Validation(m)) if m == "ttl_seconds must be greater than 0"));
    assert!(check("P", 1000, 1).is_ok());
}

#[test]
fn token_text_has_fixed_shape() {
    let service = HmacScanTokenService::new(b"test-secret");
    let generated = service.encode_token([7; 16], "PID-123", in_one_hour()).unwrap();
    assert_eq!(generated.token.len(), 75);
    assert!(generated.token.chars().all(|c| c.is_ascii_alphanumeric() || c == '-' || c == '_'));
    assert_eq!(generated.token_id, [7; 16]);
    let again = service.encode_token([7; 16], "PID-123", in_one_hour()).unwrap();
    assert_eq!(generated.token, again.token);
}

#[test]
fn malformed_tokens_are_refused_with_their_reason() {
    let service = HmacScanTokenService::new(b"test-secret");
    assert!(matches!(service.parse_and_verify_token("PID", "not base64 !"), Err(AppError::Validation(_))));
    assert!(matches!(service.parse_and_verify_token("PID", "AAAA"),
        Err(AppError::Validation(m)) if m == "Scan token payload length is invalid"));

    let generated = service.encode_token([9; 16], "PID", in_one_hour()).unwrap();
    let mut chars: Vec<char> = generated.token.chars().collect();
    let last = chars.len() - 3;
    chars[last] = if chars[last] == 'A' { 'B' } else { 'A' };
    let tampered: String = chars.into_iter().collect();
    assert!(matches!(service.parse_and_verify_token("PID", &tampered),
        Err(AppError::Validation(m)) if m == "Scan token MAC is invalid"));

    let other = HmacScanTokenService::new(b"other-secret");
    assert!(matches!(other.parse_and_verify_token("PID", &generated.token),
        Err(AppError::Validation(m)) if m == "Scan token MAC is invalid"));
}

#[test]
fn hash_token_is_sha256_of_the_text() {
    let service = HmacScanTokenService::new(b"s");
    let digest = service.hash_token("abc");
    let expected = [
        0xba, 0x78, 0x16, 0xbf, 0x8f, 0x01, 0xcf, 0xea, 0x41, 0x41, 0x40, 0xde, 0x5d, 0xae, 0x22, 0x23,
        0xb0, 0x03, 0x61, 0xa3, 0x96, 0x17, 0x7a, 0x9c, 0xb4, 0x10, 0xff, 0x61, 0xf2, 0x00, 0x15, 0xad,
    ];
    assert_eq!(digest, expected.to_vec());
}

#[test]
fn first_scan_is_authentic_and_second_is_replay() {
    let service = HmacScanTokenService::new(b"test-token-secret");
    let mut store = ScanTokenStore::new();
    let tokens = stored_batch(&service, &mut store, "SKU-123", 3, in_one_hour());
    for token in &tokens {
        let first = scan(&service, &mut store, "SKU-123", token, NOW);
        assert_eq!(first, StaticScanResult::Authentic);
        assert_eq!(first.http_status(), 200);
        let second = scan(&service, &mut store, "SKU-123", token, NOW);
        assert_eq!(second, StaticScanResult::Replay);
        assert_eq!(second.http_status(), 409);
    }
}

#[test]
fn concurrent_scan_requests_consume_token_only_once() {
    let service = HmacScanTokenService::new(b"test-token-secret");
    let mut store = ScanTokenStore::new();
    let tokens = stored_batch(&service, &mut store, "SKU-123", 1, in_one_hour());
    let mut ok_count = 0;
    let mut conflict_count = 0;
    for _ in 0..8 {
        match scan(&service, &mut store, "SKU-123", &tokens[0], NOW).http_status() {
            200 => ok_count += 1,
            409 => conflict_count += 1,
            status => panic!("unexpected status: {status}"),
        }
    }
    assert_eq!(ok_count, 1);
    assert_eq!(conflict_count, 7);
}

#[test]
fn revoke_scan_token_route_forces_scan_to_return_forbidden() {
    let service = HmacScanTokenService::new(b"test-token-secret");
    let mut store = ScanTokenStore::new();
    let tokens = stored_batch(&service, &mut store, "SKU-123", 1, in_one_hour());
    let token_id = service.parse_and_verify_token("SKU-123", &tokens[0]).unwrap().token_id;
    assert!(store.revoke(&token_id, NOW));
    let result = scan(&service, &mut store, "SKU-123", &tokens[0], NOW);
    assert_eq!(result, StaticScanResult::Revoked);
    assert_eq!(result.http_status(), 403);
}

#[test]
fn used_token_cannot_be_revoked() {
    let service = HmacScanTokenService::new(b"test-token-secret");
    let mut store = ScanTokenStore::new();
    let tokens = stored_batch(&service, &mut store, "SKU-123", 1, in_one_hour());
    let token_id = service.parse_and_verify_token("SKU-123", &tokens[0]).unwrap().token_id;
    assert_eq!(scan(&service, &mut store, "SKU-123", &tokens[0], NOW), StaticScanResult::Authentic);
    assert!(!store.revoke(&token_id, NOW));
    assert!(!store.revoke(&[0xEE; 16], NOW));
    assert_eq!(store.find_by_id(&token_id).unwrap().status, ScanTokenStatus::Used);
    assert_eq!(store.find_by_id(&token_id).unwrap().used_ip.as_deref(), Some("203.0.113.7"));
}

#[test]
fn expired_token_is_gone() {
    let service = HmacScanTokenService::new(b"test-token-secret");
    let mut store = ScanTokenStore::new();
    let tokens = stored_batch(&service, &mut store, "SKU-123", 1, in_one_hour());
    let later = UtcTime { secs: NOW.secs + 3601, nanos: 0 };
    let result = scan(&service, &mut store, "SKU-123", &tokens[0], later);
    assert_eq!(result, StaticScanResult::Expired);
    assert_eq!(result.http_status(), 410);
    let at_expiry_with_fraction = UtcTime { secs: NOW.secs + 3600, nanos: 1 };
    assert_eq!(scan(&service, &mut store, "SKU-123", &tokens[0], at_expiry_with_fraction), StaticScanResult::Expired);
}

#[test]
fn unknown_and_forged_tokens() {
    let service = HmacScanTokenService::new(b"test-token-secret");
    let mut store = ScanTokenStore::new();
    let unstored = service.generate_token("SKU-123", in_one_hour()).unwrap();
    let result = scan(&service, &mut store, "SKU-123", &unstored.token, NOW);
    assert_eq!(result, StaticScanResult::NotFound);
    assert_eq!(result.http_status(), 404);
    let forged = scan(&service, &mut store, "SKU-123", "AAAA", NOW);
    assert_eq!(forged, StaticScanResult::Invalid);
    assert_eq!(forged.http_status(), 400);
}

#[test]
fn stored_token_of_another_product_is_invalid() {
    let service = HmacScanTokenService::new(b"test-token-secret");
    let mut store = ScanTokenStore::new();
    let token = service.generate_token("SKU-2", in_one_hour()).unwrap();
    let (batch, mut records, _) = plan_token_batch(&service, None, "SKU-1", 1, NOW, in_one_hour()).unwrap();
    records[0].token_id = token.token_id;
    store.save_batch(batch);
    store.save_many(records);
    assert_eq!(scan(&service, &mut store, "SKU-2", &token.token, NOW), StaticScanResult::Invalid);
}

#[test]
fn consume_request_requires_pid_and_token() {
    assert!(matches!(validate_consume_request(&request(" ", "t")), Err(AppError::Validation(m)) if m == "pid is required"));
    assert!(matches!(validate_consume_request(&request("p", "")), Err(AppError::Validation(m)) if m == "t is required"));
    assert!(validate_consume_request(&request("p", "t")).is_ok());
}

#[test]
fn scan_event_and_response() {
    let req = request("SKU-123", "tok");
    let event = consume_scan_event(&req, Some([3; 16]), StaticScanResult::Replay, NOW);
    assert_eq!(event.verdict, "REPLAY");
    assert_eq!(event.metadata.as_deref(), Some("{\"mode\":\"one_time_tokens\"}"));
    assert_eq!(event.product_public_id.as_deref(), Some("SKU-123"));
    assert_eq!(event.token_id, Some([3; 16]));
    assert_eq!(event.tag_uid, "");
    let response = consume_response(&req, StaticScanResult::Authentic);
    assert!(response.authentic);
    let body = scan_token_response(&response);
    assert_eq!(body.result, "OK");
    assert!(!consume_response(&req, StaticScanResult::Expired).authentic);
}

#[test]
fn status_texts() {
    assert_eq!(ScanTokenStatus::Unused.as_str(), "UNUSED");
    assert_eq!(ScanTokenStatus::Used.as_str(), "USED");
    assert_eq!(ScanTokenStatus::Revoked.as_str(), "REVOKED");
    for s in [ScanTokenStatus::Unused, ScanTokenStatus::Used, ScanTokenStatus::Revoked] {
        assert_eq!(ScanTokenStatus::parse(s.as_str()), Some(s));
    }
    assert_eq!(ScanTokenStatus::parse("unused"), None);
    assert_eq!(TokenBatchStatus::Active.as_str(), "ACTIVE");
    assert_eq!(TokenBatchStatus::parse("REVOKED"), Some(TokenBatchStatus::Revoked));
    assert_eq!(StaticScanResult::NotFound.as_str(), "NOT_FOUND");
    assert_eq!(StaticScanResult::Expired.as_str(), "EXPIRED");
    assert_eq!(StaticScanResult::Invalid.as_str(), "INVALID");
}

#[test]
fn expiry_arithmetic() {
    assert_eq!(expiry_after(NOW, 86_400), Some(UtcTime { secs: NOW.secs + 86_400, nanos: 250 }));
    assert_eq!(expiry_after(UtcTime { secs: i64::MAX - 1, nanos: 0 }, 2), None);
}

#[test]
fn batch_revocation_for_a_tag() {
    let service = HmacScanTokenService::new(b"k");
    let mut store = ScanTokenStore::new();
    let (batch, tokens, generated) = plan_token_batch(&service, Some([5; 16]), "SKU", 2, NOW, in_one_hour()).unwrap();
    store.save_batch(batch);
    store.save_many(tokens);
    assert_eq!(scan(&service, &mut store, "SKU", &generated[0].token, NOW), StaticScanResult::Authentic);
    assert_eq!(store.revoke_active_batch_for_tag(&[5; 16], NOW), 1);
    assert_eq!(store.revoke_active_batch_for_tag(&[5; 16], NOW), 0);
    assert_eq!(scan(&service, &mut store, "SKU", &generated[1].token, NOW), StaticScanResult::Revoked);
    assert_eq!(scan(&service, &mut store, "SKU", &generated[0].token, NOW), StaticScanResult::Replay);
}

#[test]
fn generated_token_urls() {
    let service = HmacScanTokenService::new(b"k");
    let request = GenerateScanTokensRequest { product_public_id: "SKU-123".to_string(), count: 1, ttl_seconds: 10 };
    let plan = plan_generate_scan_tokens(&service, &request, true, NOW, in_one_hour()).unwrap();
    let dto = generated_token_dto("https://api.example.com", "SKU-123", &plan.response.tokens[0]);
    assert_eq!(dto.url, format!("https://api.example.com/v1/scan?pid=SKU-123&t={}", dto.token));
}
