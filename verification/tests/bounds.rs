use chrono::TimeZone;
use anticounterfeit::bytes::{i32_to_be_bytes, i64_from_be_bytes, i64_to_be_bytes};
use anticounterfeit::error::AppError;
use anticounterfeit::scan_tokens::codec::HmacScanTokenService;
use anticounterfeit::scan_tokens::entities::TokenBatchStatus;
use anticounterfeit::tags::admin::{
    enrolled_audit_event, next_messages_in_range, reconfigure_plan, rotate_key_decision, tag_token_batch,
    NextMessagesRequest, ReconfigureTagRequest,
};
use anticounterfeit::tags::entities::{Tag, TagMode, TagStatus};
use anticounterfeit::tags::provision::{enrollment_records, EnrollTagRequest};
use anticounterfeit::time::UtcTime;

const NOW: UtcTime = UtcTime { secs: 1_700_000_000, nanos: 0 };

fn tag(mode: TagMode, status: TagStatus, key_version: i32, last_counter: Option<i64>) -> Tag {
    Tag {
        id: [4; 16],
        tag_uid: "04AABBCCDD".to_string(),
        mode,
        status,
        key_version,
        last_counter,
        created_at: NOW,
        updated_at: NOW,
    }
}

#[test]
fn big_endian_bytes() {
    assert_eq!(i64_to_be_bytes(0x0102_0304_0506_0708), [1, 2, 3, 4, 5, 6, 7, 8]);
    assert_eq!(i64_to_be_bytes(-2), [0xff, 0xff, 0xff, 0xff, 0xff, 0xff, 0xff, 0xfe]);
    assert_eq!(i64_from_be_bytes([0xff; 8]), -1);
    assert_eq!(i64_from_be_bytes([0, 0, 0, 0, 0x65, 0x53, 0xf1, 0x00]), 1_700_000_000);
    assert_eq!(i32_to_be_bytes(258), [0, 0, 1, 2]);
    assert_eq!(i32_to_be_bytes(i32::MIN), [0x80, 0, 0, 0]);
}

#[test]
fn enrolment_with_a_free_uid_succeeds() {
    let request = EnrollTagRequest {
        tag_uid: "04aabbccdd".to_string(),
        product_code: "SKU-9".to_string(),
        size: None,
        color: Some("RED".to_string()),
        mode: TagMode::OneTimeTokens,
    };
    let (tag, item) = enrollment_records(&request, "04AABBCCDD".to_string(), false, NOW).unwrap();
    assert_eq!(tag.status, TagStatus::Active);
    assert_eq!(tag.key_version, 1);
    assert_eq!(item.tag_id, tag.id);
    assert!(matches!(
        enrollment_records(&request, "04AABBCCDD".to_string(), true, NOW),
        Err(AppError::TagAlreadyExists)
    ));
}

#[test]
fn issued_batch_is_active() {
    let service = HmacScanTokenService::new(b"k");
    let (batch, _, _) = tag_token_batch(&service, [4; 16], "SKU-1", 1, 60, NOW, NOW).unwrap();
    assert_eq!(batch.status, TokenBatchStatus::Active);
    assert!(batch.revoked_at.is_none());
    assert!(matches!(
        tag_token_batch(&service, [4; 16], "SKU-1", 1001, 60, NOW, NOW),
        Err(AppError::Validation(m)) if m == "count must be between 1 and 1000"
    ));
}

#[test]
fn status_checks_come_before_the_counter_bounds() {
    let revoked = tag(TagMode::DynamicCmac, TagStatus::Revoked, i32::MAX, Some(i64::MAX));
    let tokens = tag(TagMode::OneTimeTokens, TagStatus::Active, i32::MAX, Some(i64::MAX));
    assert!(matches!(rotate_key_decision(Some(&revoked)), Err(AppError::TagRevoked)));
    assert!(matches!(rotate_key_decision(Some(&tokens)), Err(AppError::UnsupportedTagMode)));

    let request = NextMessagesRequest { tag_id: [4; 16], count: 3, starting_counter: None };
    assert!(next_messages_in_range(Some(&revoked), &request));
    assert!(next_messages_in_range(Some(&tokens), &request));
    let active = tag(TagMode::DynamicCmac, TagStatus::Active, 1, Some(i64::MAX - 1));
    assert!(!next_messages_in_range(Some(&active), &request));
    let negative_start = NextMessagesRequest { tag_id: [4; 16], count: 3, starting_counter: Some(-5) };
    assert!(next_messages_in_range(Some(&active), &negative_start));

    let dynamic_at_max = tag(TagMode::DynamicCmac, TagStatus::Active, i32::MAX, None);
    let rotate = ReconfigureTagRequest {
        tag_id: [4; 16],
        reset_counter: false,
        rotate_key: true,
        revoke_existing_batch: true,
        token_count: None,
        ttl_seconds: None,
    };
    assert!(matches!(reconfigure_plan(&dynamic_at_max, None, &rotate), Err(AppError::ProductNotFound)));
}

#[test]
fn audit_metadata_escapes_json() {
    let t = tag(TagMode::DynamicCmac, TagStatus::Active, 1, None);
    let event = enrolled_audit_event(&t, "a\"b\\c\nd\u{1}", NOW);
    assert_eq!(
        event.metadata.as_deref(),
        Some("{\"mode\":\"dynamic_cmac\",\"product_code\":\"a\\\"b\\\\c\\nd\\u0001\"}")
    );
}

use anticounterfeit::config::{Config, EnvValues};
use anticounterfeit::text::{parse_i64, parse_u32, trim_end_char};

#[test]
fn decimal_numbers_parse_as_std_does() {
    for text in ["0", "7", "+12", "0042", "4294967295", "4294967296", "", "+", "-", "-1", "1a", " 1", "٣"] {
        assert_eq!(parse_u32(text), text.parse::<u32>().ok(), "{text:?}");
    }
    for text in [
        "0", "-0", "+5", "-5", "9223372036854775807", "9223372036854775808", "-9223372036854775808",
        "-9223372036854775809", "--1", "+-1", "", "-", "1_000", "86400",
    ] {
        assert_eq!(parse_i64(text), text.parse::<i64>().ok(), "{text:?}");
    }
}

fn env() -> EnvValues {
    EnvValues {
        address: Some("127.0.0.1:9000".to_string()),
        database_url: Some("postgres://db".to_string()),
        api_domain: Some("api.example.com".to_string()),
        token_secret: None,
        hmac_secret: Some("hmac".to_string()),
        scan_token_secret: Some("scan".to_string()),
        admin_key: None,
        admin_api_key: Some("admin".to_string()),
        db_wipe_token: None,
        wipe_db_token: None,
        tag_signing_master: Some("00".to_string()),
        master_key_hex: None,
        default_scan_token_batch_size: Some("x".to_string()),
        default_scan_token_ttl_seconds: Some("60".to_string()),
    }
}

#[test]
fn settings_from_values() {
    let c = Config::from_values(env()).unwrap();
    assert_eq!(c.address, "127.0.0.1:9000");
    assert_eq!(c.api_domain, "api.example.com");
    assert_eq!(c.token_secret, "hmac");
    assert_eq!(c.admin_key, "admin");
    assert_eq!(c.db_wipe_token, None);
    assert_eq!(c.default_scan_token_batch_size, 3);
    assert_eq!(c.default_scan_token_ttl_seconds, 60);

    let mut e = env();
    e.database_url = None;
    e.admin_api_key = None;
    assert!(matches!(Config::from_values(e), Err(m) if m == "DATABASE_URL is required in the root .env"));
    let mut e = env();
    e.admin_api_key = None;
    assert!(matches!(Config::from_values(e), Err(m) if m == "ADMIN_KEY is required in the root .env"));
    let mut e = env();
    e.address = None;
    e.api_domain = None;
    assert!(matches!(Config::from_values(e), Err(m) if m == "ADDRESS is required in the root .env"));
    let mut e = env();
    e.api_domain = None;
    assert!(matches!(Config::from_values(e), Err(m) if m == "API_DOMAIN is required in the root .env"));
    assert!(matches!(
        anticounterfeit::server_config::Config::from_values(None, Some("postgres://db".to_string())),
        Err(m) if m == "ADDRESS is required in the root .env"
    ));
    let server = anticounterfeit::server_config::Config::from_values(
        Some("0.0.0.0:8080".to_string()),
        Some("postgres://db".to_string()),
    )
    .unwrap();
    assert_eq!(server.address, "0.0.0.0:8080");
    let mut e = env();
    e.hmac_secret = None;
    e.scan_token_secret = None;
    assert!(matches!(
        Config::from_values(e),
        Err(m) if m == "TOKEN_SECRET or legacy SCAN_TOKEN_SECRET/HMAC_SECRET is required in the root .env"
    ));
}

use anticounterfeit::scan_tokens::codec::ScanTokenService;

fn round_trip<S: ScanTokenService>(service: &S, pid: &str, expires_at: UtcTime) -> ([u8; 16], [u8; 16], UtcTime, usize) {
    let generated = service.generate_token(pid, expires_at).unwrap();
    let verified = service.parse_and_verify_token(pid, &generated.token).unwrap();
    (generated.token_id, verified.token_id, verified.expires_at, service.hash_token(&generated.token).len())
}

#[test]
fn token_service_trait_round_trips() {
    let service = HmacScanTokenService::new(b"test-secret");
    let expires = UtcTime { secs: NOW.secs + 3600, nanos: 0 };
    let (issued, read, at, hash_len) = round_trip(&service, "PID-123", expires);
    assert_eq!(issued, read);
    assert_eq!(at, expires);
    assert_eq!(hash_len, 32);
    let g = ScanTokenService::generate_token(&service, "PID-123", expires).unwrap();
    assert!(matches!(
        ScanTokenService::parse_and_verify_token(&service, "PID-999", &g.token),
        Err(AppError::Validation(_))
    ));
}

#[test]
fn trailing_characters_are_trimmed() {
    for (text, c) in [("https://a.example//", '/'), ("", '/'), ("///", '/'), ("a/b", '/'), ("éé", 'é'), ("xé", 'é')] {
        assert_eq!(trim_end_char(text, c), text.trim_end_matches(c));
    }
}

#[test]
fn expiry_range_is_chronos() {
    let first: i64 = -8_334_601_228_800;
    let last: i64 = 8_210_266_876_799;
    assert!(chrono::Utc.timestamp_opt(first, 0).single().is_some());
    assert!(chrono::Utc.timestamp_opt(first - 1, 0).single().is_none());
    assert!(chrono::Utc.timestamp_opt(last, 0).single().is_some());
    assert!(chrono::Utc.timestamp_opt(last + 1, 0).single().is_none());

    let service = HmacScanTokenService::new(b"k");
    for secs in [first, last] {
        let g = service.encode_token([7; 16], "P", UtcTime { secs, nanos: 0 }).unwrap();
        assert_eq!(service.parse_and_verify_token("P", &g.token).unwrap().expires_at.secs, secs);
    }
    for secs in [first - 1, last + 1] {
        let g = service.encode_token([7; 16], "P", UtcTime { secs, nanos: 0 }).unwrap();
        assert!(matches!(
            service.parse_and_verify_token("P", &g.token),
            Err(AppError::Validation(m)) if m == "expires_at is invalid"
        ));
    }
}

#[test]
fn next_messages_check_the_count_first() {
    use_count_check();
}

fn use_count_check() {
    let crypto = anticounterfeit::tags::cmac::AesCmacService::new("000102030405060708090A0B0C0D0E0F").unwrap();
    for count in [0u32, 51] {
        let request = NextMessagesRequest { tag_id: [4; 16], count, starting_counter: None };
        assert!(matches!(
            anticounterfeit::tags::admin::next_messages_for_tag(&crypto, None, &request),
            Err(AppError::Validation(m)) if m == "count must be between 1 and 50"
        ));
    }
    let request = NextMessagesRequest { tag_id: [4; 16], count: 2, starting_counter: None };
    assert!(matches!(
        anticounterfeit::tags::admin::next_messages_for_tag(&crypto, None, &request),
        Err(AppError::TagNotFound)
    ));
}

#[test]
fn negative_counter_is_a_validation_error() {
    let crypto = anticounterfeit::tags::cmac::AesCmacService::new("000102030405060708090A0B0C0D0E0F").unwrap();
    let t = tag(TagMode::DynamicCmac, TagStatus::Active, 1, None);
    let request = anticounterfeit::tags::verify::VerifyRequest {
        tag_uid: "04AABBCCDD".to_string(),
        counter: -1,
        cmac: "00112233445566778899AABBCCDDEEFF".to_string(),
    };
    assert!(matches!(
        anticounterfeit::tags::verify::verify_decide(&crypto, "04AABBCCDD", Some(&t), &request),
        Err(AppError::Validation(m)) if m == "counter must be greater than or equal to 0"
    ));
}

fn stored_token(id: u8, status: anticounterfeit::scan_tokens::entities::ScanTokenStatus) -> anticounterfeit::scan_tokens::entities::ScanToken {
    anticounterfeit::scan_tokens::entities::ScanToken {
        token_id: [id; 16],
        batch_id: Some([9; 16]),
        tag_id: None,
        product_public_id: "SKU-1".to_string(),
        expires_at: NOW,
        status,
        created_at: NOW,
        used_at: None,
        used_ip: None,
        used_user_agent: None,
        revoked_at: None,
        token_hash: vec![id],
    }
}

#[test]
fn saved_tokens_are_found_as_given() {
    type S = anticounterfeit::scan_tokens::entities::ScanTokenStatus;
    let mut store = anticounterfeit::scan_tokens::store::ScanTokenStore::new();
    store.save(stored_token(1, S::Used));
    store.save_many(vec![stored_token(2, S::Unused), stored_token(1, S::Revoked), stored_token(2, S::Used)]);
    assert_eq!(store.find_by_id(&[1; 16]).unwrap().status, S::Revoked);
    assert_eq!(store.find_by_id(&[2; 16]).unwrap().status, S::Used);
    store.save_many(vec![stored_token(3, S::Unused)]);
    assert_eq!(store.find_by_id(&[3; 16]).unwrap().status, S::Unused);
    assert_eq!(store.find_by_id(&[1; 16]).unwrap().status, S::Revoked);
}
