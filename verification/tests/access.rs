use anticounterfeit::auth::{check_admin_key, check_bearer_token, wipe_database_gate};
use anticounterfeit::error::AppError;
use anticounterfeit::scan_tokens::codec::HmacScanTokenService;
use anticounterfeit::scan_tokens::dtos::generated_token_dto;
use anticounterfeit::scan_tokens::usecases::{
    expiry_after, plan_generate_scan_tokens, validate_generate_request, GenerateScanTokensRequest,
};
use anticounterfeit::tags::catalog::{catalog_items, catalog_tags, order_newest_first};
use anticounterfeit::tags::entities::{Item, Tag, TagMode, TagStatus};
use anticounterfeit::tags::store::ItemStore;
use anticounterfeit::time::UtcTime;

const NOW: UtcTime = UtcTime { secs: 1_700_000_000, nanos: 0 };

#[test]
fn wipe_database_route_requires_bearer_token() {
    let answer = wipe_database_gate(Some("wipe-secret"), None, false);
    let (code, message) = answer.unwrap_err();
    assert_eq!(code, 401);
    assert_eq!(message, "Unauthorized");
}

#[test]
fn wipe_database_route_returns_service_unavailable_without_db_connection() {
    let answer = wipe_database_gate(Some("wipe-secret"), Some("Bearer wipe-secret"), false);
    let (code, message) = answer.unwrap_err();
    assert_eq!(code, 503);
    assert_eq!(
        message,
        "Database wipe route is unavailable because no database connection is configured."
    );
}

#[test]
fn wipe_gate_without_configured_token_and_with_everything() {
    let (code, message) = wipe_database_gate(None, Some("Bearer x"), true).unwrap_err();
    assert_eq!(code, 503);
    assert_eq!(message, "Database wipe route is disabled. Set DB_WIPE_TOKEN to enable it.");
    assert!(wipe_database_gate(Some("wipe-secret"), Some("Bearer wipe-secret"), true).is_ok());
    assert!(wipe_database_gate(Some("wipe-secret"), Some("Bearer other"), true).is_err());
}

#[test]
fn admin_key_and_bearer_checks() {
    assert!(check_admin_key(Some("admin-secret"), "admin-secret").is_ok());
    assert!(matches!(check_admin_key(Some("admin"), "admin-secret"), Err(AppError::Unauthorized)));
    assert!(matches!(check_admin_key(None, "admin-secret"), Err(AppError::Unauthorized)));
    assert!(check_bearer_token(Some("Bearer t0k"), "t0k").is_ok());
    assert!(matches!(check_bearer_token(Some("bearer t0k"), "t0k"), Err(AppError::Unauthorized)));
    assert!(matches!(check_bearer_token(Some("t0k"), "t0k"), Err(AppError::Unauthorized)));
    assert!(matches!(check_bearer_token(Some("Bearer t0k "), "t0k"), Err(AppError::Unauthorized)));
    assert!(matches!(check_bearer_token(None, "t0k"), Err(AppError::Unauthorized)));
}

#[test]
fn generate_scan_tokens_route_returns_urls() {
    let mut items = ItemStore::new();
    items.save(Item {
        id: [1; 16],
        product_code: "SKU-123".to_string(),
        size: Some("M".to_string()),
        color: Some("BLACK".to_string()),
        tag_id: [2; 16],
        created_at: NOW,
        updated_at: NOW,
    });
    let service = HmacScanTokenService::new(b"test-token-secret");
    let request = GenerateScanTokensRequest { product_public_id: "SKU-123".to_string(), count: 3, ttl_seconds: 3600 };
    validate_generate_request(&request).unwrap();
    let exists = items.exists_by_product_code(&request.product_public_id);
    let expires_at = expiry_after(NOW, request.ttl_seconds).unwrap();
    let plan = plan_generate_scan_tokens(&service, &request, exists, NOW, expires_at).unwrap();
    assert_eq!(plan.response.product_public_id, "SKU-123");
    assert_eq!(plan.response.tokens.len(), 3);
    for token in &plan.response.tokens {
        let dto = generated_token_dto("https://api.example.com", &plan.response.product_public_id, token);
        assert_eq!(dto.url, format!("https://api.example.com/v1/scan?pid=SKU-123&t={}", token.token));
    }
}

fn tag(id: u8, created: i64) -> Tag {
    Tag {
        id: [id; 16],
        tag_uid: format!("04AABB{:02X}", id),
        mode: TagMode::DynamicCmac,
        status: TagStatus::Active,
        key_version: 1,
        last_counter: None,
        created_at: UtcTime { secs: created, nanos: 0 },
        updated_at: UtcTime { secs: created, nanos: 0 },
    }
}

fn item(id: u8, tag_id: u8, created: i64) -> Item {
    Item {
        id: [id; 16],
        product_code: format!("SKU-{id}"),
        size: None,
        color: None,
        tag_id: [tag_id; 16],
        created_at: UtcTime { secs: created, nanos: 0 },
        updated_at: UtcTime { secs: created, nanos: 0 },
    }
}

#[test]
fn newest_first_order_is_stable() {
    let keys = vec![
        UtcTime { secs: 10, nanos: 0 },
        UtcTime { secs: 30, nanos: 0 },
        UtcTime { secs: 10, nanos: 0 },
        UtcTime { secs: 20, nanos: 5 },
    ];
    assert_eq!(order_newest_first(&keys), vec![1, 3, 0, 2]);
}

#[test]
fn catalog_lists_newest_first_and_joins_items_and_tags() {
    let tags = vec![tag(1, 100), tag(2, 300), tag(3, 200)];
    let items = vec![item(11, 1, 50), item(12, 2, 70), item(13, 9, 90)];

    let listed = catalog_items(&items, &tags);
    assert_eq!(listed.len(), 2);
    assert_eq!(listed[0].item.id, [12; 16]);
    assert_eq!(listed[0].tag.id, [2; 16]);
    assert_eq!(listed[1].item.id, [11; 16]);

    let listed_tags = catalog_tags(&items, &tags);
    assert_eq!(listed_tags.len(), 3);
    assert_eq!(listed_tags[0].tag.id, [2; 16]);
    assert_eq!(listed_tags[0].item.as_ref().unwrap().id, [12; 16]);
    assert_eq!(listed_tags[1].tag.id, [3; 16]);
    assert!(listed_tags[1].item.is_none());
    assert_eq!(listed_tags[2].tag.id, [1; 16]);
}
