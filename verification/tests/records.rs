use anticounterfeit::error::AppError;
use anticounterfeit::scan_tokens::entities::{ScanToken, ScanTokenStatus, TokenBatch, TokenBatchStatus};
use anticounterfeit::scan_tokens::records::{batch_from_row, batch_row, token_from_row, token_row};
use anticounterfeit::tags::entities::{Item, Tag, TagMode, TagStatus};
use anticounterfeit::tags::records::{item_from_row, item_row, tag_from_row, tag_row};
use anticounterfeit::time::UtcTime;

const NOW: UtcTime = UtcTime { secs: 1_700_000_000, nanos: 7 };

fn tag() -> Tag {
    Tag {
        id: [9; 16],
        tag_uid: "04AABBCCDD".to_string(),
        mode: TagMode::OneTimeTokens,
        status: TagStatus::Revoked,
        key_version: 3,
        last_counter: Some(41),
        created_at: NOW,
        updated_at: NOW,
    }
}

#[test]
fn stored_tag_reads_back_as_itself() {
    let row = tag_row(&tag());
    assert_eq!(row.mode, "one_time_tokens");
    assert_eq!(row.status, "REVOKED");
    let back = tag_from_row(row).unwrap();
    assert_eq!(back.id, [9; 16]);
    assert_eq!(back.tag_uid, "04AABBCCDD");
    assert_eq!(back.mode, TagMode::OneTimeTokens);
    assert_eq!(back.status, TagStatus::Revoked);
    assert_eq!(back.key_version, 3);
    assert_eq!(back.last_counter, Some(41));
}

#[test]
fn unknown_stored_names_are_internal_errors() {
    let mut row = tag_row(&tag());
    row.mode = "static".to_string();
    match tag_from_row(row) {
        Err(AppError::Internal(msg)) => assert_eq!(msg, "Unsupported tag mode: static"),
        _ => panic!("expected an internal error"),
    }
    let mut row = tag_row(&tag());
    row.status = "active".to_string();
    match tag_from_row(row) {
        Err(AppError::Internal(msg)) => assert_eq!(msg, "Unknown tag status"),
        _ => panic!("expected an internal error"),
    }
}

#[test]
fn stored_item_reads_back_as_itself() {
    let item = Item {
        id: [1; 16],
        product_code: "SKU-1".to_string(),
        size: Some("M".to_string()),
        color: None,
        tag_id: [2; 16],
        created_at: NOW,
        updated_at: NOW,
    };
    let back = item_from_row(item_row(&item));
    assert_eq!(back.product_code, "SKU-1");
    assert_eq!(back.size.as_deref(), Some("M"));
    assert_eq!(back.color, None);
    assert_eq!(back.tag_id, [2; 16]);
}

#[test]
fn stored_token_and_batch_read_back() {
    let token = ScanToken {
        token_id: [3; 16],
        batch_id: Some([4; 16]),
        tag_id: None,
        product_public_id: "SKU-123".to_string(),
        expires_at: NOW,
        status: ScanTokenStatus::Used,
        created_at: NOW,
        used_at: Some(NOW),
        used_ip: Some("10.0.0.1".to_string()),
        used_user_agent: None,
        revoked_at: None,
        token_hash: vec![1, 2, 3],
    };
    let row = token_row(&token);
    assert_eq!(row.status, "USED");
    let back = token_from_row(row).unwrap();
    assert_eq!(back.status, ScanTokenStatus::Used);
    assert_eq!(back.token_hash, vec![1, 2, 3]);
    assert_eq!(back.used_ip.as_deref(), Some("10.0.0.1"));

    let mut row = token_row(&token);
    row.status = "SPENT".to_string();
    match token_from_row(row) {
        Err(AppError::Internal(msg)) => assert_eq!(msg, "Unknown scan token status"),
        _ => panic!("expected an internal error"),
    }

    let batch = TokenBatch {
        id: [5; 16],
        tag_id: Some([6; 16]),
        product_public_id: "SKU-123".to_string(),
        status: TokenBatchStatus::Active,
        expires_at: NOW,
        created_at: NOW,
        revoked_at: None,
    };
    let row = batch_row(&batch);
    assert_eq!(row.status, "ACTIVE");
    assert_eq!(batch_from_row(row).unwrap().status, TokenBatchStatus::Active);
    let mut row = batch_row(&batch);
    row.status = "CLOSED".to_string();
    match batch_from_row(row) {
        Err(AppError::Internal(msg)) => assert_eq!(msg, "Unknown token batch status"),
        _ => panic!("expected an internal error"),
    }
}
