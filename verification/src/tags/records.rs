//! Tags and items as the database stores them, and the reading of stored
//! rows back into tags.
use vstd::prelude::*;
use vstd::string::StringExecFns;
use crate::error::AppError;
use crate::time::UtcTime;
use crate::text::clone_opt_string;
use crate::tags::entities::{
    Tag, TagMode, TagStatus, Item, parse_tag_mode, tag_mode_text, tag_status_text,
    lemma_tag_mode_text_injective, lemma_tag_status_text_injective,
};

verus! {

/// A row of the `tags` table: mode and status are kept by name.
pub struct TagRow {
    pub id: [u8; 16],
    pub tag_uid: String,
    pub mode: String,
    pub status: String,
    pub key_version: i32,
    pub last_counter: Option<i64>,
    pub created_at: UtcTime,
    pub updated_at: UtcTime,
}

/// A row of the `items` table.
pub struct ItemRow {
    pub id: [u8; 16],
    pub product_code: String,
    pub size: Option<String>,
    pub color: Option<String>,
    pub tag_id: [u8; 16],
    pub created_at: UtcTime,
    pub updated_at: UtcTime,
}

/// `row` stores the tag `t`.
pub open spec fn row_holds_tag(row: TagRow, t: Tag) -> bool {
    &&& row.id == t.id
    &&& row.tag_uid == t.tag_uid
    &&& row.mode@ == tag_mode_text(t.mode)
    &&& row.status@ == tag_status_text(t.status)
    &&& row.key_version == t.key_version
    &&& row.last_counter == t.last_counter
    &&& row.created_at == t.created_at
    &&& row.updated_at == t.updated_at
}

/// The mode stored in a row names a mode.
pub open spec fn known_tag_mode(text: Seq<char>) -> bool {
    exists|m: TagMode| tag_mode_text(m) == text
}

/// The status stored in a row names a status.
pub open spec fn known_tag_status(text: Seq<char>) -> bool {
    exists|s: TagStatus| tag_status_text(s) == text
}

/// The row that stores a tag.
pub fn tag_row(t: &Tag) -> (row: TagRow)
    ensures
        row_holds_tag(row, *t),
{
    TagRow {
        id: t.id,
        tag_uid: t.tag_uid.clone(),
        mode: String::from_str(t.mode.as_str()),
        status: String::from_str(t.status.as_str()),
        key_version: t.key_version,
        last_counter: t.last_counter,
        created_at: t.created_at,
        updated_at: t.updated_at,
    }
}

/// Reads a stored row back into a tag. An unknown mode name is an internal
/// error with the message of the mode parser; then an unknown status is the
/// internal error `Unknown tag status`.
pub fn tag_from_row(row: TagRow) -> (r: Result<Tag, AppError>)
    ensures
        r is Ok <==> known_tag_mode(row.mode@) && known_tag_status(row.status@),
        r matches Ok(t) ==> row_holds_tag(row, t),
        r matches Err(e) ==> e matches AppError::Internal(msg) && if !known_tag_mode(row.mode@) {
            msg@ == "Unsupported tag mode: "@ + row.mode@
        } else {
            msg@ == "Unknown tag status"@
        },
{
    let mode = match parse_tag_mode(row.mode.as_str()) {
        Ok(m) => m,
        Err(e) => return Err(e),
    };
    let status = match TagStatus::parse(row.status.as_str()) {
        Some(s) => s,
        None => return Err(AppError::Internal(String::from_str("Unknown tag status"))),
    };
    Ok(Tag {
        id: row.id,
        tag_uid: row.tag_uid,
        mode,
        status,
        key_version: row.key_version,
        last_counter: row.last_counter,
        created_at: row.created_at,
        updated_at: row.updated_at,
    })
}

/// `row` stores the item `i`.
pub open spec fn row_holds_item(row: ItemRow, i: Item) -> bool {
    &&& row.id == i.id
    &&& row.product_code == i.product_code
    &&& row.size == i.size
    &&& row.color == i.color
    &&& row.tag_id == i.tag_id
    &&& row.created_at == i.created_at
    &&& row.updated_at == i.updated_at
}

/// The row that stores an item.
pub fn item_row(i: &Item) -> (row: ItemRow)
    ensures
        row_holds_item(row, *i),
{
    ItemRow {
        id: i.id,
        product_code: i.product_code.clone(),
        size: clone_opt_string(&i.size),
        color: clone_opt_string(&i.color),
        tag_id: i.tag_id,
        created_at: i.created_at,
        updated_at: i.updated_at,
    }
}

/// Reads a stored row back into an item.
pub fn item_from_row(row: ItemRow) -> (i: Item)
    ensures
        row_holds_item(row, i),
{
    Item {
        id: row.id,
        product_code: row.product_code,
        size: row.size,
        color: row.color,
        tag_id: row.tag_id,
        created_at: row.created_at,
        updated_at: row.updated_at,
    }
}

/// A tag that was stored reads back, and reads back as itself: the row of a
/// tag always decodes, and any tag that the row holds is that tag.
pub proof fn lemma_tag_row_round_trip(t: Tag, row: TagRow, back: Tag)
    requires
        row_holds_tag(row, t),
    ensures
        known_tag_mode(row.mode@) && known_tag_status(row.status@),
        row_holds_tag(row, back) ==> back == t,
{
    lemma_tag_mode_text_injective(t.mode, back.mode);
    lemma_tag_status_text_injective(t.status, back.status);
}

/// An item that was stored reads back as itself.
pub proof fn lemma_item_row_round_trip(i: Item, row: ItemRow, back: Item)
    requires
        row_holds_item(row, i),
        row_holds_item(row, back),
    ensures
        back == i,
{
}

} // verus!
