//! Bodies and queries of the one-time token HTTP endpoints.
use vstd::prelude::*;
use vstd::string::StringExecFns;
use crate::time::UtcTime;
use crate::scan_tokens::entities::static_scan_result_text;
use crate::scan_tokens::usecases::{ConsumeScanTokenResponse, GeneratedScanTokenUrl};
use crate::tags::provision::scan_path;

verus! {

/// Body of a batch generation request; the product comes from the path.
pub struct GenerateScanTokensRequest {
    pub count: u32,
    pub ttl_seconds: i64,
}

/// One generated token with the full URL to write to a tag.
pub struct GeneratedScanTokenDto {
    pub token_id: [u8; 16],
    pub token: String,
    pub url: String,
    pub expires_at: UtcTime,
}

/// Query of a scan: `pid` and `t`.
pub struct ScanQuery {
    pub pid: String,
    pub t: String,
}

/// Body of the answer to a scan.
pub struct ScanTokenResponse {
    pub product_public_id: String,
    pub result: String,
    pub authentic: bool,
}

/// The full scan URL of a generated token under a base URL.
pub fn generated_token_dto(base_url: &str, product_public_id: &str, token: &GeneratedScanTokenUrl) -> (d: GeneratedScanTokenDto)
    ensures
        d.token_id == token.token_id,
        d.token@ == token.token@,
        d.url@ == base_url@ + scan_path(product_public_id@, token.token@),
        d.expires_at == token.expires_at,
{
    let url = String::from_str(base_url).concat("/v1/scan?pid=").concat(product_public_id).concat("&t=")
        .concat(token.token.as_str());
    GeneratedScanTokenDto { token_id: token.token_id, token: token.token.clone(), url, expires_at: token.expires_at }
}

/// The body answering a scan.
pub fn scan_token_response(r: &ConsumeScanTokenResponse) -> (d: ScanTokenResponse)
    ensures
        d.product_public_id@ == r.product_public_id@,
        d.result@ == static_scan_result_text(r.result),
        d.authentic == r.authentic,
{
    ScanTokenResponse {
        product_public_id: r.product_public_id.clone(),
        result: String::from_str(r.result.as_str()),
        authentic: r.authentic,
    }
}

} // verus!
