//! Properties of the service as a whole: what each kind of scan is
//! answered, that a one-time token and a dynamic counter are accepted at
//! most once, and that the messages issued for a dynamic tag verify.
use vstd::prelude::*;
use crate::time::UtcTime;
use crate::bytes::{hex_upper_seq, lemma_hex_roundtrip, hex_val, hex_decode_seq, i64_be, i64_of_be, i32_be, lemma_i64_be_roundtrip};
use crate::text::is_hex_digit;
use crate::crypto::{hmac_sha256_spec, aes128_cmac_spec, base64url_encode_spec, base64url_decode_spec};
use crate::tags::cmac::AesCmacService;
use crate::tags::provision::{normalized_uid, is_valid_uid};
use crate::scan_tokens::codec::{token_text, check_token};
use vstd::utf8::encode_utf8;
use crate::scan_tokens::entities::{ScanToken, ScanTokenStatus, StaticScanResult, static_scan_status};
use crate::scan_tokens::usecases::{stored_token_step, token_matches_batch};
use crate::scan_tokens::codec::{HmacScanTokenService, GeneratedScanToken, ScanTokenService, TokenDefect};
use crate::scan_tokens::entities::TokenBatch;
use crate::crypto::utc_timestamp_valid;
use crate::scan_tokens::store::{saved_tokens, last_with_id, lemma_saved_tokens, token_ids_distinct, has_token, token_index, consume_result, consumed_token, revoked_token,
    same_token_ids, lemma_same_token_ids};
use crate::tags::entities::{Tag, TagMode, TagStatus, ScanVerdict, scan_verdict_status};
use crate::tags::store::{tag_ids_distinct, has_tag, tag_index, counter_accepts, counter_update_result,
    same_tag_ids, lemma_same_tag_ids};
use crate::tags::verify::{verify_decision, signature_bytes};
use crate::tags::admin::{message_cmac, next_start};
use crate::tags::cmac::CryptoService;
use crate::tags::provision::dynamic_message;

verus! {

/// A token whose record is unused, scanned for its own product before
/// either of its expiries, goes on to the atomic consumption.
pub proof fn lemma_fresh_token_goes_to_consumption(
    product_public_id: Seq<char>,
    verified_id: Seq<u8>,
    verified_expiry: UtcTime,
    stored: ScanToken,
    now: UtcTime,
)
    requires
        stored.product_public_id@ == product_public_id,
        stored.status == ScanTokenStatus::Unused,
        !stored.expires_at.earlier(now),
        !verified_expiry.earlier(now),
    ensures
        stored_token_step(product_public_id, verified_id, verified_expiry, Some(stored), now)
            == (Some(stored.token_id@), None::<StaticScanResult>),
{
}

/// A token already used is answered `REPLAY` (409) by every later scan for
/// its product, whatever the time.
pub proof fn lemma_used_token_replays(
    product_public_id: Seq<char>,
    verified_id: Seq<u8>,
    verified_expiry: UtcTime,
    stored: ScanToken,
    now: UtcTime,
)
    requires
        stored.product_public_id@ == product_public_id,
        stored.status == ScanTokenStatus::Used,
    ensures
        stored_token_step(product_public_id, verified_id, verified_expiry, Some(stored), now).1
            == Some(StaticScanResult::Replay),
        static_scan_status(StaticScanResult::Replay) == 409,
{
}

/// A revoked token is answered `REVOKED` (403).
pub proof fn lemma_revoked_token_forbidden(
    product_public_id: Seq<char>,
    verified_id: Seq<u8>,
    verified_expiry: UtcTime,
    stored: ScanToken,
    now: UtcTime,
)
    requires
        stored.product_public_id@ == product_public_id,
        stored.status == ScanTokenStatus::Revoked,
    ensures
        stored_token_step(product_public_id, verified_id, verified_expiry, Some(stored), now).1
            == Some(StaticScanResult::Revoked),
        static_scan_status(StaticScanResult::Revoked) == 403,
{
}

/// An unused token scanned after its expiry is answered `EXPIRED` (410).
pub proof fn lemma_expired_token_gone(
    product_public_id: Seq<char>,
    verified_id: Seq<u8>,
    verified_expiry: UtcTime,
    stored: ScanToken,
    now: UtcTime,
)
    requires
        stored.product_public_id@ == product_public_id,
        stored.status == ScanTokenStatus::Unused,
        stored.expires_at.earlier(now) || verified_expiry.earlier(now),
    ensures
        stored_token_step(product_public_id, verified_id, verified_expiry, Some(stored), now).1
            == Some(StaticScanResult::Expired),
        static_scan_status(StaticScanResult::Expired) == 410,
{
}

/// One attempt to consume a token: when it is made, and the client's
/// address and user agent.
pub type ConsumeAttempt = (UtcTime, Option<String>, Option<String>);

/// How many of the successive `attempts` to consume the token `id` succeed.
pub open spec fn consume_successes(s: Seq<ScanToken>, id: [u8; 16], attempts: Seq<ConsumeAttempt>) -> nat
    decreases attempts.len(),
{
    if attempts.len() == 0 {
        0
    } else {
        let (ok, next) = consume_result(s, id, attempts[0].0, attempts[0].1, attempts[0].2);
        (if ok { 1nat } else { 0nat }) + consume_successes(next, id, attempts.drop_first())
    }
}

/// Attempts on a token that is not unused all fail.
proof fn lemma_consume_fails_when_not_unused(s: Seq<ScanToken>, id: [u8; 16], attempts: Seq<ConsumeAttempt>)
    requires
        !(has_token(s, id) && s[token_index(s, id)].status == ScanTokenStatus::Unused),
    ensures
        consume_successes(s, id, attempts) == 0,
    decreases attempts.len(),
{
    if attempts.len() > 0 {
        lemma_consume_fails_when_not_unused(s, id, attempts.drop_first());
    }
}

/// Of any sequence of attempts to consume one token, made at any times by
/// any clients, exactly one succeeds when it was unused, and none otherwise:
/// a token is consumed once.
pub proof fn lemma_token_consumed_once(s: Seq<ScanToken>, id: [u8; 16], attempts: Seq<ConsumeAttempt>)
    requires
        token_ids_distinct(s),
    ensures
        consume_successes(s, id, attempts) == if attempts.len() > 0 && has_token(s, id)
            && s[token_index(s, id)].status == ScanTokenStatus::Unused { 1nat } else { 0nat },
{
    if attempts.len() > 0 && has_token(s, id) && s[token_index(s, id)].status == ScanTokenStatus::Unused {
        let i = token_index(s, id);
        let (at, ip, user_agent) = attempts[0];
        let next = consume_result(s, id, at, ip, user_agent).1;
        assert(next == s.update(i, consumed_token(s[i], at, ip, user_agent)));
        assert(same_token_ids(s, next));
        lemma_same_token_ids(s, next);
        assert(next[token_index(next, id)].status == ScanTokenStatus::Used);
        lemma_consume_fails_when_not_unused(next, id, attempts.drop_first());
    } else if attempts.len() > 0 {
        lemma_consume_fails_when_not_unused(s, id, attempts);
    }
}

/// Once a token has been consumed, every later scan of it for its product,
/// at any time, is answered `REPLAY` (409).
pub proof fn lemma_consumed_token_replays(
    s: Seq<ScanToken>,
    id: [u8; 16],
    at: UtcTime,
    ip: Option<String>,
    user_agent: Option<String>,
    product_public_id: Seq<char>,
    verified_id: Seq<u8>,
    verified_expiry: UtcTime,
    later: UtcTime,
)
    requires
        token_ids_distinct(s),
        has_token(s, id),
        s[token_index(s, id)].status == ScanTokenStatus::Unused,
        s[token_index(s, id)].product_public_id@ == product_public_id,
    ensures
        ({
            let (ok, next) = consume_result(s, id, at, ip, user_agent);
            &&& ok
            &&& has_token(next, id)
            &&& next[token_index(next, id)].used_at == Some(at)
            &&& next[token_index(next, id)].used_ip == ip
            &&& next[token_index(next, id)].used_user_agent == user_agent
            &&& stored_token_step(product_public_id, verified_id, verified_expiry,
                    Some(next[token_index(next, id)]), later).1 == Some(StaticScanResult::Replay)
        }),
{
    let i = token_index(s, id);
    let next = consume_result(s, id, at, ip, user_agent).1;
    assert(same_token_ids(s, next));
    lemma_same_token_ids(s, next);
    lemma_used_token_replays(product_public_id, verified_id, verified_expiry, next[i], later);
}

/// A token that has been revoked is answered `REVOKED` (403) by every
/// later scan for its product.
pub proof fn lemma_revoked_token_scans_forbidden(
    stored: ScanToken,
    revoked_at: UtcTime,
    product_public_id: Seq<char>,
    verified_id: Seq<u8>,
    verified_expiry: UtcTime,
    later: UtcTime,
)
    requires
        stored.product_public_id@ == product_public_id,
    ensures
        stored_token_step(product_public_id, verified_id, verified_expiry,
            Some(revoked_token(stored, revoked_at)), later).1 == Some(StaticScanResult::Revoked),
{
    lemma_revoked_token_forbidden(product_public_id, verified_id, verified_expiry,
        revoked_token(stored, revoked_at), later);
}

/// A token of a generated batch, once saved with the batch's other tokens,
/// is found unused: its first scan for its product before its expiry goes
/// on to consumption, and of any attempts to consume it exactly one
/// succeeds.
pub proof fn lemma_saved_token_scanned_once(
    s: Seq<ScanToken>,
    ts: Seq<ScanToken>,
    k: int,
    product_public_id: Seq<char>,
    verified_id: Seq<u8>,
    verified_expiry: UtcTime,
    now: UtcTime,
    attempts: Seq<ConsumeAttempt>,
)
    requires
        token_ids_distinct(s),
        0 <= k < ts.len(),
        last_with_id(ts, k),
        ts[k].status == ScanTokenStatus::Unused,
        ts[k].product_public_id@ == product_public_id,
        !ts[k].expires_at.earlier(now),
        !verified_expiry.earlier(now),
        attempts.len() > 0,
    ensures
        has_token(saved_tokens(s, ts), ts[k].token_id),
        stored_token_step(product_public_id, verified_id, verified_expiry,
            Some(saved_tokens(s, ts)[token_index(saved_tokens(s, ts), ts[k].token_id)]), now)
            == (Some(ts[k].token_id@), None::<StaticScanResult>),
        consume_successes(saved_tokens(s, ts), ts[k].token_id, attempts) == 1,
{
    lemma_saved_tokens(s, ts);
    let r = saved_tokens(s, ts);
    assert(r[token_index(r, ts[k].token_id)] == ts[k]);
    lemma_fresh_token_goes_to_consumption(product_public_id, verified_id, verified_expiry, ts[k], now);
    lemma_token_consumed_once(r, ts[k].token_id, attempts);
}

/// How many of the successive attempts to record `counter` for the tag
/// `id`, made at the times `nows`, succeed.
pub open spec fn counter_successes(s: Seq<Tag>, id: [u8; 16], counter: i64, nows: Seq<UtcTime>) -> nat
    decreases nows.len(),
{
    if nows.len() == 0 {
        0
    } else {
        let (ok, next) = counter_update_result(s, id, counter, nows[0]);
        (if ok { 1nat } else { 0nat }) + counter_successes(next, id, counter, nows.drop_first())
    }
}

proof fn lemma_counter_fails_when_not_accepted(s: Seq<Tag>, id: [u8; 16], counter: i64, nows: Seq<UtcTime>)
    requires
        !(has_tag(s, id) && counter_accepts(s[tag_index(s, id)].last_counter, counter)),
    ensures
        counter_successes(s, id, counter, nows) == 0,
    decreases nows.len(),
{
    if nows.len() > 0 {
        lemma_counter_fails_when_not_accepted(s, id, counter, nows.drop_first());
    }
}

/// Of any sequence of authentic messages with the same counter, received at
/// any times, at most one is accepted: every other one is a replay.
pub proof fn lemma_counter_accepted_once(s: Seq<Tag>, id: [u8; 16], counter: i64, nows: Seq<UtcTime>)
    requires
        tag_ids_distinct(s),
    ensures
        counter_successes(s, id, counter, nows) == if nows.len() > 0 && has_tag(s, id)
            && counter_accepts(s[tag_index(s, id)].last_counter, counter) { 1nat } else { 0nat },
{
    if nows.len() > 0 && has_tag(s, id) && counter_accepts(s[tag_index(s, id)].last_counter, counter) {
        let next = counter_update_result(s, id, counter, nows[0]).1;
        assert(same_tag_ids(s, next));
        lemma_same_tag_ids(s, next);
        assert(next[tag_index(next, id)].last_counter == Some(counter));
        lemma_counter_fails_when_not_accepted(next, id, counter, nows.drop_first());
    } else if nows.len() > 0 {
        lemma_counter_fails_when_not_accepted(s, id, counter, nows);
    }
}

/// Records the counters `cs` for the tag `id`, the i-th at `nows[i]`: how
/// many were accepted, and the tags after them.
pub open spec fn record_counters(s: Seq<Tag>, id: [u8; 16], cs: Seq<i64>, nows: Seq<UtcTime>) -> (nat, Seq<Tag>)
    decreases cs.len(),
{
    if cs.len() == 0 || nows.len() == 0 {
        (0, s)
    } else {
        let (ok, next) = counter_update_result(s, id, cs[0], nows[0]);
        let (n, last) = record_counters(next, id, cs.drop_first(), nows.drop_first());
        ((if ok { 1nat } else { 0nat }) + n, last)
    }
}

/// Counters received in increasing order, the first above the last accepted
/// one, are all accepted; afterwards any of them received again is refused
/// as a replay.
pub proof fn lemma_increasing_counters_then_replay(
    s: Seq<Tag>,
    id: [u8; 16],
    cs: Seq<i64>,
    nows: Seq<UtcTime>,
    k: int,
    again: UtcTime,
)
    requires
        tag_ids_distinct(s),
        has_tag(s, id),
        cs.len() > 0,
        nows.len() == cs.len(),
        counter_accepts(s[tag_index(s, id)].last_counter, cs[0]),
        forall|i: int, j: int| 0 <= i < j < cs.len() ==> cs[i] < cs[j],
        0 <= k < cs.len(),
    ensures
        record_counters(s, id, cs, nows).0 == cs.len(),
        !counter_update_result(record_counters(s, id, cs, nows).1, id, cs[k], again).0,
    decreases cs.len(),
{
    let next = counter_update_result(s, id, cs[0], nows[0]).1;
    assert(same_tag_ids(s, next));
    lemma_same_tag_ids(s, next);
    assert(next[tag_index(next, id)].last_counter == Some(cs[0]));
    if cs.len() == 1 {
        assert(cs.drop_first().len() == 0);
        assert(record_counters(next, id, cs.drop_first(), nows.drop_first()) == (0nat, next));
        assert(record_counters(s, id, cs, nows).1 == next);
        assert(k == 0);
    } else {
        let rest = cs.drop_first();
        let rest_nows = nows.drop_first();
        assert(rest[0] == cs[1]);
        if k == 0 {
            lemma_increasing_counters_then_replay(next, id, rest, rest_nows, 0, again);
            lemma_record_keeps_counter_above(next, id, rest, rest_nows, cs[0]);
        } else {
            assert(rest[k - 1] == cs[k]);
            lemma_increasing_counters_then_replay(next, id, rest, rest_nows, k - 1, again);
        }
    }
}

/// Recording more counters never brings the tag's last counter below
/// `floor`, so `floor` stays refused.
proof fn lemma_record_keeps_counter_above(s: Seq<Tag>, id: [u8; 16], cs: Seq<i64>, nows: Seq<UtcTime>, floor: i64)
    requires
        tag_ids_distinct(s),
        has_tag(s, id),
        s[tag_index(s, id)].last_counter matches Some(l) && l >= floor,
    ensures
        tag_ids_distinct(record_counters(s, id, cs, nows).1),
        has_tag(record_counters(s, id, cs, nows).1, id),
        record_counters(s, id, cs, nows).1[tag_index(record_counters(s, id, cs, nows).1, id)].last_counter
            matches Some(l) && l >= floor,
    decreases cs.len(),
{
    if cs.len() > 0 && nows.len() > 0 {
        let next = counter_update_result(s, id, cs[0], nows[0]).1;
        assert(same_tag_ids(s, next));
        lemma_same_tag_ids(s, next);
        lemma_record_keeps_counter_above(next, id, cs.drop_first(), nows.drop_first(), floor);
    }
}

/// Once a counter is accepted, no counter up to it is accepted again.
pub proof fn lemma_no_counter_below_last(last: i64, counter: i64)
    requires
        counter <= last,
    ensures
        !counter_accepts(Some(last), counter),
{
}

/// A message issued for an active dynamic tag, its tag sent as upper-case
/// hex, is judged authentic: verification goes on to the counter update.
pub proof fn lemma_issued_message_verifies<C: CryptoService>(crypto: &C, tag: Tag, counter: i64, cmac: Seq<u8>)
    requires
        tag.status == TagStatus::Active,
        tag.mode == TagMode::DynamicCmac,
        message_cmac(crypto, tag, counter) == Some(cmac),
        cmac.len() > 0,
    ensures
        verify_decision(crypto, tag.tag_uid@, Some(tag), counter, hex_upper_seq(cmac))
            == Ok::<Option<ScanVerdict>, ()>(None),
{
    lemma_hex_roundtrip(cmac);
    assert(signature_bytes(hex_upper_seq(cmac)) == cmac);
}

/// A message that next-messages issues for an active dynamic tag (its
/// counter and its tag as upper-case hex) is judged authentic, so its
/// verification goes on to the counter update.
pub proof fn lemma_next_message_verifies<C: CryptoService>(crypto: &C, tag: Tag, counter: i64, text: Seq<char>)
    requires
        tag.status == TagStatus::Active,
        tag.mode == TagMode::DynamicCmac,
        message_cmac(crypto, tag, counter) matches Some(c) && c.len() > 0 && text == hex_upper_seq(c),
    ensures
        verify_decision(crypto, tag.tag_uid@, Some(tag), counter, text) == Ok::<Option<ScanVerdict>, ()>(None),
{
    lemma_issued_message_verifies(crypto, tag, counter, message_cmac(crypto, tag, counter)->0);
}

/// The messages issued after the last accepted counter are accepted one
/// after the other, in order: each counter exceeds the one before it.
pub proof fn lemma_issued_counters_in_order(tag: Tag, i: int)
    requires
        i >= 0,
        tag.last_counter matches Some(l) ==> l < i64::MAX,
        next_start(tag, None) + i < i64::MAX,
    ensures
        counter_accepts(tag.last_counter, next_start(tag, None) as i64),
        counter_accepts(Some((next_start(tag, None) + i) as i64), (next_start(tag, None) + i + 1) as i64),
{
}

/// Every verdict and scan result is answered with its documented status.
pub proof fn lemma_documented_statuses()
    ensures
        scan_verdict_status(ScanVerdict::Valid) == 200,
        scan_verdict_status(ScanVerdict::InvalidSignature) == 401,
        scan_verdict_status(ScanVerdict::ReplayDetected) == 409,
        scan_verdict_status(ScanVerdict::TagRevoked) == 410,
        scan_verdict_status(ScanVerdict::TagNotFound) == 404,
        static_scan_status(StaticScanResult::Authentic) == 200,
        static_scan_status(StaticScanResult::Invalid) == 400,
        static_scan_status(StaticScanResult::Revoked) == 403,
        static_scan_status(StaticScanResult::NotFound) == 404,
        static_scan_status(StaticScanResult::Replay) == 409,
        static_scan_status(StaticScanResult::Expired) == 410,
{
}

/// Every token of a planned batch reads back as itself: checked for the
/// batch's product it gives its own id and the batch's expiry, whenever that
/// expiry is an instant the clock can represent (as every stored expiry is).
pub proof fn lemma_batch_tokens_verify(
    service: &HmacScanTokenService,
    record: ScanToken,
    generated: GeneratedScanToken,
    batch: TokenBatch,
    product_public_id: Seq<char>,
    now: UtcTime,
)
    requires
        token_matches_batch(service.secret(), record, generated, batch, product_public_id, now),
        utc_timestamp_valid(batch.expires_at.secs),
    ensures
        service.checked(product_public_id, generated.token@)
            == Ok::<(Seq<u8>, i64), TokenDefect>((record.token_id@, batch.expires_at.secs)),
        record.status == ScanTokenStatus::Unused,
        record.token_hash@ == service.hash_of(generated.token@),
{
}

/// Lower-case hexadecimal digit of a value below 16.
pub open spec fn hex_lower_digit(v: int) -> char {
    if v < 10 { (('0' as int) + v) as char } else { (('a' as int) + v - 10) as char }
}

/// Lower-case hex text of `b`: two digits per byte, high digit first, as
/// `hex::encode` writes it.
pub open spec fn hex_lower_text(b: Seq<u8>) -> Seq<char> {
    Seq::new(
        2 * b.len(),
        |i: int| if i % 2 == 0 { hex_lower_digit(b[i / 2] as int / 16) } else { hex_lower_digit(b[i / 2] as int % 16) },
    )
}

/// The signature of a verification request is the bytes its hex text
/// denotes, whichever case the digits are written in.
pub proof fn lemma_signature_either_case(b: Seq<u8>)
    ensures
        signature_bytes(hex_lower_text(b)) == b,
        signature_bytes(hex_upper_seq(b)) == b,
{
    lemma_hex_roundtrip(b);
    let s = hex_lower_text(b);
    assert forall|i: int| 0 <= i < s.len() implies is_hex_digit(#[trigger] s[i]) by {}
    let d = Seq::new(s.len() / 2, |i: int| (hex_val(s[2 * i]) * 16 + hex_val(s[2 * i + 1])) as u8);
    assert forall|i: int| 0 <= i < b.len() implies d[i] == b[i] by {
        assert((2 * i) / 2 == i);
        assert((2 * i + 1) / 2 == i);
        assert((2 * i) % 2 == 0);
        assert((2 * i + 1) % 2 == 1);
    }
    assert(d =~= b);
}

/// A message whose signature is the expected tag written in lower-case hex
/// is judged authentic, as one written in upper case is.
pub proof fn lemma_lower_case_signature_verifies<C: CryptoService>(crypto: &C, tag: Tag, counter: i64, c: Seq<u8>)
    requires
        tag.status == TagStatus::Active,
        tag.mode == TagMode::DynamicCmac,
        message_cmac(crypto, tag, counter) == Some(c),
        c.len() > 0,
    ensures
        verify_decision(crypto, tag.tag_uid@, Some(tag), counter, hex_lower_text(c))
            == Ok::<Option<ScanVerdict>, ()>(None),
{
    lemma_signature_either_case(c);
}

/// The big-endian bytes of a 64-bit integer: most significant byte first.
pub proof fn lemma_i64_be_is_big_endian(x: i64)
    ensures
        i64_be(x) == seq![
            ((x as u64) / 0x100_0000_0000_0000) as u8,
            ((x as u64) / 0x1_0000_0000_0000 % 256) as u8,
            ((x as u64) / 0x100_0000_0000 % 256) as u8,
            ((x as u64) / 0x1_0000_0000 % 256) as u8,
            ((x as u64) / 0x100_0000 % 256) as u8,
            ((x as u64) / 0x1_0000 % 256) as u8,
            ((x as u64) / 0x100 % 256) as u8,
            ((x as u64) % 256) as u8,
        ],
{
    let y = x as u64;
    assert((y >> 56u64) as u8 == (y / 0x100_0000_0000_0000) as u8
        && (y >> 48u64) as u8 == (y / 0x1_0000_0000_0000 % 256) as u8
        && (y >> 40u64) as u8 == (y / 0x100_0000_0000 % 256) as u8
        && (y >> 32u64) as u8 == (y / 0x1_0000_0000 % 256) as u8
        && (y >> 24u64) as u8 == (y / 0x100_0000 % 256) as u8
        && (y >> 16u64) as u8 == (y / 0x1_0000 % 256) as u8
        && (y >> 8u64) as u8 == (y / 0x100 % 256) as u8
        && y as u8 == (y % 256) as u8) by (bit_vector);
    assert(i64_be(x) =~= seq![
        ((x as u64) / 0x100_0000_0000_0000) as u8,
        ((x as u64) / 0x1_0000_0000_0000 % 256) as u8,
        ((x as u64) / 0x100_0000_0000 % 256) as u8,
        ((x as u64) / 0x1_0000_0000 % 256) as u8,
        ((x as u64) / 0x100_0000 % 256) as u8,
        ((x as u64) / 0x1_0000 % 256) as u8,
        ((x as u64) / 0x100 % 256) as u8,
        ((x as u64) % 256) as u8,
    ]);
}

/// The big-endian bytes of a 32-bit integer: most significant byte first.
pub proof fn lemma_i32_be_is_big_endian(x: i32)
    ensures
        i32_be(x) == seq![
            ((x as u32) / 0x100_0000) as u8,
            ((x as u32) / 0x1_0000 % 256) as u8,
            ((x as u32) / 0x100 % 256) as u8,
            ((x as u32) % 256) as u8,
        ],
{
    let y = x as u32;
    assert((y >> 24u32) as u8 == (y / 0x100_0000) as u8
        && (y >> 16u32) as u8 == (y / 0x1_0000 % 256) as u8
        && (y >> 8u32) as u8 == (y / 0x100 % 256) as u8
        && y as u8 == (y % 256) as u8) by (bit_vector);
    assert(i32_be(x) =~= seq![
        ((x as u32) / 0x100_0000) as u8,
        ((x as u32) / 0x1_0000 % 256) as u8,
        ((x as u32) / 0x100 % 256) as u8,
        ((x as u32) % 256) as u8,
    ]);
}

/// The key of a dynamic tag is the HKDF-SHA256 extract-and-expand of one
/// block: extract with the tag's identifier bytes as the HMAC key (the salt)
/// over the master secret, expand over the key version big-endian and the
/// byte 1, keep 16 bytes; its messages are tagged with AES-CMAC under it.
pub proof fn lemma_tag_key_is_hkdf(crypto: &AesCmacService, key_version: i32, tag_uid: Seq<char>, message: Seq<u8>)
    requires
        hex_decode_seq(tag_uid) is Some,
    ensures
        crypto.expected_cmac(key_version, tag_uid, message) == Some(aes128_cmac_spec(
            hmac_sha256_spec(
                hmac_sha256_spec(hex_decode_seq(tag_uid)->0, crypto.master()),
                i32_be(key_version) + seq![1u8],
            ).subrange(0, 16),
            message,
        )),
{
}

/// The text of a token is the URL-safe base64 of its payload: the id, the
/// expiry seconds big-endian, then HMAC-SHA256 under the secret of the id,
/// the UTF-8 product id and the expiry big-endian, in that order.
pub proof fn lemma_token_layout(secret: Seq<u8>, token_id: Seq<u8>, product_public_id: Seq<char>, expires_secs: i64)
    ensures
        token_text(secret, token_id, product_public_id, expires_secs) == base64url_encode_spec(
            token_id + i64_be(expires_secs)
                + hmac_sha256_spec(secret, token_id + encode_utf8(product_public_id) + i64_be(expires_secs))),
{
}

/// A token whose payload is a 16-byte id, a representable expiry
/// big-endian, and the 32-byte HMAC-SHA256 under the secret of the id, the
/// UTF-8 product id and the expiry big-endian is accepted for that product,
/// with that id and expiry.
pub proof fn lemma_token_check_accepts(
    secret: Seq<u8>,
    product_public_id: Seq<char>,
    token: Seq<char>,
    token_id: Seq<u8>,
    expires_secs: i64,
)
    requires
        token_id.len() == 16,
        utc_timestamp_valid(expires_secs),
        hmac_sha256_spec(secret, token_id + encode_utf8(product_public_id) + i64_be(expires_secs)).len() == 32,
        base64url_decode_spec(token) == Some(token_id + i64_be(expires_secs)
            + hmac_sha256_spec(secret, token_id + encode_utf8(product_public_id) + i64_be(expires_secs))),
    ensures
        check_token(secret, product_public_id, token) == Ok::<(Seq<u8>, i64), TokenDefect>((token_id, expires_secs)),
{
    let mac = hmac_sha256_spec(secret, token_id + encode_utf8(product_public_id) + i64_be(expires_secs));
    let p = token_id + i64_be(expires_secs) + mac;
    lemma_i64_be_roundtrip(expires_secs);
    assert(p.subrange(0, 16) =~= token_id);
    assert(p.subrange(16, 24) =~= i64_be(expires_secs));
    assert(p.subrange(24, 56) =~= mac);
}

/// Reading the big-endian bytes of an expiry and writing them back gives
/// the same bytes.
pub proof fn lemma_i64_of_be_roundtrip(b: Seq<u8>)
    requires
        b.len() == 8,
    ensures
        i64_be(i64_of_be(b)) == b,
{
    let (b0, b1, b2, b3, b4, b5, b6, b7) = (b[0], b[1], b[2], b[3], b[4], b[5], b[6], b[7]);
    let y: u64 = ((b0 as u64) << 56u64) | ((b1 as u64) << 48u64) | ((b2 as u64) << 40u64)
        | ((b3 as u64) << 32u64) | ((b4 as u64) << 24u64) | ((b5 as u64) << 16u64)
        | ((b6 as u64) << 8u64) | (b7 as u64);
    assert(((y as i64) as u64) == y) by (bit_vector);
    assert((y >> 56u64) as u8 == b0 && (y >> 48u64) as u8 == b1 && (y >> 40u64) as u8 == b2
        && (y >> 32u64) as u8 == b3 && (y >> 24u64) as u8 == b4 && (y >> 16u64) as u8 == b5
        && (y >> 8u64) as u8 == b6 && y as u8 == b7) by (bit_vector)
        requires
            y == ((b0 as u64) << 56u64) | ((b1 as u64) << 48u64) | ((b2 as u64) << 40u64)
                | ((b3 as u64) << 32u64) | ((b4 as u64) << 24u64) | ((b5 as u64) << 16u64)
                | ((b6 as u64) << 8u64) | (b7 as u64);
    assert(i64_of_be(b) == y as i64);
    assert(i64_be(i64_of_be(b)) =~= b);
}

/// How any 56-byte token payload is judged for a product: an expiry that the
/// clock cannot represent is refused, then a last 32 bytes other than
/// HMAC-SHA256 under the secret of the id, the UTF-8 product id and the
/// expiry bytes is refused as a bad MAC; otherwise the id and expiry are read
/// from the first 16 and the next 8 bytes.
pub proof fn lemma_token_check_reads_payload(
    secret: Seq<u8>,
    product_public_id: Seq<char>,
    token: Seq<char>,
    p: Seq<u8>,
)
    requires
        base64url_decode_spec(token) == Some(p),
        p.len() == 56,
    ensures
        check_token(secret, product_public_id, token) == if !utc_timestamp_valid(i64_of_be(p.subrange(16, 24))) {
            Err::<(Seq<u8>, i64), TokenDefect>(TokenDefect::BadExpiry)
        } else if p.subrange(24, 56) != hmac_sha256_spec(secret,
            p.subrange(0, 16) + encode_utf8(product_public_id) + p.subrange(16, 24)) {
            Err::<(Seq<u8>, i64), TokenDefect>(TokenDefect::BadMac)
        } else {
            Ok::<(Seq<u8>, i64), TokenDefect>((p.subrange(0, 16), i64_of_be(p.subrange(16, 24))))
        },
{
    lemma_i64_of_be_roundtrip(p.subrange(16, 24));
}

/// A signature in hex whose bytes are not the expected tag is refused as
/// `INVALID_SIGNATURE`.
pub proof fn lemma_wrong_signature_refused<C: CryptoService>(crypto: &C, tag: Tag, counter: i64, cmac: Seq<char>, c: Seq<u8>)
    requires
        tag.status == TagStatus::Active,
        tag.mode == TagMode::DynamicCmac,
        message_cmac(crypto, tag, counter) == Some(c),
        hex_decode_seq(cmac) matches Some(b) && b.len() > 0 && b != c,
    ensures
        verify_decision(crypto, tag.tag_uid@, Some(tag), counter, cmac)
            == Ok::<Option<ScanVerdict>, ()>(Some(ScanVerdict::InvalidSignature)),
{
}

/// A tag identifier is accepted exactly when, trimmed and upper-cased, it
/// is non-empty, of even length and made of hexadecimal digits, whatever its
/// length.
pub proof fn lemma_uid_acceptance(text: Seq<char>)
    ensures
        is_valid_uid(normalized_uid(text)) <==> ({
            let u = normalized_uid(text);
            &&& u.len() > 0
            &&& u.len() % 2 == 0
            &&& forall|i: int| 0 <= i < u.len()
                ==> ('0' <= #[trigger] u[i] <= '9') || ('A' <= u[i] <= 'F') || ('a' <= u[i] <= 'f')
        }),
{
}

} // verus!
