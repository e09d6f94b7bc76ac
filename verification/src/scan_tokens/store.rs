//! An in-memory store of one-time tokens and batches with the atomic
//! operations that the service relies on: consuming a token only while it
//! is unused, and revoking only tokens that were not used.
use vstd::prelude::*;
use crate::bytes::ids_eq;
use crate::time::UtcTime;
use crate::scan_tokens::entities::{ScanToken, ScanTokenStatus, TokenBatch, TokenBatchStatus};

verus! {

/// No two tokens share an id.
pub open spec fn token_ids_distinct(s: Seq<ScanToken>) -> bool {
    forall|i: int, j: int| 0 <= i < j < s.len() ==> s[i].token_id != s[j].token_id
}

/// Whether a token with this id is stored.
pub open spec fn has_token(s: Seq<ScanToken>, id: [u8; 16]) -> bool {
    exists|i: int| 0 <= i < s.len() && s[i].token_id == id
}

/// The index of the token with this id (meaningful when `has_token`).
pub open spec fn token_index(s: Seq<ScanToken>, id: [u8; 16]) -> int {
    choose|i: int| 0 <= i < s.len() && s[i].token_id == id
}

/// A token after its first and only use.
pub open spec fn consumed_token(t: ScanToken, at: UtcTime, ip: Option<String>, user_agent: Option<String>) -> ScanToken {
    ScanToken { status: ScanTokenStatus::Used, used_at: Some(at), used_ip: ip, used_user_agent: user_agent, ..t }
}

/// What an attempt to consume the token `id` answers, and the tokens after it.
pub open spec fn consume_result(s: Seq<ScanToken>, id: [u8; 16], at: UtcTime, ip: Option<String>,
    user_agent: Option<String>) -> (bool, Seq<ScanToken>) {
    if has_token(s, id) && s[token_index(s, id)].status == ScanTokenStatus::Unused {
        (true, s.update(token_index(s, id), consumed_token(s[token_index(s, id)], at, ip, user_agent)))
    } else {
        (false, s)
    }
}

/// Two token sequences with the same ids at the same places.
pub open spec fn same_token_ids(a: Seq<ScanToken>, b: Seq<ScanToken>) -> bool {
    a.len() == b.len() && forall|k: int| 0 <= k < a.len() ==> a[k].token_id == b[k].token_id
}

/// Sequences with the same ids agree on which ids they hold and where.
pub proof fn lemma_same_token_ids(a: Seq<ScanToken>, b: Seq<ScanToken>)
    requires
        token_ids_distinct(a),
        same_token_ids(a, b),
    ensures
        token_ids_distinct(b),
        forall|id: [u8; 16]| has_token(b, id) <==> has_token(a, id),
        forall|id: [u8; 16]| has_token(a, id) ==> token_index(b, id) == token_index(a, id),
{
    assert forall|x: int, y: int| 0 <= x < y < b.len() implies b[x].token_id != b[y].token_id by {
        assert(a[x].token_id != a[y].token_id);
    }
    assert forall|id: [u8; 16]| has_token(b, id) <==> has_token(a, id) by {
        if has_token(b, id) {
            let k = choose|k: int| 0 <= k < b.len() && b[k].token_id == id;
            assert(a[k].token_id == id);
        }
        if has_token(a, id) {
            let k = choose|k: int| 0 <= k < a.len() && a[k].token_id == id;
            assert(b[k].token_id == id);
        }
    }
    assert forall|id: [u8; 16]| has_token(a, id) implies token_index(b, id) == token_index(a, id) by {
        let k = token_index(a, id);
        let m = token_index(b, id);
        assert(b[k].token_id == id);
        assert(a[m].token_id == id);
    }
}

/// A token after revocation.
pub open spec fn revoked_token(t: ScanToken, at: UtcTime) -> ScanToken {
    ScanToken { status: ScanTokenStatus::Revoked, revoked_at: Some(at), ..t }
}

/// A batch after revocation.
pub open spec fn revoked_batch(b: TokenBatch, at: UtcTime) -> TokenBatch {
    TokenBatch { status: TokenBatchStatus::Revoked, revoked_at: Some(at), ..b }
}

/// A batch that revoking a tag's batches affects: the tag's active ones.
pub open spec fn batch_revocable(b: TokenBatch, tag_id: [u8; 16]) -> bool {
    b.tag_id == Some(tag_id) && b.status == TokenBatchStatus::Active
}

/// A token that revoking a tag's batches affects: the tag's unused ones.
pub open spec fn token_revocable_for_tag(t: ScanToken, tag_id: [u8; 16]) -> bool {
    t.tag_id == Some(tag_id) && t.status == ScanTokenStatus::Unused
}

/// How many batches revoking a tag's batches affects.
pub open spec fn count_revocable_batches(s: Seq<TokenBatch>, tag_id: [u8; 16]) -> nat
    decreases s.len(),
{
    if s.len() == 0 {
        0
    } else {
        count_revocable_batches(s.drop_last(), tag_id) + if batch_revocable(s.last(), tag_id) { 1nat } else { 0nat }
    }
}

/// The tokens after storing `t`: it replaces the token with its id, or is
/// appended when there is none.
pub open spec fn saved_token(s: Seq<ScanToken>, t: ScanToken) -> Seq<ScanToken> {
    if has_token(s, t.token_id) { s.update(token_index(s, t.token_id), t) } else { s.push(t) }
}

/// The tokens after storing each of `ts` in order.
pub open spec fn saved_tokens(s: Seq<ScanToken>, ts: Seq<ScanToken>) -> Seq<ScanToken>
    decreases ts.len(),
{
    if ts.len() == 0 { s } else { saved_token(saved_tokens(s, ts.drop_last()), ts.last()) }
}

/// `ts[k]` is the last of `ts` with its id.
pub open spec fn last_with_id(ts: Seq<ScanToken>, k: int) -> bool {
    forall|j: int| k < j < ts.len() ==> ts[j].token_id != ts[k].token_id
}

/// Some token of `ts` has the id `id`.
pub open spec fn in_tokens(ts: Seq<ScanToken>, id: [u8; 16]) -> bool {
    exists|k: int| 0 <= k < ts.len() && ts[k].token_id == id
}

/// The batches after storing `b`: it replaces the first batch with its id,
/// or is appended when there is none.
pub open spec fn saved_batch(bs: Seq<TokenBatch>, b: TokenBatch, result: Seq<TokenBatch>) -> bool {
    ||| exists|k: int| 0 <= k < bs.len() && bs[k].id == b.id
            && (forall|j: int| 0 <= j < k ==> bs[j].id != b.id) && result == bs.update(k, b)
    ||| (forall|j: int| 0 <= j < bs.len() ==> bs[j].id != b.id) && result == bs.push(b)
}

/// Storing one token: ids stay distinct, the token is found under its id,
/// and every other stored token keeps its place and value.
pub proof fn lemma_saved_token(s: Seq<ScanToken>, t: ScanToken)
    requires
        token_ids_distinct(s),
    ensures
        token_ids_distinct(saved_token(s, t)),
        has_token(saved_token(s, t), t.token_id),
        saved_token(s, t)[token_index(saved_token(s, t), t.token_id)] == t,
        forall|id: [u8; 16]| id != t.token_id ==> (has_token(saved_token(s, t), id) <==> has_token(s, id)),
        forall|id: [u8; 16]| has_token(s, id) ==> token_index(saved_token(s, t), id) == token_index(s, id),
        forall|id: [u8; 16]| id != t.token_id && has_token(s, id)
            ==> saved_token(s, t)[token_index(saved_token(s, t), id)] == s[token_index(s, id)],
{
    let r = saved_token(s, t);
    if has_token(s, t.token_id) {
        let i = token_index(s, t.token_id);
        assert(same_token_ids(s, r));
        lemma_same_token_ids(s, r);
        assert forall|id: [u8; 16]| id != t.token_id && has_token(s, id)
            implies r[token_index(r, id)] == s[token_index(s, id)] by {
            assert(token_index(s, id) != i);
        }
    } else {
        let n = s.len() as int;
        assert forall|a: int, b: int| 0 <= a < b < r.len() implies r[a].token_id != r[b].token_id by {
            if b == n {
                assert(r[a].token_id == s[a].token_id);
            } else {
                assert(s[a].token_id != s[b].token_id);
            }
        }
        assert(r[n].token_id == t.token_id);
        assert forall|id: [u8; 16]| id != t.token_id implies (has_token(r, id) <==> has_token(s, id)) by {
            if has_token(r, id) {
                let k = choose|k: int| 0 <= k < r.len() && r[k].token_id == id;
                assert(k != n);
                assert(s[k].token_id == id);
            }
            if has_token(s, id) {
                let k = choose|k: int| 0 <= k < s.len() && s[k].token_id == id;
                assert(r[k].token_id == id);
            }
        }
        assert forall|id: [u8; 16]| has_token(s, id) implies token_index(r, id) == token_index(s, id) by {
            let k = token_index(s, id);
            let m = token_index(r, id);
            assert(r[k].token_id == id);
            if m == n {
                assert(s[k].token_id == t.token_id);
            }
            assert(s[m].token_id == id);
        }
        let m = token_index(r, t.token_id);
        if m != n {
            assert(s[m].token_id == t.token_id);
        }
    }
}

/// Storing tokens in order: ids stay distinct, every id given is found and
/// holds the last token given for it, stored ids stay stored, and ids not
/// given keep their tokens.
pub proof fn lemma_saved_tokens(s: Seq<ScanToken>, ts: Seq<ScanToken>)
    requires
        token_ids_distinct(s),
    ensures
        token_ids_distinct(saved_tokens(s, ts)),
        forall|k: int| 0 <= k < ts.len() ==> has_token(saved_tokens(s, ts), #[trigger] ts[k].token_id),
        forall|k: int| 0 <= k < ts.len() && last_with_id(ts, k)
            ==> saved_tokens(s, ts)[token_index(saved_tokens(s, ts), #[trigger] ts[k].token_id)] == ts[k],
        forall|id: [u8; 16]| has_token(s, id) ==> has_token(saved_tokens(s, ts), id),
        forall|id: [u8; 16]| !in_tokens(ts, id) ==> (has_token(saved_tokens(s, ts), id) <==> has_token(s, id)),
        forall|id: [u8; 16]| !in_tokens(ts, id) && has_token(s, id)
            ==> saved_tokens(s, ts)[token_index(saved_tokens(s, ts), id)] == s[token_index(s, id)],
    decreases ts.len(),
{
    if ts.len() > 0 {
        let p = ts.drop_last();
        let x = ts.last();
        let mid = saved_tokens(s, p);
        let r = saved_tokens(s, ts);
        lemma_saved_tokens(s, p);
        lemma_saved_token(mid, x);
        assert(r == saved_token(mid, x));
        let n = ts.len() - 1;
        assert forall|k: int| 0 <= k < ts.len() implies has_token(r, #[trigger] ts[k].token_id) by {
            if k < n {
                assert(p[k] == ts[k]);
            }
        }
        assert forall|k: int| 0 <= k < ts.len() && last_with_id(ts, k)
            implies r[token_index(r, #[trigger] ts[k].token_id)] == ts[k] by {
            if k < n {
                assert(ts[n].token_id != ts[k].token_id);
                assert(p[k] == ts[k]);
                assert forall|j: int| k < j < p.len() implies p[j].token_id != p[k].token_id by {
                    assert(p[j] == ts[j]);
                }
                assert(last_with_id(p, k));
                assert(has_token(mid, p[k].token_id));
            }
        }
        assert forall|id: [u8; 16]| !in_tokens(ts, id) implies !in_tokens(p, id) && id != x.token_id by {
            if in_tokens(p, id) {
                let k = choose|k: int| 0 <= k < p.len() && p[k].token_id == id;
                assert(ts[k].token_id == id);
            }
            assert(ts[n].token_id == x.token_id);
        }
    }
}

/// Tokens and batches, each kept once per id.
pub struct ScanTokenStore {
    tokens: Vec<ScanToken>,
    batches: Vec<TokenBatch>,
}

impl ScanTokenStore {
    pub closed spec fn tokens(&self) -> Seq<ScanToken> {
        self.tokens@
    }

    pub closed spec fn batches(&self) -> Seq<TokenBatch> {
        self.batches@
    }

    pub open spec fn wf(&self) -> bool {
        token_ids_distinct(self.tokens())
    }

    /// An empty store.
    pub fn new() -> (s: ScanTokenStore)
        ensures
            s.wf(),
            s.tokens().len() == 0,
            s.batches().len() == 0,
    {
        ScanTokenStore { tokens: Vec::new(), batches: Vec::new() }
    }

    /// Where the token with this id is stored, if it is.
    fn find_index(&self, token_id: &[u8; 16]) -> (r: Option<usize>)
        requires
            self.wf(),
        ensures
            match r {
                Some(i) => i < self.tokens().len() && self.tokens()[i as int].token_id == *token_id
                    && token_index(self.tokens(), *token_id) == i,
                None => !has_token(self.tokens(), *token_id),
            },
    {
        let mut i: usize = 0;
        while i < self.tokens.len()
            invariant
                i <= self.tokens@.len(),
                self.wf(),
                forall|k: int| 0 <= k < i ==> self.tokens@[k].token_id != *token_id,
            decreases self.tokens@.len() - i,
        {
            if ids_eq(&self.tokens[i].token_id, token_id) {
                proof {
                    let j = token_index(self.tokens(), *token_id);
                    assert(self.tokens()[i as int].token_id == *token_id);
                    if j != i {
                        assert(self.tokens()[j].token_id == *token_id);
                    }
                }
                return Some(i);
            }
            i = i + 1;
        }
        None
    }

    /// Stores a token, replacing the one with the same id.
    pub fn save(&mut self, token: ScanToken)
        requires
            old(self).wf(),
        ensures
            final(self).wf(),
            final(self).batches() == old(self).batches(),
            has_token(final(self).tokens(), token.token_id),
            final(self).tokens()[token_index(final(self).tokens(), token.token_id)] == token,
            forall|id: [u8; 16]| id != token.token_id ==> (has_token(final(self).tokens(), id)
                <==> has_token(old(self).tokens(), id)),
            forall|id: [u8; 16]| id != token.token_id && has_token(old(self).tokens(), id)
                ==> final(self).tokens()[token_index(final(self).tokens(), id)]
                    == old(self).tokens()[token_index(old(self).tokens(), id)],
            final(self).tokens() == saved_token(old(self).tokens(), token),
    {
        let id = token.token_id;
        match self.find_index(&id) {
            Some(i) => {
                let _ = self.tokens.remove(i);
                self.tokens.insert(i, token);
                proof {
                    assert(self.tokens() =~= old(self).tokens().update(i as int, token));
                    lemma_saved_token(old(self).tokens(), token);
                }
            },
            None => {
                self.tokens.push(token);
                proof {
                    assert(self.tokens() =~= old(self).tokens().push(token));
                    lemma_saved_token(old(self).tokens(), token);
                }
            },
        }
    }

    /// The stored token with this id.
    pub fn find_by_id(&self, token_id: &[u8; 16]) -> (r: Option<&ScanToken>)
        requires
            self.wf(),
        ensures
            match r {
                Some(t) => has_token(self.tokens(), *token_id)
                    && *t == self.tokens()[token_index(self.tokens(), *token_id)],
                None => !has_token(self.tokens(), *token_id),
            },
    {
        match self.find_index(token_id) {
            Some(i) => Some(&self.tokens[i]),
            None => None,
        }
    }

    /// Stores the tokens in order, each replacing one with the same id: each
    /// id given ends up with the last token given for it, and every other
    /// stored token stays as it was.
    pub fn save_many(&mut self, tokens: Vec<ScanToken>)
        requires
            old(self).wf(),
        ensures
            final(self).wf(),
            final(self).batches() == old(self).batches(),
            final(self).tokens() == saved_tokens(old(self).tokens(), tokens@),
            forall|k: int| 0 <= k < tokens@.len() ==> has_token(final(self).tokens(), #[trigger] tokens@[k].token_id),
            forall|k: int| 0 <= k < tokens@.len() && last_with_id(tokens@, k)
                ==> final(self).tokens()[token_index(final(self).tokens(), #[trigger] tokens@[k].token_id)] == tokens@[k],
            forall|id: [u8; 16]| has_token(old(self).tokens(), id) ==> has_token(final(self).tokens(), id),
            forall|id: [u8; 16]| !in_tokens(tokens@, id) ==> (has_token(final(self).tokens(), id)
                <==> has_token(old(self).tokens(), id)),
            forall|id: [u8; 16]| !in_tokens(tokens@, id) && has_token(old(self).tokens(), id)
                ==> final(self).tokens()[token_index(final(self).tokens(), id)]
                    == old(self).tokens()[token_index(old(self).tokens(), id)],
    {
        let mut rest = tokens;
        let ghost all = rest@;
        let ghost mut i: int = 0;
        while rest.len() > 0
            invariant
                self.wf(),
                self.batches() == old(self).batches(),
                0 <= i <= all.len(),
                rest@ == all.subrange(i, all.len() as int),
                self.tokens() == saved_tokens(old(self).tokens(), all.subrange(0, i)),
            decreases rest@.len(),
        {
            let t = rest.remove(0);
            proof { assert(t == all[i]); }
            self.save(t);
            proof {
                assert(all.subrange(0, i + 1).drop_last() =~= all.subrange(0, i));
                assert(all.subrange(0, i + 1).last() == all[i]);
                i = i + 1;
                assert(rest@ =~= all.subrange(i, all.len() as int));
            }
        }
        proof {
            assert(all.subrange(0, i) =~= all);
            lemma_saved_tokens(old(self).tokens(), all);
        }
    }

    /// Stores a batch, replacing the one with the same id.
    pub fn save_batch(&mut self, batch: TokenBatch)
        requires
            old(self).wf(),
        ensures
            final(self).wf(),
            final(self).tokens() == old(self).tokens(),
            saved_batch(old(self).batches(), batch, final(self).batches()),
            final(self).batches().contains(batch),
    {
        let mut i: usize = 0;
        while i < self.batches.len()
            invariant
                self.wf(),
                self.tokens() == old(self).tokens(),
                self.batches() == old(self).batches(),
                i <= self.batches@.len(),
                forall|j: int| 0 <= j < i ==> old(self).batches()[j].id != batch.id,
            decreases self.batches@.len() - i,
        {
            if ids_eq(&self.batches[i].id, &batch.id) {
                let _ = self.batches.remove(i);
                self.batches.insert(i, batch);
                assert(self.batches@ =~= old(self).batches().update(i as int, batch));
                assert(self.batches@[i as int] == batch);
                return;
            }
            i = i + 1;
        }
        self.batches.push(batch);
        assert(self.batches@ =~= old(self).batches().push(batch));
        assert(self.batches@.last() == batch);
    }

    /// Marks the token used, only while it is unused; tells whether it was.
    pub fn consume_if_unused(&mut self, token_id: &[u8; 16], used_at: UtcTime, used_ip: Option<String>,
        used_user_agent: Option<String>) -> (r: bool)
        requires
            old(self).wf(),
        ensures
            final(self).wf(),
            final(self).batches() == old(self).batches(),
            (r, final(self).tokens()) == consume_result(old(self).tokens(), *token_id, used_at, used_ip,
                used_user_agent),
    {
        let i = match self.find_index(token_id) {
            Some(i) => i,
            None => return false,
        };
        if self.tokens[i].status != ScanTokenStatus::Unused {
            return false;
        }
        let mut t = self.tokens.remove(i);
        t.status = ScanTokenStatus::Used;
        t.used_at = Some(used_at);
        t.used_ip = used_ip;
        t.used_user_agent = used_user_agent;
        self.tokens.insert(i, t);
        proof {
            assert(self.tokens() =~= old(self).tokens().update(i as int,
                consumed_token(old(self).tokens()[i as int], used_at, used_ip, used_user_agent)));
            assert(same_token_ids(old(self).tokens(), self.tokens()));
            lemma_same_token_ids(old(self).tokens(), self.tokens());
            assert(self.tokens() =~= old(self).tokens().update(i as int,
                consumed_token(old(self).tokens()[i as int], used_at, used_ip, used_user_agent)));
        }
        true
    }

    /// Marks the token revoked unless it was used; tells whether it was marked.
    pub fn revoke(&mut self, token_id: &[u8; 16], revoked_at: UtcTime) -> (r: bool)
        requires
            old(self).wf(),
        ensures
            final(self).wf(),
            final(self).batches() == old(self).batches(),
            r == (has_token(old(self).tokens(), *token_id)
                && old(self).tokens()[token_index(old(self).tokens(), *token_id)].status != ScanTokenStatus::Used),
            r ==> final(self).tokens() == old(self).tokens().update(token_index(old(self).tokens(), *token_id),
                revoked_token(old(self).tokens()[token_index(old(self).tokens(), *token_id)], revoked_at)),
            !r ==> final(self).tokens() == old(self).tokens(),
    {
        let i = match self.find_index(token_id) {
            Some(i) => i,
            None => return false,
        };
        if self.tokens[i].status == ScanTokenStatus::Used {
            return false;
        }
        let mut t = self.tokens.remove(i);
        t.status = ScanTokenStatus::Revoked;
        t.revoked_at = Some(revoked_at);
        self.tokens.insert(i, t);
        proof {
            assert(self.tokens() =~= old(self).tokens().update(i as int,
                revoked_token(old(self).tokens()[i as int], revoked_at)));
            assert(same_token_ids(old(self).tokens(), self.tokens()));
            lemma_same_token_ids(old(self).tokens(), self.tokens());
            assert(self.tokens() =~= old(self).tokens().update(i as int,
                revoked_token(old(self).tokens()[i as int], revoked_at)));
        }
        true
    }

    /// Revokes the tag's active batches and its unused tokens; gives the
    /// number of batches revoked.
    pub fn revoke_active_batch_for_tag(&mut self, tag_id: &[u8; 16], revoked_at: UtcTime) -> (r: u64)
        requires
            old(self).wf(),
        ensures
            final(self).wf(),
            final(self).batches().len() == old(self).batches().len(),
            forall|k: int| 0 <= k < old(self).batches().len() ==> #[trigger] final(self).batches()[k]
                == if batch_revocable(old(self).batches()[k], *tag_id) {
                    revoked_batch(old(self).batches()[k], revoked_at)
                } else {
                    old(self).batches()[k]
                },
            final(self).tokens().len() == old(self).tokens().len(),
            forall|k: int| 0 <= k < old(self).tokens().len() ==> #[trigger] final(self).tokens()[k]
                == if token_revocable_for_tag(old(self).tokens()[k], *tag_id) {
                    revoked_token(old(self).tokens()[k], revoked_at)
                } else {
                    old(self).tokens()[k]
                },
            r == count_revocable_batches(old(self).batches(), *tag_id),
    {
        let mut count: u64 = 0;
        let mut i: usize = 0;
        let ghost ob = self.batches@;
        while i < self.batches.len()
            invariant
                self.wf(),
                self.tokens() == old(self).tokens(),
                ob == old(self).batches(),
                self.batches@.len() == ob.len(),
                i <= ob.len(),
                count == count_revocable_batches(ob.subrange(0, i as int), *tag_id),
                count <= i,
                forall|k: int| 0 <= k < i ==> #[trigger] self.batches@[k]
                    == if batch_revocable(ob[k], *tag_id) { revoked_batch(ob[k], revoked_at) } else { ob[k] },
                forall|k: int| i <= k < ob.len() ==> #[trigger] self.batches@[k] == ob[k],
            decreases ob.len() - i,
        {
            proof {
                assert(ob.subrange(0, i + 1).drop_last() =~= ob.subrange(0, i as int));
            }
            let hit = match self.batches[i].tag_id {
                Some(t) => ids_eq(&t, tag_id) && self.batches[i].status == TokenBatchStatus::Active,
                None => false,
            };
            if hit {
                let mut b = self.batches.remove(i);
                b.status = TokenBatchStatus::Revoked;
                b.revoked_at = Some(revoked_at);
                self.batches.insert(i, b);
                count = count + 1;
            }
            i = i + 1;
        }
        proof {
            assert(ob.subrange(0, ob.len() as int) =~= ob);
        }
        let mut j: usize = 0;
        let ghost ot = self.tokens@;
        let ghost nb = self.batches@;
        while j < self.tokens.len()
            invariant
                self.batches@ == nb,
                ot == old(self).tokens(),
                token_ids_distinct(ot),
                self.tokens@.len() == ot.len(),
                j <= ot.len(),
                forall|k: int| 0 <= k < ot.len() ==> #[trigger] self.tokens@[k].token_id == ot[k].token_id,
                forall|k: int| 0 <= k < j ==> #[trigger] self.tokens@[k]
                    == if token_revocable_for_tag(ot[k], *tag_id) { revoked_token(ot[k], revoked_at) } else { ot[k] },
                forall|k: int| j <= k < ot.len() ==> #[trigger] self.tokens@[k] == ot[k],
            decreases ot.len() - j,
        {
            let hit = match self.tokens[j].tag_id {
                Some(t) => ids_eq(&t, tag_id) && self.tokens[j].status == ScanTokenStatus::Unused,
                None => false,
            };
            if hit {
                let mut t = self.tokens.remove(j);
                t.status = ScanTokenStatus::Revoked;
                t.revoked_at = Some(revoked_at);
                self.tokens.insert(j, t);
            }
            j = j + 1;
        }
        proof {
            let s = self.tokens@;
            assert forall|a: int, b: int| 0 <= a < b < s.len() implies s[a].token_id != s[b].token_id by {
                assert(s[a].token_id == ot[a].token_id);
                assert(s[b].token_id == ot[b].token_id);
            }
        }
        count
    }
}

} // verus!
