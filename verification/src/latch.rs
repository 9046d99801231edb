//! Remembers requests announced by events until polling has shown twice in a row that nothing waits.

use crate::blockers::BlockerScanResult;
use crate::blockers::CallerResponseBlockerKind;
use crate::text::same_text;
use vstd::prelude::*;

verus! {

/// How many clear polls in a row release a request.
pub const LATCH_CLEAR_POLLS: u8 = 2;

/// Identifies an announced request.
#[derive(Clone, Debug)]
pub struct LatchedCallerResponseKey {
    pub kind: CallerResponseBlockerKind,
    pub owner_session_id: String,
    pub request_id: String,
}

/// A kind of request, the session that owns it, and its id.
pub type LatchKey = (CallerResponseBlockerKind, Seq<char>, Seq<char>);

impl LatchedCallerResponseKey {
    pub open spec fn view(&self) -> LatchKey {
        (self.kind, self.owner_session_id@, self.request_id@)
    }
}

/// An announced request and the clear polls seen in a row since.
pub struct LatchEntry {
    key: LatchedCallerResponseKey,
    clear_polls: u8,
}

/// The announced requests that are still held.
pub struct CallerResponseEventLatch {
    entries: Vec<LatchEntry>,
}

/// What is held after a poll looked at all pending requests: a clear poll counts, and the second in
/// a row releases; a poll that could not see everything starts the count anew; a poll that found a
/// request changes nothing.
pub open spec fn observed(held: Map<LatchKey, nat>, result: BlockerScanResult) -> Map<
    LatchKey,
    nat,
> {
    match result {
        BlockerScanResult::Clear => Map::new(
            |key: LatchKey| held.contains_key(key) && held[key] + 1 < LATCH_CLEAR_POLLS,
            |key: LatchKey| held[key] + 1,
        ),
        BlockerScanResult::Inconclusive => held.map_values(|clear_polls: nat| 0nat),
        BlockerScanResult::Found(_) => held,
    }
}

/// An announced request is still held after one clear poll, and released by the second.
pub proof fn law_two_clear_polls_release(held: Map<LatchKey, nat>, key: LatchKey)
    ensures
        ({
            let announced = held.insert(key, 0);
            let once = observed(announced, BlockerScanResult::Clear);
            let twice = observed(once, BlockerScanResult::Clear);
            once.contains_key(key) && !twice.contains_key(key)
        }),
{
}

/// A poll that could not see everything starts the count anew: the next clear poll does not release
/// a request that was held.
pub proof fn law_inconclusive_poll_restarts(held: Map<LatchKey, nat>, key: LatchKey)
    requires
        held.contains_key(key),
    ensures
        observed(
            observed(held, BlockerScanResult::Inconclusive),
            BlockerScanResult::Clear,
        ).contains_key(key),
{
}

spec fn entry_map(entries: Seq<LatchEntry>) -> Map<LatchKey, nat>
    decreases entries.len(),
{
    if entries.len() == 0 {
        Map::empty()
    } else {
        entry_map(entries.drop_last()).insert(
            entries.last().key@,
            entries.last().clear_polls as nat,
        )
    }
}

spec fn distinct(entries: Seq<LatchEntry>) -> bool
    decreases entries.len(),
{
    entries.len() == 0 || distinct(entries.drop_last()) && !entry_map(
        entries.drop_last(),
    ).contains_key(entries.last().key@)
}

proof fn lemma_push(entries: Seq<LatchEntry>, entry: LatchEntry)
    ensures
        entry_map(entries.push(entry)) == entry_map(entries).insert(
            entry.key@,
            entry.clear_polls as nat,
        ),
        distinct(entries.push(entry)) == (distinct(entries) && !entry_map(entries).contains_key(
            entry.key@,
        )),
{
    assert(entries.push(entry).drop_last() == entries);
}

impl CallerResponseEventLatch {
    /// The held requests, each with the clear polls seen in a row.
    pub closed spec fn view(&self) -> Map<LatchKey, nat> {
        entry_map(self.entries@)
    }

    /// No request is held twice.
    pub closed spec fn wf(&self) -> bool {
        distinct(self.entries@)
    }

    /// Hold a request, with no clear poll seen yet.
    pub fn latch(
        &mut self,
        kind: CallerResponseBlockerKind,
        owner_session_id: &str,
        request_id: &str,
    )
        requires
            old(self).wf(),
        ensures
            final(self).wf(),
            final(self)@ == old(self)@.insert((kind, owner_session_id@, request_id@), 0),
    {
        self.remove(kind, owner_session_id, request_id);
        let entry = LatchEntry {
            key: LatchedCallerResponseKey {
                kind,
                owner_session_id: owner_session_id.to_string(),
                request_id: request_id.to_string(),
            },
            clear_polls: 0,
        };
        proof {
            lemma_push(self.entries@, entry);
        }
        self.entries.push(entry);
    }

    /// Release a request.
    pub fn remove(
        &mut self,
        kind: CallerResponseBlockerKind,
        owner_session_id: &str,
        request_id: &str,
    )
        requires
            old(self).wf(),
        ensures
            final(self).wf(),
            final(self)@ == old(self)@.remove((kind, owner_session_id@, request_id@)),
    {
        let mut entries: Vec<LatchEntry> = Vec::new();
        core::mem::swap(&mut self.entries, &mut entries);
        let ghost all = entries@;
        let ghost key = (kind, owner_session_id@, request_id@);
        assert(entry_map(self.entries@) =~= entry_map(all.take(0)).remove(key));
        for entry in it: entries
            invariant
                it.seq() == all,
                key == (kind, owner_session_id@, request_id@),
                distinct(all),
                distinct(self.entries@),
                entry_map(self.entries@) == entry_map(all.take(it.index() as int)).remove(key),
        {
            proof {
                lemma_distinct_take(all, it.index() + 1);
                assert(all.take(it.index() + 1) == all.take(it.index() as int).push(entry));
                lemma_push(all.take(it.index() as int), entry);
                lemma_push(self.entries@, entry);
            }
            let same = entry.key.kind == kind && same_text(
                entry.key.owner_session_id.as_str(),
                owner_session_id,
            ) && same_text(entry.key.request_id.as_str(), request_id);
            if !same {
                self.entries.push(entry);
            }
            assert(entry_map(self.entries@) =~= entry_map(all.take(it.index() + 1)).remove(key));
        }
        assert(all.take(all.len() as int) == all);
    }

    /// Take account of a poll that looked at all pending requests.
    pub fn observe_poll_scan(&mut self, result: &BlockerScanResult)
        requires
            old(self).wf(),
        ensures
            final(self).wf(),
            final(self)@ == observed(old(self)@, *result),
    {
        match result {
            BlockerScanResult::Clear => {
                let mut entries: Vec<LatchEntry> = Vec::new();
                core::mem::swap(&mut self.entries, &mut entries);
                let ghost all = entries@;
                assert(entry_map(self.entries@) =~= observed(
                    entry_map(all.take(0)),
                    BlockerScanResult::Clear,
                ));
                for entry in it: entries
                    invariant
                        it.seq() == all,
                        distinct(all),
                        distinct(self.entries@),
                        entry_map(self.entries@) == observed(
                            entry_map(all.take(it.index() as int)),
                            BlockerScanResult::Clear,
                        ),
                {
                    let clear_polls: u8 = entry.clear_polls.saturating_add(1);
                    let counted = LatchEntry { key: entry.key, clear_polls };
                    proof {
                        lemma_distinct_take(all, it.index() + 1);
                        assert(all.take(it.index() + 1) == all.take(it.index() as int).push(entry));
                        lemma_push(all.take(it.index() as int), entry);
                        lemma_push(self.entries@, counted);
                    }
                    if clear_polls < LATCH_CLEAR_POLLS {
                        self.entries.push(counted);
                    }
                    assert(entry_map(self.entries@) =~= observed(
                        entry_map(all.take(it.index() + 1)),
                        BlockerScanResult::Clear,
                    ));
                }
                assert(all.take(all.len() as int) == all);
            },
            BlockerScanResult::Inconclusive => {
                let mut entries: Vec<LatchEntry> = Vec::new();
                core::mem::swap(&mut self.entries, &mut entries);
                let ghost all = entries@;
                assert(entry_map(self.entries@) =~= observed(
                    entry_map(all.take(0)),
                    BlockerScanResult::Inconclusive,
                ));
                for entry in it: entries
                    invariant
                        it.seq() == all,
                        distinct(all),
                        distinct(self.entries@),
                        entry_map(self.entries@) == observed(
                            entry_map(all.take(it.index() as int)),
                            BlockerScanResult::Inconclusive,
                        ),
                {
                    let counted = LatchEntry { key: entry.key, clear_polls: 0 };
                    proof {
                        lemma_distinct_take(all, it.index() + 1);
                        assert(all.take(it.index() + 1) == all.take(it.index() as int).push(entry));
                        lemma_push(all.take(it.index() as int), entry);
                        lemma_push(self.entries@, counted);
                    }
                    self.entries.push(counted);
                    assert(entry_map(self.entries@) =~= observed(
                        entry_map(all.take(it.index() + 1)),
                        BlockerScanResult::Inconclusive,
                    ));
                }
                assert(all.take(all.len() as int) == all);
            },
            BlockerScanResult::Found(_) => {},
        }
    }

    /// Whether nothing is held.
    pub fn is_empty(&self) -> (r: bool)
        ensures
            r == (self@ == Map::<LatchKey, nat>::empty()),
    {
        proof {
            if self.entries@.len() > 0 {
                assert(self@.contains_key(self.entries@.last().key@));
            }
        }
        self.entries.len() == 0
    }
}

proof fn lemma_distinct_take(entries: Seq<LatchEntry>, n: int)
    requires
        distinct(entries),
        0 <= n <= entries.len(),
    ensures
        distinct(entries.take(n)),
    decreases entries.len(),
{
    if n == entries.len() {
        assert(entries.take(n) == entries);
    } else {
        lemma_distinct_take(entries.drop_last(), n);
        assert(entries.drop_last().take(n) == entries.take(n));
    }
}

impl Default for CallerResponseEventLatch {
    fn default() -> (r: Self)
        ensures
            r.wf(),
            r@ == Map::<LatchKey, nat>::empty(),
    {
        CallerResponseEventLatch { entries: Vec::new() }
    }
}

/// What a poll does to each held request: a clear poll counts one up and releases what it finds at one; an
/// inconclusive poll keeps all at zero; a poll that found something changes nothing. No poll adds any.
pub proof fn law_polls_count_each_request(
    held: Map<LatchKey, nat>,
    key: LatchKey,
    found: Box<crate::blockers::CallerResponseBlocker>,
)
    ensures
        ({
            let clear = observed(held, BlockerScanResult::Clear);
            let unsure = observed(held, BlockerScanResult::Inconclusive);
            &&& clear.contains_key(key) <==> held.contains_key(key) && held[key] == 0
            &&& clear.contains_key(key) ==> clear[key] == 1
            &&& unsure.contains_key(key) <==> held.contains_key(key)
            &&& unsure.contains_key(key) ==> unsure[key] == 0
            &&& observed(held, BlockerScanResult::Found(found)) == held
        }),
{
}

} // verus!
