//! Requests that keep a session waiting for its caller, and their order.

use crate::api::PermissionRequest;
use crate::api::QuestionRequest;
use crate::text::before;
use crate::text::lemma_before_irreflexive;
use crate::text::lemma_before_total;
use crate::text::lemma_before_transitive;
use crate::text::same_text;
use crate::text::text_before;
use std::cmp::Ordering;
use vstd::prelude::*;

verus! {

/// What the caller is asked for.
#[derive(Clone, Copy, Debug, PartialEq, Eq, Hash, Structural)]
pub enum CallerResponseBlockerKind {
    Permission,
    Question,
}

/// The request itself.
#[derive(Clone, Debug)]
pub enum CallerResponseBlockerPayload {
    Permission(PermissionRequest),
    Question(QuestionRequest),
}

/// A request that waits for the caller, found in the tree below a root session.
#[derive(Clone, Debug)]
pub struct CallerResponseBlocker {
    pub root_session_id: String,
    pub owner_session_id: String,
    pub owner_depth: usize,
    pub request_id: String,
    pub kind: CallerResponseBlockerKind,
    pub payload: CallerResponseBlockerPayload,
}

/// What a look at all pending requests found.
#[derive(Clone, Debug)]
pub enum BlockerScanResult {
    /// The request that the caller has to answer next.
    Found(Box<CallerResponseBlocker>),
    /// Nothing waits for the caller.
    Clear,
    /// Nothing was found, but not everything could be looked at.
    Inconclusive,
}

/// The place of a kind in the order.
pub open spec fn kind_rank(kind: CallerResponseBlockerKind) -> int {
    match kind {
        CallerResponseBlockerKind::Permission => 0,
        CallerResponseBlockerKind::Question => 1,
    }
}

/// Permissions come before questions, then owners nearer to the root, then owners by id, then
/// requests by id.
pub open spec fn precedes(left: CallerResponseBlocker, right: CallerResponseBlocker) -> bool {
    if left.kind != right.kind {
        kind_rank(left.kind) < kind_rank(right.kind)
    } else if left.owner_depth != right.owner_depth {
        left.owner_depth < right.owner_depth
    } else if left.owner_session_id@ != right.owner_session_id@ {
        before(left.owner_session_id@, right.owner_session_id@)
    } else {
        before(left.request_id@, right.request_id@)
    }
}

/// Whether two requests have the same place in the order.
pub open spec fn same_place(left: CallerResponseBlocker, right: CallerResponseBlocker) -> bool {
    &&& left.kind == right.kind
    &&& left.owner_depth == right.owner_depth
    &&& left.owner_session_id@ == right.owner_session_id@
    &&& left.request_id@ == right.request_id@
}

/// How two requests are ordered.
pub fn compare_caller_response_blockers(
    left: &CallerResponseBlocker,
    right: &CallerResponseBlocker,
) -> (r: Ordering)
    ensures
        (r == Ordering::Less) == precedes(*left, *right),
        (r == Ordering::Greater) == precedes(*right, *left),
        (r == Ordering::Equal) == same_place(*left, *right),
{
    proof {
        law_order_is_strict(*left, *right, *left);
        lemma_before_irreflexive(left.request_id@);
    }
    if left.kind != right.kind {
        return if left.kind == CallerResponseBlockerKind::Permission {
            Ordering::Less
        } else {
            Ordering::Greater
        };
    }
    if left.owner_depth != right.owner_depth {
        return if left.owner_depth < right.owner_depth {
            Ordering::Less
        } else {
            Ordering::Greater
        };
    }
    if !same_text(left.owner_session_id.as_str(), right.owner_session_id.as_str()) {
        return if text_before(left.owner_session_id.as_str(), right.owner_session_id.as_str()) {
            Ordering::Less
        } else {
            Ordering::Greater
        };
    }
    if text_before(left.request_id.as_str(), right.request_id.as_str()) {
        Ordering::Less
    } else if text_before(right.request_id.as_str(), left.request_id.as_str()) {
        Ordering::Greater
    } else {
        Ordering::Equal
    }
}

/// The order is strict and total: it is transitive, of two requests at most one precedes the
/// other, and one does unless they have the same place.
pub proof fn law_order_is_strict(
    a: CallerResponseBlocker,
    b: CallerResponseBlocker,
    c: CallerResponseBlocker,
)
    ensures
        !(precedes(a, b) && precedes(b, a)),
        precedes(a, b) || precedes(b, a) || same_place(a, b),
        same_place(a, b) ==> !precedes(a, b),
        precedes(a, b) && precedes(b, c) ==> precedes(a, c),
        same_place(a, b) ==> (precedes(a, c) == precedes(b, c)) && (precedes(c, a) == precedes(c, b)),
{
    let ao = a.owner_session_id@;
    let bo = b.owner_session_id@;
    let co = c.owner_session_id@;
    let ar = a.request_id@;
    let br = b.request_id@;
    let cr = c.request_id@;
    lemma_before_total(ao, bo);
    lemma_before_total(ar, br);
    lemma_before_irreflexive(ao);
    lemma_before_irreflexive(ar);
    if before(ao, bo) && before(bo, ao) {
        lemma_before_transitive(ao, bo, ao);
    }
    if before(ar, br) && before(br, ar) {
        lemma_before_transitive(ar, br, ar);
    }
    if before(ao, bo) && before(bo, co) {
        lemma_before_transitive(ao, bo, co);
    }
    if before(ar, br) && before(br, cr) {
        lemma_before_transitive(ar, br, cr);
    }
}

/// The first request in the order; of several in the same place, the one that came first.
pub open spec fn leader(blockers: Seq<CallerResponseBlocker>) -> Option<CallerResponseBlocker>
    decreases blockers.len(),
{
    if blockers.len() == 0 {
        None
    } else {
        match leader(blockers.drop_last()) {
            Some(best) => if precedes(blockers.last(), best) {
                Some(blockers.last())
            } else {
                Some(best)
            },
            None => Some(blockers.last()),
        }
    }
}

/// The leader is one of the requests, none precedes it, and it precedes all that came earlier:
/// it is what a stable sort puts first.
pub proof fn law_leader_is_first(blockers: Seq<CallerResponseBlocker>) -> (i: int)
    requires
        blockers.len() > 0,
    ensures
        0 <= i < blockers.len(),
        leader(blockers) == Some(blockers[i]),
        forall|j: int| 0 <= j < blockers.len() ==> !precedes(#[trigger] blockers[j], blockers[i]),
        forall|j: int| 0 <= j < i ==> precedes(blockers[i], #[trigger] blockers[j]),
    decreases blockers.len(),
{
    let last = blockers.last();
    let rest = blockers.drop_last();
    law_order_is_strict(last, last, last);
    lemma_before_irreflexive(last.request_id@);
    if rest.len() == 0 {
        assert(leader(rest) is None);
        0
    } else {
        let i = law_leader_is_first(rest);
        if precedes(last, rest[i]) {
            assert forall|j: int| 0 <= j < rest.len() implies precedes(
                last,
                #[trigger] blockers[j],
            ) && !precedes(blockers[j], last) by {
                assert(rest[j] == blockers[j]);
                law_order_is_strict(rest[i], rest[j], last);
                law_order_is_strict(last, rest[i], rest[j]);
                law_order_is_strict(last, rest[j], rest[i]);
            }
            rest.len() as int
        } else {
            assert forall|j: int| 0 <= j < blockers.len() implies !precedes(
                #[trigger] blockers[j],
                rest[i],
            ) by {
                if j < rest.len() {
                    assert(rest[j] == blockers[j]);
                }
            }
            assert forall|j: int| 0 <= j < i implies precedes(
                blockers[i],
                #[trigger] blockers[j],
            ) by {
                assert(rest[j] == blockers[j]);
            }
            i
        }
    }
}

/// Whether the left request precedes the right one.
fn comes_first(left: &CallerResponseBlocker, right: &CallerResponseBlocker) -> (r: bool)
    ensures
        r == precedes(*left, *right),
{
    match compare_caller_response_blockers(left, right) {
        Ordering::Less => true,
        _ => false,
    }
}

/// The first request in the order, if there is any.
pub fn first_blocker(blockers: Vec<CallerResponseBlocker>) -> (r: Option<CallerResponseBlocker>)
    ensures
        r == leader(blockers@),
{
    let mut best: Option<CallerResponseBlocker> = None;
    for blocker in it: blockers
        invariant
            it.seq() == blockers@,
            best == leader(blockers@.take(it.index() as int)),
    {
        proof {
            let done = blockers@.take(it.index() + 1);
            assert(done.drop_last() == blockers@.take(it.index() as int));
            assert(done.last() == blocker);
        }
        let ahead = match &best {
            Some(b) => comes_first(&blocker, b),
            None => true,
        };
        if ahead {
            best = Some(blocker);
        }
    }
    assert(blockers@.take(blockers@.len() as int) == blockers@);
    best
}

/// What the order goes by, one thing after the other: permissions before questions whatever else; then the
/// owner nearer to the root; then the owner's id; then the request's id.
pub proof fn law_order_goes_by(a: CallerResponseBlocker, b: CallerResponseBlocker)
    ensures
        a.kind is Permission && b.kind is Question ==> precedes(a, b) && !precedes(b, a),
        a.kind == b.kind && a.owner_depth < b.owner_depth ==> precedes(a, b) && !precedes(b, a),
        a.kind == b.kind && a.owner_depth == b.owner_depth && before(
            a.owner_session_id@,
            b.owner_session_id@,
        ) ==> precedes(a, b) && !precedes(b, a),
        a.kind == b.kind && a.owner_depth == b.owner_depth && a.owner_session_id@
            == b.owner_session_id@ && before(a.request_id@, b.request_id@) ==> precedes(a, b)
            && !precedes(b, a),
{
    law_order_is_strict(a, b, a);
    lemma_before_irreflexive(a.owner_session_id@);
    lemma_before_irreflexive(a.request_id@);
    if before(a.request_id@, b.request_id@) && before(b.request_id@, a.request_id@) {
        lemma_before_transitive(a.request_id@, b.request_id@, a.request_id@);
    }
}

/// One more request leads only if it precedes the leader so far; a single request leads.
pub proof fn law_leader_gives_way_to_what_precedes(
    blockers: Seq<CallerResponseBlocker>,
    x: CallerResponseBlocker,
)
    ensures
        leader(Seq::<CallerResponseBlocker>::empty()) is None,
        leader(blockers.push(x)) is Some,
        blockers.len() == 0 ==> leader(blockers.push(x)) == Some(x),
        leader(blockers) matches Some(best) ==> leader(blockers.push(x)) == if precedes(x, best) {
            Some(x)
        } else {
            Some(best)
        },
{
    assert(blockers.push(x).drop_last() == blockers);
    assert(blockers.push(x).last() == x);
}

} // verus!
