//! Finds the pending request that a caller responds to.
//!
//! A caller may name the request; then it must be pending and its owner must be in the tree of the
//! caller's root session. Without a name there must be exactly one request in that tree, it must be
//! owned by the root session itself, and the owners of all pending requests must be known.

use crate::api::ApiError;
use crate::api::Session;
use crate::blockers::CallerResponseBlockerKind;
use crate::blockers::CallerResponseBlockerPayload;
use crate::errors::ToolError;
use crate::lineage::Parents;
use crate::lineage::SessionLineageResolver;
use crate::scan::depths_after;
use crate::scan::filled;
use crate::scan::in_tree;
use crate::scan::known_after;
use crate::scan::next_unknown;
use crate::scan::root_alone_at_zero;
use crate::scan::unresolved;
use crate::scan::OwnerDepth;
use crate::scan::OwnerSweep;
use crate::text::before;
use crate::text::cat5;
use crate::text::cat7;
use crate::text::join;
use crate::text::joined;
use crate::text::lemma_before_irreflexive;
use crate::text::lemma_before_total;
use crate::text::lemma_before_transitive;
use crate::text::lemma_occurs_between;
use crate::text::occurs_in;
use crate::text::same_text;
use crate::text::text_before;
use crate::text::views;
use vstd::pervasive::unreached;
use vstd::prelude::*;

verus! {

// ---------------------------------------------------------------------------
// Listings in a fixed order
// ---------------------------------------------------------------------------
/// A request as it is listed in an error.
pub struct Listed {
    pub depth: usize,
    pub owner: String,
    pub id: String,
    /// Why the owner could not be placed.
    pub failure: Option<String>,
}

/// Requests nearer to the root come first, then by owner, then by id.
pub open spec fn earlier(a: Listed, b: Listed) -> bool {
    if a.depth != b.depth {
        a.depth < b.depth
    } else if a.owner@ != b.owner@ {
        before(a.owner@, b.owner@)
    } else {
        before(a.id@, b.id@)
    }
}

/// A listing with one more request at its place, behind those that do not come later.
pub open spec fn placed(listing: Seq<Listed>, x: Listed) -> Seq<Listed>
    decreases listing.len(),
{
    if listing.len() == 0 || !earlier(x, listing.last()) {
        listing.push(x)
    } else {
        placed(listing.drop_last(), x).push(listing.last())
    }
}

/// The requests in order.
pub open spec fn in_order(requests: Seq<Listed>) -> Seq<Listed>
    decreases requests.len(),
{
    if requests.len() == 0 {
        Seq::empty()
    } else {
        placed(in_order(requests.drop_last()), requests.last())
    }
}

/// No request comes before one listed ahead of it.
pub open spec fn is_ordered(listing: Seq<Listed>) -> bool {
    forall|i: int, j: int|
        0 <= i < j < listing.len() ==> !earlier(#[trigger] listing[j], #[trigger] listing[i])
}

proof fn lemma_earlier(a: Listed, b: Listed, c: Listed)
    ensures
        earlier(a, b) ==> !earlier(b, a),
        !earlier(a, b) && !earlier(b, c) ==> !earlier(a, c),
{
    lemma_before_total(a.owner@, b.owner@);
    lemma_before_total(b.owner@, c.owner@);
    lemma_before_total(a.owner@, c.owner@);
    lemma_before_total(a.id@, b.id@);
    lemma_before_total(b.id@, c.id@);
    lemma_before_irreflexive(a.owner@);
    lemma_before_irreflexive(a.id@);
    lemma_before_irreflexive(c.id@);
    lemma_before_irreflexive(c.owner@);
    if before(a.owner@, b.owner@) && before(b.owner@, a.owner@) {
        lemma_before_transitive(a.owner@, b.owner@, a.owner@);
    }
    if before(a.id@, b.id@) && before(b.id@, a.id@) {
        lemma_before_transitive(a.id@, b.id@, a.id@);
    }
    if before(a.owner@, c.owner@) && before(c.owner@, b.owner@) {
        lemma_before_transitive(a.owner@, c.owner@, b.owner@);
    }
    if before(b.owner@, a.owner@) && before(a.owner@, c.owner@) {
        lemma_before_transitive(b.owner@, a.owner@, c.owner@);
    }
    if before(a.id@, c.id@) && before(c.id@, b.id@) {
        lemma_before_transitive(a.id@, c.id@, b.id@);
    }
    if before(b.id@, a.id@) && before(a.id@, c.id@) {
        lemma_before_transitive(b.id@, a.id@, c.id@);
    }
}

proof fn lemma_placed(listing: Seq<Listed>, x: Listed)
    requires
        is_ordered(listing),
    ensures
        is_ordered(placed(listing, x)),
        placed(listing, x).to_multiset() == listing.to_multiset().insert(x),
        forall|y: Listed| #[trigger]
            placed(listing, x).contains(y) ==> y == x || listing.contains(y),
    decreases listing.len(),
{
    broadcast use vstd::seq_lib::group_to_multiset_ensures;

    if listing.len() == 0 || !earlier(x, listing.last()) {
        let after = listing.push(x);
        assert forall|i: int, j: int| 0 <= i < j < after.len() implies !earlier(
            #[trigger] after[j],
            #[trigger] after[i],
        ) by {
            if j == listing.len() {
                if i < listing.len() - 1 {
                    assert(!earlier(listing[listing.len() - 1], listing[i]));
                }
                lemma_earlier(x, listing.last(), listing[i]);
            }
        }
        assert forall|y: Listed| #[trigger] after.contains(y) implies y == x || listing.contains(
            y,
        ) by {
            let i = choose|i: int| 0 <= i < after.len() && after[i] == y;
            if i < listing.len() {
                assert(listing[i] == y);
            }
        }
    } else {
        let rest = listing.drop_last();
        let last = listing.last();
        lemma_placed(rest, x);
        let head = placed(rest, x);
        let after = head.push(last);
        assert(listing == rest.push(last));
        assert(after.to_multiset() =~= listing.to_multiset().insert(x));
        assert forall|i: int, j: int| 0 <= i < j < after.len() implies !earlier(
            #[trigger] after[j],
            #[trigger] after[i],
        ) by {
            if j == head.len() {
                assert(head.contains(head[i]));
                if head[i] == x {
                    lemma_earlier(x, last, x);
                } else {
                    let k = choose|k: int| 0 <= k < rest.len() && rest[k] == head[i];
                    assert(listing[k] == head[i]);
                    assert(!earlier(listing[listing.len() - 1], listing[k]));
                }
            }
        }
        assert forall|y: Listed| #[trigger] after.contains(y) implies y == x || listing.contains(
            y,
        ) by {
            let i = choose|i: int| 0 <= i < after.len() && after[i] == y;
            if i < head.len() {
                assert(head.contains(y));
                if y != x {
                    let k = choose|k: int| 0 <= k < rest.len() && rest[k] == y;
                    assert(listing[k] == y);
                }
            } else {
                assert(listing[listing.len() - 1] == y);
            }
        }
    }
}

/// A listing in order holds the same requests, and none comes before one listed ahead of it.
pub proof fn law_in_order(requests: Seq<Listed>)
    ensures
        is_ordered(in_order(requests)),
        in_order(requests).to_multiset() == requests.to_multiset(),
    decreases requests.len(),
{
    broadcast use vstd::seq_lib::group_to_multiset_ensures;

    if requests.len() > 0 {
        law_in_order(requests.drop_last());
        lemma_placed(in_order(requests.drop_last()), requests.last());
        assert(requests == requests.drop_last().push(requests.last()));
    } else {
        assert(in_order(requests) == requests);
    }
}

fn is_earlier(a: &Listed, b: &Listed) -> (r: bool)
    ensures
        r == earlier(*a, *b),
{
    if a.depth != b.depth {
        return a.depth < b.depth;
    }
    if !same_text(a.owner.as_str(), b.owner.as_str()) {
        return text_before(a.owner.as_str(), b.owner.as_str());
    }
    text_before(a.id.as_str(), b.id.as_str())
}

/// Put requests in order.
pub fn put_in_order(requests: Vec<Listed>) -> (r: Vec<Listed>)
    ensures
        r@ == in_order(requests@),
{
    let mut listing: Vec<Listed> = Vec::new();
    for request in it: requests
        invariant
            it.seq() == requests@,
            listing@ == in_order(requests@.take(it.index() as int)),
    {
        proof {
            let longer = requests@.take(it.index() + 1);
            assert(longer.drop_last() == requests@.take(it.index() as int));
            assert(longer.last() == request);
        }
        let mut at: usize = listing.len();
        assert(listing@.take(at as int) == listing@);
        assert(listing@.skip(at as int) == Seq::<Listed>::empty());
        assert(placed(listing@, request) + Seq::<Listed>::empty() == placed(listing@, request));
        while at > 0 && is_earlier(&request, &listing[at - 1])
            invariant
                at <= listing.len(),
                placed(listing@, request) == placed(listing@.take(at as int), request)
                    + listing@.skip(at as int),
            decreases at,
        {
            let ghost head = listing@.take(at as int);
            proof {
                assert(head.drop_last() == listing@.take(at - 1));
                assert(seq![head.last()] + listing@.skip(at as int) == listing@.skip(at - 1));
                assert(placed(head.drop_last(), request).push(head.last()) + listing@.skip(
                    at as int,
                ) == placed(head.drop_last(), request) + listing@.skip(at - 1));
            }
            at -= 1;
        }
        proof {
            let head = listing@.take(at as int);
            assert(placed(head, request) == head.push(request));
            assert(listing@.insert(at as int, request) == head.push(request) + listing@.skip(
                at as int,
            ));
        }
        listing.insert(at, request);
    }
    assert(requests@.take(requests@.len() as int) == requests@);
    listing
}

// ---------------------------------------------------------------------------
// What is said about requests
// ---------------------------------------------------------------------------
/// What a kind of request is called.
pub open spec fn noun(kind: CallerResponseBlockerKind) -> Seq<char> {
    match kind {
        CallerResponseBlockerKind::Permission => "permission"@,
        CallerResponseBlockerKind::Question => "question"@,
    }
}

/// What a kind of request is called at the start of a sentence.
pub open spec fn title(kind: CallerResponseBlockerKind) -> Seq<char> {
    match kind {
        CallerResponseBlockerKind::Permission => "Permission"@,
        CallerResponseBlockerKind::Question => "Question"@,
    }
}

fn noun_text(kind: CallerResponseBlockerKind) -> (r: &'static str)
    ensures
        r@ == noun(kind),
{
    match kind {
        CallerResponseBlockerKind::Permission => "permission",
        CallerResponseBlockerKind::Question => "question",
    }
}

fn title_text(kind: CallerResponseBlockerKind) -> (r: &'static str)
    ensures
        r@ == title(kind),
{
    match kind {
        CallerResponseBlockerKind::Permission => "Permission",
        CallerResponseBlockerKind::Question => "Question",
    }
}

/// A request whose owner could not be placed, as it is listed in an error.
pub open spec fn failure_line(request: Listed) -> Seq<char> {
    "request '"@ + request.id@ + "' owned by session '"@ + request.owner@ + "': "@ + match request.failure {
        Some(text) => text@,
        None => Seq::empty(),
    }
}

/// The lines about requests whose owner could not be placed.
pub open spec fn failure_lines(requests: Seq<Listed>) -> Seq<Seq<char>> {
    Seq::new(requests.len(), |i: int| failure_line(requests[i]))
}

/// The ids of listed requests.
pub open spec fn listed_ids(requests: Seq<Listed>) -> Seq<Seq<char>> {
    Seq::new(requests.len(), |i: int| requests[i].id@)
}

/// The pending requests in the root's tree, in order of listing by the server.
pub open spec fn eligible(
    pending: Seq<CallerResponseBlockerPayload>,
    depths: Seq<OwnerDepth>,
) -> Seq<CallerResponseBlockerPayload>
    decreases pending.len(),
{
    if pending.len() == 0 {
        Seq::empty()
    } else {
        let rest = eligible(pending.drop_last(), depths);
        match depths[pending.len() - 1] {
            Ok(Some(_)) => rest.push(pending.last()),
            _ => rest,
        }
    }
}

/// The pending requests in the root's tree, as they are listed in an error.
pub open spec fn eligible_listing(
    pending: Seq<CallerResponseBlockerPayload>,
    depths: Seq<OwnerDepth>,
) -> Seq<Listed>
    decreases pending.len(),
{
    if pending.len() == 0 {
        Seq::empty()
    } else {
        let rest = eligible_listing(pending.drop_last(), depths);
        match depths[pending.len() - 1] {
            Ok(Some(depth)) => rest.push(
                Listed {
                    depth,
                    owner: pending.last().owner(),
                    id: pending.last().request_id(),
                    failure: None,
                },
            ),
            _ => rest,
        }
    }
}

/// The pending requests whose owner could not be placed, as they are listed in an error.
pub open spec fn failed_listing(
    pending: Seq<CallerResponseBlockerPayload>,
    depths: Seq<OwnerDepth>,
) -> Seq<Listed>
    decreases pending.len(),
{
    if pending.len() == 0 {
        Seq::empty()
    } else {
        let rest = failed_listing(pending.drop_last(), depths);
        match depths[pending.len() - 1] {
            Err(error) => rest.push(
                Listed {
                    depth: 0,
                    owner: pending.last().owner(),
                    id: pending.last().request_id(),
                    failure: Some(error.text),
                },
            ),
            _ => rest,
        }
    }
}

/// A named request is not pending.
pub open spec fn not_pending_text(
    kind: CallerResponseBlockerKind,
    id: Seq<char>,
    root: Seq<char>,
) -> Seq<char> {
    "No pending "@ + noun(kind) + " found with id '"@ + id + "'. (session_id='"@ + root + "')"@
}

/// A named request is owned by a session outside the root's tree.
pub open spec fn foreign_text(
    kind: CallerResponseBlockerKind,
    id: Seq<char>,
    owner: Seq<char>,
    root: Seq<char>,
) -> Seq<char> {
    title(kind) + " request '"@ + id + "' belongs to session '"@ + owner
        + "', which is not session '"@ + root + "' or an eligible descendant."@
}

/// The owner of a named request could not be placed.
pub open spec fn unverified_text(
    kind: CallerResponseBlockerKind,
    id: Seq<char>,
    error: ApiError,
) -> Seq<char> {
    "Failed to verify "@ + noun(kind) + " request '"@ + id + "' owner ancestry: "@ + error.text@
}

/// The owner of some pending request could not be placed.
pub open spec fn unplaced_text(
    kind: CallerResponseBlockerKind,
    root: Seq<char>,
    details: Seq<char>,
) -> Seq<char> {
    "Unable to safely discover a pending "@ + noun(kind) + " for root session '"@ + root
        + "': request ancestry could not be verified ("@ + details
        + "). Retry after the OpenCode session endpoint recovers, or provide "@ + noun(kind)
        + "_request_id returned by run."@
}

/// No request is pending in the root's tree.
pub open spec fn none_text(kind: CallerResponseBlockerKind, root: Seq<char>) -> Seq<char> {
    "No pending "@ + noun(kind) + " found for session '"@ + root + "'. The "@ + noun(kind)
        + " may have already been responded to."@
}

/// The only request pending in the root's tree is owned by a session below the root.
pub open spec fn below_root_text(
    kind: CallerResponseBlockerKind,
    id: Seq<char>,
    owner: Seq<char>,
    root: Seq<char>,
) -> Seq<char> {
    title(kind) + " request '"@ + id + "' belongs to session '"@ + owner
        + "', a descendant of session '"@ + root + "'. Please retry with "@ + noun(kind)
        + "_request_id (returned by run)."@
}

/// Several requests are pending in the root's tree.
pub open spec fn several_text(
    kind: CallerResponseBlockerKind,
    root: Seq<char>,
    listed: Seq<char>,
) -> Seq<char> {
    "Multiple pending "@ + noun(kind) + "s found for session '"@ + root + "': "@ + listed
        + ". Please retry with "@ + noun(kind) + "_request_id (returned by run)."@
}

// ---------------------------------------------------------------------------
// The selection
// ---------------------------------------------------------------------------
/// How far a selection has come.
pub enum SelectionStage {
    /// Waiting for the pending requests.
    Listing,
    /// Waiting for a session that places the owner of a request.
    Placing { sweep: OwnerSweep, fetching: String },
    /// Over.
    Finished,
}

/// A selection on its way.
pub struct RequestSelection {
    pub kind: CallerResponseBlockerKind,
    pub root: String,
    pub wanted: Option<String>,
    pub lineage: SessionLineageResolver,
    pub stage: SelectionStage,
}

/// What a selection needs next, or its outcome.
pub enum SelectionStep {
    FetchSession(String),
    Chosen(CallerResponseBlockerPayload),
    Failed(ToolError),
}

/// The place of the first pending request with an id.
pub open spec fn position(pending: Seq<CallerResponseBlockerPayload>, id: Seq<char>, from: int) -> Option<
    int,
>
    decreases pending.len() - from,
{
    if from < 0 || from >= pending.len() {
        None
    } else if pending[from].request_id()@ == id {
        Some(from)
    } else {
        position(pending, id, from + 1)
    }
}

/// The requests that come into question: the named one if it is pending, else all.
pub open spec fn candidates(
    pending: Seq<CallerResponseBlockerPayload>,
    wanted: Option<String>,
) -> Option<Seq<CallerResponseBlockerPayload>> {
    match wanted {
        Some(id) => match position(pending, id@, 0) {
            Some(i) => Some(seq![pending[i]]),
            None => None,
        },
        None => Some(pending),
    }
}

/// Whether the request with this id is the only one in question.
pub open spec fn is_named(requests: Seq<CallerResponseBlockerPayload>, id: Seq<char>) -> bool {
    requests.len() == 1 && requests[0].request_id()@ == id
}

/// Whether a step is a failure with this internal error.
pub open spec fn breaks(step: SelectionStep, text: Seq<char>) -> bool {
    step is Failed && step->Failed_0.is_internal(text)
}

/// Whether a step is a failure with this error about the input.
pub open spec fn refuses(step: SelectionStep, text: Seq<char>) -> bool {
    step is Failed && step->Failed_0.is_invalid_input(text)
}

/// What is decided once the owners of all requests in question are placed or could not be placed.
pub open spec fn decides(
    kind: CallerResponseBlockerKind,
    root: Seq<char>,
    wanted: Option<String>,
    requests: Seq<CallerResponseBlockerPayload>,
    depths: Seq<OwnerDepth>,
    step: SelectionStep,
) -> bool {
    match wanted {
        Some(id) => match depths[0] {
            Ok(Some(_)) => step == SelectionStep::Chosen(requests[0]),
            Ok(None) => refuses(step, foreign_text(kind, id@, requests[0].owner()@, root)),
            Err(error) => breaks(step, unverified_text(kind, id@, error)),
        },
        None => {
            let found = eligible(requests, depths);
            let listing = eligible_listing(requests, depths);
            if unresolved(depths) {
                breaks(
                    step,
                    unplaced_text(
                        kind,
                        root,
                        joined(failure_lines(in_order(failed_listing(requests, depths))), "; "@),
                    ),
                )
            } else if found.len() == 0 {
                refuses(step, none_text(kind, root))
            } else if found.len() == 1 {
                if listing[0].depth == 0 {
                    step == SelectionStep::Chosen(found[0])
                } else {
                    refuses(
                        step,
                        below_root_text(kind, listing[0].id@, listing[0].owner@, root),
                    )
                }
            } else {
                refuses(
                    step,
                    several_text(
                        kind,
                        root,
                        joined(listed_ids(in_order(listing)), ", "@),
                    ),
                )
            }
        },
    }
}

/// What becomes of a selection with this much placed: it asks for the next session, or decides.
pub open spec fn narrows(
    before: RequestSelection,
    known: Parents,
    requests: Seq<CallerResponseBlockerPayload>,
    depths: Seq<OwnerDepth>,
    after: RequestSelection,
    step: SelectionStep,
) -> bool {
    let all = filled(known, before.root@, requests, depths);
    &&& after.kind == before.kind
    &&& after.root == before.root
    &&& after.wanted == before.wanted
    &&& after.lineage.known() == known
    &&& match next_unknown(known, before.root@, requests, depths.len() as int) {
        Some((i, id)) => {
            &&& after.stage matches SelectionStage::Placing { sweep, fetching }
            &&& sweep.pending@ == requests
            &&& sweep.depths@ == all.take(i)
            &&& fetching@ == id
            &&& step == SelectionStep::FetchSession(fetching)
        },
        None => {
            &&& after.stage is Finished
            &&& decides(before.kind, before.root@, before.wanted, requests, all, step)
        },
    }
}

/// What a selection does with the pending requests.
pub open spec fn listing_taken(
    before: RequestSelection,
    pending: Seq<CallerResponseBlockerPayload>,
    after: RequestSelection,
    step: SelectionStep,
) -> bool {
    match candidates(pending, before.wanted) {
        Some(requests) => narrows(
            before,
            before.lineage.known(),
            requests,
            Seq::empty(),
            after,
            step,
        ),
        None => {
            &&& after == (RequestSelection { stage: SelectionStage::Finished, ..before })
            &&& refuses(
                step,
                not_pending_text(before.kind, before.wanted->Some_0@, before.root@),
            )
        },
    }
}

/// What a selection does with a session that it asked for.
pub open spec fn selection_session_taken(
    before: RequestSelection,
    reply: Result<Session, ApiError>,
    after: RequestSelection,
    step: SelectionStep,
) -> bool {
    narrows(
        before,
        known_after(before.lineage.known(), before.stage->fetching@, reply),
        before.stage->sweep.pending@,
        depths_after(before.stage->sweep.depths@, reply),
        after,
        step,
    )
}

impl RequestSelection {
    /// The parts of the state agree with each other.
    pub open spec fn wf(&self) -> bool {
        &&& self.lineage.consistent_with(self.root@)
        &&& self.stage matches SelectionStage::Placing { sweep, .. } ==> {
            &&& sweep.depths@.len() < sweep.pending@.len()
            &&& self.wanted is Some ==> is_named(sweep.pending@, self.wanted->Some_0@)
            &&& root_alone_at_zero(self.root@, sweep.pending@, sweep.depths@)
        }
    }

    /// What is chosen is the request that was named, or else one of the root session itself.
    pub open spec fn chooses_as_asked(&self, step: SelectionStep) -> bool {
        step is Chosen ==> match self.wanted {
            Some(id) => step->Chosen_0.request_id()@ == id@,
            None => step->Chosen_0.owner()@ == self.root@,
        }
    }

    /// Start a selection in the tree of a root session.
    pub fn begin(kind: CallerResponseBlockerKind, root: String, wanted: Option<String>) -> (r: Self)
        ensures
            r.wf(),
            r.kind == kind,
            r.root == root,
            r.wanted == wanted,
            r.lineage.known() == Map::<Seq<char>, Option<Seq<char>>>::empty(),
            r.stage is Listing,
    {
        RequestSelection {
            kind,
            root,
            wanted,
            lineage: SessionLineageResolver::default(),
            stage: SelectionStage::Listing,
        }
    }

    /// Take the pending requests.
    pub fn on_listed(&mut self, pending: Vec<CallerResponseBlockerPayload>) -> (step: SelectionStep)
        requires
            old(self).wf(),
            old(self).stage is Listing,
        ensures
            final(self).wf(),
            listing_taken(*old(self), pending@, *final(self), step),
            old(self).chooses_as_asked(step),
    {
        self.stage = SelectionStage::Finished;
        let requests = match &self.wanted {
            Some(id) => {
                let mut pending = pending;
                let ghost all = pending@;
                let mut at: usize = 0;
                while at < pending.len() && !same_text(pending[at].id().as_str(), id.as_str())
                    invariant
                        at <= pending.len(),
                        all == pending@,
                        position(all, id@, 0) == position(all, id@, at as int),
                    decreases pending.len() - at,
                {
                    at += 1;
                }
                if at == pending.len() {
                    let text = cat7(
                        "No pending ",
                        noun_text(self.kind),
                        " found with id '",
                        id.as_str(),
                        "'. (session_id='",
                        self.root.as_str(),
                        "')",
                    );
                    return SelectionStep::Failed(ToolError::InvalidInput(text));
                }
                let request = pending.remove(at);
                let mut requests: Vec<CallerResponseBlockerPayload> = Vec::new();
                requests.push(request);
                assert(requests@ == seq![all[at as int]]);
                requests
            },
            None => pending,
        };
        let mut sweep = OwnerSweep::new(requests);
        let next = sweep.advance(&self.root, &mut self.lineage);
        self.narrow(sweep, next)
    }

    /// Take a session that was asked for.
    pub fn on_session(&mut self, reply: Result<Session, ApiError>) -> (step: SelectionStep)
        requires
            old(self).wf(),
            old(self).stage is Placing,
        ensures
            final(self).wf(),
            selection_session_taken(*old(self), reply, *final(self), step),
            old(self).chooses_as_asked(step),
    {
        let mut stage = SelectionStage::Finished;
        core::mem::swap(&mut self.stage, &mut stage);
        match stage {
            SelectionStage::Placing { sweep, fetching } => {
                let mut sweep = sweep;
                let next = sweep.settle(&self.root, &mut self.lineage, &fetching, reply);
                self.narrow(sweep, next)
            },
            _ => unreached(),
        }
    }

    fn narrow(&mut self, sweep: OwnerSweep, next: Option<String>) -> (step: SelectionStep)
        requires
            old(self).wf(),
            old(self).stage is Finished,
            next is Some ==> sweep.depths@.len() < sweep.pending@.len(),
            next is None ==> sweep.depths@.len() == sweep.pending@.len(),
            old(self).wanted is Some ==> is_named(
                sweep.pending@,
                old(self).wanted->Some_0@,
            ),
            root_alone_at_zero(old(self).root@, sweep.pending@, sweep.depths@),
        ensures
            final(self).wf(),
            old(self).chooses_as_asked(step),
            *final(self) == (RequestSelection { stage: final(self).stage, ..*old(self) }),
            match next {
                Some(id) => {
                    &&& final(self).stage == (SelectionStage::Placing { sweep, fetching: id })
                    &&& step == SelectionStep::FetchSession(id)
                },
                None => {
                    &&& final(self).stage is Finished
                    &&& decides(
                        old(self).kind,
                        old(self).root@,
                        old(self).wanted,
                        sweep.pending@,
                        sweep.depths@,
                        step,
                    )
                },
            },
    {
        if let Some(id) = next {
            let fetching = id.clone();
            self.stage = SelectionStage::Placing { sweep, fetching };
            return SelectionStep::FetchSession(id);
        }
        if self.wanted.is_some() {
            self.decide_named(sweep)
        } else {
            self.decide_discovered(sweep)
        }
    }

    fn decide_named(&self, sweep: OwnerSweep) -> (step: SelectionStep)
        requires
            self.wanted is Some,
            is_named(sweep.pending@, self.wanted->Some_0@),
            sweep.depths@.len() == 1,
        ensures
            self.chooses_as_asked(step),
            decides(
                self.kind,
                self.root@,
                self.wanted,
                sweep.pending@,
                sweep.depths@,
                step,
            ),
    {
        let OwnerSweep { pending, depths } = sweep;
        let mut pending = pending;
        let request = pending.swap_remove(0);
        let id = match &self.wanted {
            Some(id) => id.as_str(),
            None => unreached(),
        };
        match &depths[0] {
            Ok(Some(_)) => SelectionStep::Chosen(request),
            Ok(None) => {
                let mut text = cat7(
                    title_text(self.kind),
                    " request '",
                    id,
                    "' belongs to session '",
                    request.owner_session_id().as_str(),
                    "', which is not session '",
                    self.root.as_str(),
                );
                text.append("' or an eligible descendant.");
                SelectionStep::Failed(ToolError::InvalidInput(text))
            },
            Err(error) => {
                let mut text = cat5(
                    "Failed to verify ",
                    noun_text(self.kind),
                    " request '",
                    id,
                    "' owner ancestry: ",
                );
                text.append(error.text.as_str());
                SelectionStep::Failed(ToolError::Internal(text))
            },
        }
    }

    fn decide_discovered(&self, sweep: OwnerSweep) -> (step: SelectionStep)
        requires
            self.wanted is None,
            sweep.depths@.len() == sweep.pending@.len(),
            root_alone_at_zero(self.root@, sweep.pending@, sweep.depths@),
        ensures
            self.chooses_as_asked(step),
            decides(
                self.kind,
                self.root@,
                self.wanted,
                sweep.pending@,
                sweep.depths@,
                step,
            ),
    {
        let OwnerSweep { pending, depths } = sweep;
        let mut found: Vec<CallerResponseBlockerPayload> = Vec::new();
        let mut listing: Vec<Listed> = Vec::new();
        let mut failed: Vec<Listed> = Vec::new();
        let count: usize = depths.len();
        let mut at: usize = 0;
        for request in it: pending
            invariant
                it.seq() == pending@,
                at == it.index(),
                count == depths@.len(),
                depths@.len() == pending@.len(),
                found@ == eligible(pending@.take(at as int), depths@),
                listing@ == eligible_listing(pending@.take(at as int), depths@),
                listing@.len() == found@.len(),
                failed@ == failed_listing(pending@.take(at as int), depths@),
                failed@.len() > 0 <==> exists|i: int|
                    0 <= i < at && #[trigger] depths@[i] is Err,
        {
            proof {
                assert(pending@.take(at + 1).drop_last() == pending@.take(at as int));
                assert(pending@.take(at + 1).last() == request);
            }
            match &depths[at] {
                Ok(Some(depth)) => {
                    listing.push(
                        Listed {
                            depth: *depth,
                            owner: request.owner_session_id().clone(),
                            id: request.id().clone(),
                            failure: None,
                        },
                    );
                    found.push(request);
                },
                Ok(None) => {},
                Err(error) => {
                    failed.push(
                        Listed {
                            depth: 0,
                            owner: request.owner_session_id().clone(),
                            id: request.id().clone(),
                            failure: Some(error.text.clone()),
                        },
                    );
                },
            }
            at += 1;
        }
        assert(pending@.take(at as int) == pending@);
        if failed.len() > 0 {
            let details = failure_details(put_in_order(failed));
            let mut text = cat7(
                "Unable to safely discover a pending ",
                noun_text(self.kind),
                " for root session '",
                self.root.as_str(),
                "': request ancestry could not be verified (",
                details.as_str(),
                "). Retry after the OpenCode session endpoint recovers, or provide ",
            );
            text.append(noun_text(self.kind));
            text.append("_request_id returned by run.");
            return SelectionStep::Failed(ToolError::Internal(text));
        }
        assert(!unresolved(depths@));
        if found.len() == 0 {
            let text = cat7(
                "No pending ",
                noun_text(self.kind),
                " found for session '",
                self.root.as_str(),
                "'. The ",
                noun_text(self.kind),
                " may have already been responded to.",
            );
            return SelectionStep::Failed(ToolError::InvalidInput(text));
        }
        if found.len() == 1 {
            let only = &listing[0];
            if only.depth != 0 {
                let mut text = cat7(
                    title_text(self.kind),
                    " request '",
                    only.id.as_str(),
                    "' belongs to session '",
                    only.owner.as_str(),
                    "', a descendant of session '",
                    self.root.as_str(),
                );
                text.append("'. Please retry with ");
                text.append(noun_text(self.kind));
                text.append("_request_id (returned by run).");
                return SelectionStep::Failed(ToolError::InvalidInput(text));
            }
            proof {
                let i = lemma_eligible_source(pending@, depths@, 0);
            }
            return SelectionStep::Chosen(found.swap_remove(0));
        }
        let ids = id_list(put_in_order(listing));
        let mut text = cat7(
            "Multiple pending ",
            noun_text(self.kind),
            "s found for session '",
            self.root.as_str(),
            "': ",
            ids.as_str(),
            ". Please retry with ",
        );
        text.append(noun_text(self.kind));
        text.append("_request_id (returned by run).");
        SelectionStep::Failed(ToolError::InvalidInput(text))
    }
}

/// A named request is chosen only if it is pending under that id, as the first of that id, and its owner
/// was placed in the root's tree.
pub proof fn law_named_choice(
    kind: CallerResponseBlockerKind,
    root: Seq<char>,
    wanted: String,
    pending: Seq<CallerResponseBlockerPayload>,
    requests: Seq<CallerResponseBlockerPayload>,
    depths: Seq<OwnerDepth>,
    chosen: CallerResponseBlockerPayload,
) -> (i: int)
    requires
        candidates(pending, Some(wanted)) == Some(requests),
        decides(kind, root, Some(wanted), requests, depths, SelectionStep::Chosen(chosen)),
    ensures
        0 <= i < pending.len(),
        chosen == pending[i],
        chosen.request_id()@ == wanted@,
        forall|j: int| 0 <= j < i ==> (#[trigger] pending[j]).request_id()@ != wanted@,
        in_tree(depths, 0),
{
    lemma_position(pending, wanted@, 0);
    position(pending, wanted@, 0)->Some_0
}

/// The first request with an id is where `position` says.
pub proof fn lemma_position(
    pending: Seq<CallerResponseBlockerPayload>,
    id: Seq<char>,
    from: int,
)
    requires
        0 <= from,
    ensures
        match position(pending, id, from) {
            Some(i) => {
                &&& from <= i < pending.len()
                &&& pending[i].request_id()@ == id
                &&& forall|j: int| from <= j < i ==> (#[trigger] pending[j]).request_id()@ != id
            },
            None => forall|j: int|
                from <= j < pending.len() ==> (#[trigger] pending[j]).request_id()@ != id,
        },
    decreases pending.len() - from,
{
    if from < pending.len() && pending[from].request_id()@ != id {
        lemma_position(pending, id, from + 1);
    }
}

proof fn lemma_eligible_count(
    pending: Seq<CallerResponseBlockerPayload>,
    depths: Seq<OwnerDepth>,
    i: int,
    j: int,
)
    requires
        0 <= i < pending.len(),
        0 <= j < pending.len(),
        in_tree(depths, i),
        in_tree(depths, j),
    ensures
        eligible(pending, depths).len() >= 1,
        i != j ==> eligible(pending, depths).len() >= 2,
    decreases pending.len(),
{
    let rest = pending.drop_last();
    let last = pending.len() - 1;
    if i < last && j < last {
        lemma_eligible_count(rest, depths, i, j);
    } else if i < last {
        lemma_eligible_count(rest, depths, i, i);
    } else if j < last {
        lemma_eligible_count(rest, depths, j, j);
    }
}

proof fn lemma_listing_length(
    pending: Seq<CallerResponseBlockerPayload>,
    depths: Seq<OwnerDepth>,
)
    ensures
        eligible_listing(pending, depths).len() == eligible(pending, depths).len(),
    decreases pending.len(),
{
    if pending.len() > 0 {
        lemma_listing_length(pending.drop_last(), depths);
    }
}

proof fn lemma_eligible_source(
    pending: Seq<CallerResponseBlockerPayload>,
    depths: Seq<OwnerDepth>,
    k: int,
) -> (i: int)
    requires
        0 <= k < eligible(pending, depths).len(),
    ensures
        0 <= i < pending.len(),
        in_tree(depths, i),
        eligible(pending, depths)[k] == pending[i],
        k < eligible_listing(pending, depths).len(),
        eligible_listing(pending, depths)[k].depth == depths[i]->Ok_0->Some_0,
    decreases pending.len(),
{
    let rest = eligible(pending.drop_last(), depths);
    lemma_listing_length(pending.drop_last(), depths);
    if k < rest.len() {
        lemma_eligible_source(pending.drop_last(), depths, k)
    } else {
        pending.len() - 1
    }
}

/// Without a name a request is chosen only if it is the only one in the root's tree, it is owned at depth
/// zero, and the owners of all pending requests are known.
pub proof fn law_discovered_choice(
    kind: CallerResponseBlockerKind,
    root: Seq<char>,
    requests: Seq<CallerResponseBlockerPayload>,
    depths: Seq<OwnerDepth>,
    chosen: CallerResponseBlockerPayload,
) -> (i: int)
    requires
        depths.len() == requests.len(),
        decides(kind, root, None, requests, depths, SelectionStep::Chosen(chosen)),
    ensures
        0 <= i < requests.len(),
        chosen == requests[i],
        depths[i] == Ok::<Option<usize>, ApiError>(Some(0)),
        forall|j: int|
            0 <= j < requests.len() && j != i ==> #[trigger] depths[j] == Ok::<
                Option<usize>,
                ApiError,
            >(None),
{
    let i = lemma_eligible_source(requests, depths, 0);
    assert forall|j: int| 0 <= j < requests.len() && j != i implies #[trigger] depths[j] == Ok::<
        Option<usize>,
        ApiError,
    >(None) by {
        if in_tree(depths, j) {
            lemma_eligible_count(requests, depths, i, j);
        }
        if depths[j] is Err {
            assert(unresolved(depths));
        }
    }
    i
}

fn failure_details(requests: Vec<Listed>) -> (r: String)
    ensures
        r@ == joined(failure_lines(requests@), "; "@),
{
    let mut lines: Vec<String> = Vec::new();
    let mut i: usize = 0;
    while i < requests.len()
        invariant
            i <= requests.len(),
            views(lines@) == failure_lines(requests@).take(i as int),
        decreases requests.len() - i,
    {
        let request = &requests[i];
        let mut line = cat5(
            "request '",
            request.id.as_str(),
            "' owned by session '",
            request.owner.as_str(),
            "': ",
        );
        match &request.failure {
            Some(text) => {
                line.append(text.as_str());
            },
            None => {
                line.append("");
                proof {
                    reveal_strlit("");
                    assert(""@ == Seq::<char>::empty());
                }
            },
        }
        let ghost earlier_lines = lines@;
        lines.push(line);
        assert(views(lines@) == views(earlier_lines).push(failure_line(requests@[i as int])));
        assert(views(lines@) == failure_lines(requests@).take(i + 1));
        i += 1;
    }
    assert(failure_lines(requests@).take(i as int) == failure_lines(requests@));
    join(&lines, "; ")
}

fn id_list(requests: Vec<Listed>) -> (r: String)
    ensures
        r@ == joined(listed_ids(requests@), ", "@),
{
    let mut ids: Vec<String> = Vec::new();
    let mut i: usize = 0;
    while i < requests.len()
        invariant
            i <= requests.len(),
            views(ids@) == listed_ids(requests@).take(i as int),
        decreases requests.len() - i,
    {
        let ghost earlier_ids = ids@;
        ids.push(requests[i].id.clone());
        assert(views(ids@) == views(earlier_ids).push(requests@[i as int].id@));
        assert(views(ids@) == listed_ids(requests@).take(i + 1));
        i += 1;
    }
    assert(listed_ids(requests@).take(i as int) == listed_ids(requests@));
    join(&ids, ", ")
}

// ---------------------------------------------------------------------------
// When a choice is owed, and when it is refused
// ---------------------------------------------------------------------------
/// What the order of listings goes by: depth first, then the owner's id, then the request's id.
pub proof fn law_listings_go_by(a: Listed, b: Listed)
    ensures
        a.depth < b.depth ==> earlier(a, b) && !earlier(b, a),
        a.depth == b.depth && before(a.owner@, b.owner@) ==> earlier(a, b) && !earlier(b, a),
        a.depth == b.depth && a.owner@ == b.owner@ && before(a.id@, b.id@) ==> earlier(a, b)
            && !earlier(b, a),
{
    lemma_before_irreflexive(a.owner@);
    lemma_before_irreflexive(a.id@);
    if before(a.owner@, b.owner@) && before(b.owner@, a.owner@) {
        lemma_before_transitive(a.owner@, b.owner@, a.owner@);
    }
    if before(a.id@, b.id@) && before(b.id@, a.id@) {
        lemma_before_transitive(a.id@, b.id@, a.id@);
    }
}

/// A name narrows the pending requests to the first one with that id, and there is nothing to choose from
/// exactly if none has it; without a name all pending requests come into question.
pub proof fn law_candidates_are_those_asked_for(
    pending: Seq<CallerResponseBlockerPayload>,
    wanted: String,
)
    ensures
        candidates(pending, None) == Some(pending),
        candidates(pending, Some(wanted)) is None <==> forall|i: int|
            0 <= i < pending.len() ==> (#[trigger] pending[i]).request_id()@ != wanted@,
        candidates(pending, Some(wanted)) matches Some(requests) ==> requests.len() == 1
            && requests[0].request_id()@ == wanted@ && pending.contains(requests[0]),
{
    lemma_position(pending, wanted@, 0);
}

/// A named request is chosen exactly if its owner was placed in the tree; else the choice fails, for a
/// foreign owner as a fault of the input, for an owner that could not be placed as a fault of the server.
pub proof fn law_named_choice_is_owed(
    kind: CallerResponseBlockerKind,
    root: Seq<char>,
    wanted: String,
    request: CallerResponseBlockerPayload,
    depth: OwnerDepth,
    step: SelectionStep,
)
    requires
        decides(kind, root, Some(wanted), seq![request], seq![depth], step),
    ensures
        depth is Ok && depth->Ok_0 is Some <==> step is Chosen,
        step matches SelectionStep::Chosen(chosen) ==> chosen == request,
        depth is Ok && depth->Ok_0 is None ==> step is Failed && step->Failed_0 is InvalidInput,
        depth is Err ==> step is Failed && step->Failed_0 is Internal,
{
}

proof fn lemma_eligible_of_one(
    pending: Seq<CallerResponseBlockerPayload>,
    depths: Seq<OwnerDepth>,
    i: int,
)
    requires
        0 <= i < pending.len(),
        in_tree(depths, i),
        forall|j: int| 0 <= j < pending.len() && j != i ==> !#[trigger] in_tree(depths, j),
    ensures
        eligible(pending, depths) == seq![pending[i]],
        eligible_listing(pending, depths).len() == 1,
        eligible_listing(pending, depths)[0].depth == depths[i]->Ok_0->Some_0,
    decreases pending.len(),
{
    let rest = pending.drop_last();
    let last = pending.len() - 1;
    if i < last {
        assert(!in_tree(depths, last));
        lemma_eligible_of_one(rest, depths, i);
    } else {
        lemma_eligible_of_none(rest, depths);
        lemma_listing_length(rest, depths);
        assert(eligible(pending, depths) =~= seq![pending[i]]);
    }
}

proof fn lemma_eligible_of_none(
    pending: Seq<CallerResponseBlockerPayload>,
    depths: Seq<OwnerDepth>,
)
    requires
        forall|j: int| 0 <= j < pending.len() ==> !#[trigger] in_tree(depths, j),
    ensures
        eligible(pending, depths).len() == 0,
    decreases pending.len(),
{
    if pending.len() > 0 {
        assert(!in_tree(depths, pending.len() - 1));
        lemma_eligible_of_none(pending.drop_last(), depths);
    }
}

/// Without a name the only request in the tree is chosen if it is of the root session, once all owners are
/// placed; one of a session below is refused.
pub proof fn law_discovered_choice_is_owed(
    kind: CallerResponseBlockerKind,
    root: Seq<char>,
    requests: Seq<CallerResponseBlockerPayload>,
    depths: Seq<OwnerDepth>,
    i: int,
    step: SelectionStep,
)
    requires
        decides(kind, root, None, requests, depths, step),
        depths.len() == requests.len(),
        0 <= i < requests.len(),
        in_tree(depths, i),
        forall|j: int|
            0 <= j < requests.len() && j != i ==> #[trigger] depths[j] == Ok::<
                Option<usize>,
                ApiError,
            >(None),
    ensures
        depths[i]->Ok_0->Some_0 == 0 ==> step == SelectionStep::Chosen(requests[i]),
        depths[i]->Ok_0->Some_0 > 0 ==> step is Failed && step->Failed_0 is InvalidInput,
{
    assert forall|j: int| 0 <= j < requests.len() && j != i implies !#[trigger] in_tree(
        depths,
        j,
    ) by {
        assert(depths[j] == Ok::<Option<usize>, ApiError>(None));
    }
    lemma_eligible_of_one(requests, depths, i);
    assert(!unresolved(depths)) by {
        if unresolved(depths) {
            let j = choose|j: int| 0 <= j < depths.len() && #[trigger] depths[j] is Err;
            if j != i {
                assert(depths[j] == Ok::<Option<usize>, ApiError>(None));
            }
        }
    }
}

/// Without a name nothing is chosen if some owner could not be placed, if nothing is in the tree, or if two
/// requests are.
pub proof fn law_discovery_is_refused(
    kind: CallerResponseBlockerKind,
    root: Seq<char>,
    requests: Seq<CallerResponseBlockerPayload>,
    depths: Seq<OwnerDepth>,
    i: int,
    j: int,
    step: SelectionStep,
)
    requires
        decides(kind, root, None, requests, depths, step),
        depths.len() == requests.len(),
    ensures
        0 <= i < depths.len() && depths[i] is Err ==> step is Failed && step->Failed_0 is Internal,
        (forall|k: int|
            0 <= k < depths.len() ==> #[trigger] depths[k] == Ok::<Option<usize>, ApiError>(None))
            ==> step is Failed && step->Failed_0 is InvalidInput,
        0 <= i < j < depths.len() && in_tree(depths, i) && in_tree(depths, j) ==> step is Failed,
{
    if 0 <= i < depths.len() && depths[i] is Err {
        assert(unresolved(depths));
    }
    if forall|k: int|
        0 <= k < depths.len() ==> #[trigger] depths[k] == Ok::<Option<usize>, ApiError>(None) {
        assert forall|k: int| 0 <= k < requests.len() implies !#[trigger] in_tree(depths, k) by {
            assert(depths[k] == Ok::<Option<usize>, ApiError>(None));
        }
        lemma_eligible_of_none(requests, depths);
    }
    if 0 <= i < j < depths.len() && in_tree(depths, i) && in_tree(depths, j) {
        lemma_eligible_count(requests, depths, i, j);
    }
}

/// The refusal of several requests lists every one of them by its id, and nothing else.
pub proof fn law_several_requests_are_all_listed(
    requests: Seq<CallerResponseBlockerPayload>,
    depths: Seq<OwnerDepth>,
    i: int,
) -> (k: int)
    requires
        0 <= i < requests.len(),
        in_tree(depths, i),
    ensures
        0 <= k < listed_ids(in_order(eligible_listing(requests, depths))).len(),
        listed_ids(in_order(eligible_listing(requests, depths)))[k] == requests[i].request_id()@,
        in_order(eligible_listing(requests, depths)).len() == eligible(requests, depths).len(),
{
    let listing = eligible_listing(requests, depths);
    let n = lemma_eligible_listed(requests, depths, i);
    lemma_listing_length(requests, depths);
    law_in_order(listing);
    lemma_in_order_holds(listing, listing[n])
}

proof fn lemma_eligible_listed(
    pending: Seq<CallerResponseBlockerPayload>,
    depths: Seq<OwnerDepth>,
    i: int,
) -> (n: int)
    requires
        0 <= i < pending.len(),
        in_tree(depths, i),
    ensures
        0 <= n < eligible_listing(pending, depths).len(),
        eligible_listing(pending, depths)[n].id == pending[i].request_id(),
        eligible_listing(pending, depths)[n].owner == pending[i].owner(),
        eligible_listing(pending, depths)[n].depth == depths[i]->Ok_0->Some_0,
    decreases pending.len(),
{
    if i < pending.len() - 1 {
        lemma_eligible_listed(pending.drop_last(), depths, i)
    } else {
        eligible_listing(pending.drop_last(), depths).len() as int
    }
}

proof fn lemma_in_order_holds(requests: Seq<Listed>, x: Listed) -> (k: int)
    requires
        requests.contains(x),
    ensures
        0 <= k < in_order(requests).len(),
        in_order(requests)[k] == x,
        in_order(requests).len() == requests.len(),
{
    broadcast use vstd::seq_lib::group_to_multiset_ensures;

    law_in_order(requests);
    assert(requests.to_multiset().count(x) > 0);
    assert(in_order(requests).to_multiset().count(x) > 0);
    assert(in_order(requests).contains(x));
    assert(in_order(requests).to_multiset().len() == requests.to_multiset().len());
    choose|k: int| 0 <= k < in_order(requests).len() && in_order(requests)[k] == x
}

/// Every request whose owner could not be placed is listed in the error, with its id, its owner and why.
pub proof fn law_unplaced_requests_are_all_listed(
    requests: Seq<CallerResponseBlockerPayload>,
    depths: Seq<OwnerDepth>,
    i: int,
) -> (k: int)
    requires
        0 <= i < requests.len(),
        depths[i] is Err,
    ensures
        0 <= k < failure_lines(in_order(failed_listing(requests, depths))).len(),
        failure_lines(in_order(failed_listing(requests, depths)))[k] == "request '"@
            + requests[i].request_id()@ + "' owned by session '"@ + requests[i].owner()@ + "': "@
            + depths[i]->Err_0.text@,
{
    let listing = failed_listing(requests, depths);
    let n = lemma_failure_listed(requests, depths, i);
    lemma_in_order_holds(listing, listing[n])
}

proof fn lemma_failure_listed(
    pending: Seq<CallerResponseBlockerPayload>,
    depths: Seq<OwnerDepth>,
    i: int,
) -> (n: int)
    requires
        0 <= i < pending.len(),
        depths[i] is Err,
    ensures
        0 <= n < failed_listing(pending, depths).len(),
        failed_listing(pending, depths)[n].id == pending[i].request_id(),
        failed_listing(pending, depths)[n].owner == pending[i].owner(),
        failed_listing(pending, depths)[n].failure == Some(depths[i]->Err_0.text),
    decreases pending.len(),
{
    if i < pending.len() - 1 {
        lemma_failure_listed(pending.drop_last(), depths, i)
    } else {
        failed_listing(pending.drop_last(), depths).len() as int
    }
}

/// A selection that asks for a session keeps what it is about, all requests it chooses from and all sessions it
/// knows, and asks for one that it does not know yet.
pub proof fn law_waiting_selection_keeps_its_requests(
    before: RequestSelection,
    known: Parents,
    requests: Seq<CallerResponseBlockerPayload>,
    depths: Seq<OwnerDepth>,
    after: RequestSelection,
    step: SelectionStep,
)
    requires
        narrows(before, known, requests, depths, after, step),
    ensures
        after.kind == before.kind,
        after.root == before.root,
        after.wanted == before.wanted,
        after.lineage.known() == known,
        step is FetchSession ==> {
            &&& after.stage is Placing
            &&& after.stage->Placing_sweep.pending@ == requests
            &&& after.stage->Placing_fetching == step->FetchSession_0
        },
        step is FetchSession || after.stage is Finished,
{
}

/// Why nothing was chosen is said in full: a request that was named is called by its name, with its owner and the
/// root session if it belongs elsewhere, or with what the server said if its owner could not be
/// placed. Without a name, every request is listed that could not be placed, or that is one of several, and a
/// single request of a session below the root is called by its name.
pub proof fn law_refusals_say_why(
    kind: CallerResponseBlockerKind,
    root: Seq<char>,
    wanted: Option<String>,
    requests: Seq<CallerResponseBlockerPayload>,
    depths: Seq<OwnerDepth>,
    step: SelectionStep,
)
    requires
        decides(kind, root, wanted, requests, depths, step),
        step is Failed,
    ensures
        wanted is Some && depths[0] is Ok ==> step->Failed_0 is InvalidInput
            && step->Failed_0->InvalidInput_0@ == (if kind is Permission {
            "Permission"@
        } else {
            "Question"@
        }) + " request '"@ + wanted->Some_0@ + "' belongs to session '"@ + requests[0].owner()@
            + "', which is not session '"@ + root + "' or an eligible descendant."@,
        wanted is Some && depths[0] is Err ==> step->Failed_0 is Internal
            && step->Failed_0->Internal_0@ == "Failed to verify "@ + (if kind is Permission {
            "permission"@
        } else {
            "question"@
        }) + " request '"@ + wanted->Some_0@ + "' owner ancestry: "@ + depths[0]->Err_0.text@,
        wanted is None && (exists|i: int| 0 <= i < depths.len() && #[trigger] depths[i] is Err)
            ==> step->Failed_0 is Internal && occurs_in(root, step->Failed_0->Internal_0@)
            && occurs_in(
            joined(failure_lines(in_order(failed_listing(requests, depths))), "; "@),
            step->Failed_0->Internal_0@,
        ),
        wanted is None && !(exists|i: int| 0 <= i < depths.len() && #[trigger] depths[i] is Err)
            ==> step->Failed_0 is InvalidInput,
        wanted is None && step->Failed_0 is InvalidInput && eligible(requests, depths).len() == 0
            ==> step->Failed_0->InvalidInput_0@ == "No pending "@ + (if kind is Permission {
            "permission"@
        } else {
            "question"@
        }) + " found for session '"@ + root + "'. The "@ + (if kind is Permission {
            "permission"@
        } else {
            "question"@
        }) + " may have already been responded to."@,
        wanted is None && step->Failed_0 is InvalidInput && eligible(requests, depths).len() == 1
            ==> occurs_in(
            eligible(requests, depths)[0].request_id()@,
            step->Failed_0->InvalidInput_0@,
        ) && occurs_in(eligible(requests, depths)[0].owner()@, step->Failed_0->InvalidInput_0@)
            && occurs_in(root, step->Failed_0->InvalidInput_0@),
        wanted is None && step->Failed_0 is InvalidInput && eligible(requests, depths).len() > 1
            ==> occurs_in(root, step->Failed_0->InvalidInput_0@) && occurs_in(
            joined(listed_ids(in_order(eligible_listing(requests, depths))), ", "@),
            step->Failed_0->InvalidInput_0@,
        ),
{
    let word = noun(kind);
    if wanted is None {
        if unresolved(depths) {
            let front = "Unable to safely discover a pending "@ + word + " for root session '"@;
            let middle = "': request ancestry could not be verified ("@;
            let details = joined(failure_lines(in_order(failed_listing(requests, depths))), "; "@);
            let tail = "). Retry after the OpenCode session endpoint recovers, or provide "@ + word
                + "_request_id returned by run."@;
            lemma_occurs_between(front, root, middle + details + tail);
            lemma_occurs_between(front + root + middle, details, tail);
            assert(step->Failed_0->Internal_0@ =~= front + root + (middle + details + tail));
            assert(step->Failed_0->Internal_0@ =~= front + root + middle + details + tail);
        } else if eligible(requests, depths).len() == 1 {
            lemma_listing_length(requests, depths);
            lemma_sole_listing(requests, depths);
            let id = eligible(requests, depths)[0].request_id()@;
            let owner = eligible(requests, depths)[0].owner()@;
            let front = title(kind) + " request '"@;
            let middle = "' belongs to session '"@;
            let further = "', a descendant of session '"@;
            let tail = "'. Please retry with "@ + word + "_request_id (returned by run)."@;
            lemma_occurs_between(front, id, middle + owner + further + root + tail);
            lemma_occurs_between(front + id + middle, owner, further + root + tail);
            lemma_occurs_between(front + id + middle + owner + further, root, tail);
            let text = step->Failed_0->InvalidInput_0@;
            assert(text =~= front + id + (middle + owner + further + root + tail));
            assert(text =~= front + id + middle + owner + (further + root + tail));
            assert(text =~= front + id + middle + owner + further + root + tail);
        } else if eligible(requests, depths).len() > 1 {
            let front = "Multiple pending "@ + word + "s found for session '"@;
            let listed = joined(listed_ids(in_order(eligible_listing(requests, depths))), ", "@);
            let tail = ". Please retry with "@ + word + "_request_id (returned by run)."@;
            lemma_occurs_between(front, root, "': "@ + listed + tail);
            lemma_occurs_between(front + root + "': "@, listed, tail);
            let text = step->Failed_0->InvalidInput_0@;
            assert(text =~= front + root + ("': "@ + listed + tail));
            assert(text =~= front + root + "': "@ + listed + tail);
        }
    }
}

proof fn lemma_sole_listing(
    pending: Seq<CallerResponseBlockerPayload>,
    depths: Seq<OwnerDepth>,
)
    ensures
        eligible(pending, depths).len() == eligible_listing(pending, depths).len(),
        forall|k: int|
            0 <= k < eligible(pending, depths).len() ==> {
                let listed = #[trigger] eligible_listing(pending, depths)[k];
                &&& listed.id == eligible(pending, depths)[k].request_id()
                &&& listed.owner == eligible(pending, depths)[k].owner()
            },
    decreases pending.len(),
{
    if pending.len() > 0 {
        lemma_sole_listing(pending.drop_last(), depths);
    }
}

/// A request that was named and is not pending is refused by its name, with the session.
pub proof fn law_missing_requests_are_named(
    before: RequestSelection,
    pending: Seq<CallerResponseBlockerPayload>,
    after: RequestSelection,
    step: SelectionStep,
)
    requires
        before.wanted is Some,
        forall|i: int|
            0 <= i < pending.len() ==> (#[trigger] pending[i]).request_id()@
                != before.wanted->Some_0@,
        listing_taken(before, pending, after, step),
    ensures
        step is Failed,
        step->Failed_0 is InvalidInput,
        step->Failed_0->InvalidInput_0@ == "No pending "@ + (if before.kind is Permission {
            "permission"@
        } else {
            "question"@
        }) + " found with id '"@ + before.wanted->Some_0@ + "'. (session_id='"@ + before.root@
            + "')"@,
{
    law_candidates_are_those_asked_for(pending, before.wanted->Some_0);
}

} // verus!
