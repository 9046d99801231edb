//! One look at everything that waits for the caller below a root session.
//!
//! A scan lists permissions, finds out which of their owners belong to the root's tree, and only when
//! none does goes on to questions. It never talks to the server itself: each step names what to ask
//! for next, and the answer is handed to the method that expects it.

use crate::api::ApiError;
use crate::api::PermissionRequest;
use crate::api::QuestionRequest;
use crate::api::Session;
use crate::blockers::first_blocker;
use crate::blockers::law_leader_is_first;
use crate::blockers::leader;
use crate::blockers::precedes;
use crate::blockers::BlockerScanResult;
use crate::blockers::CallerResponseBlocker;
use crate::blockers::CallerResponseBlockerKind;
use crate::blockers::CallerResponseBlockerPayload;
use crate::errors::ToolError;
use crate::lineage::depth_of;
use crate::lineage::recorded;
use crate::lineage::standing;
use crate::lineage::LineageAnswer;
use crate::lineage::Parents;
use crate::lineage::SessionLineageResolver;
use crate::lineage::Standing;
use crate::text::cat2;
use crate::text::cat3;
use crate::text::lemma_occurs_between;
use crate::text::occurs_in;
use crate::text::views;
use vstd::pervasive::unreached;
use vstd::prelude::*;

verus! {

/// What a failed permission listing means before work starts.
#[derive(Clone, Copy, Debug, PartialEq, Eq, Structural)]
pub enum PermissionPreflightMode {
    /// An ordinary run.
    Strict,
    /// The run that continues after a permission was answered.
    RespondPermissionContinuation,
}

/// Why a scan is made.
#[derive(Clone, Copy, Debug, PartialEq, Eq, Structural)]
pub enum BlockerDetectionSource {
    /// Before work starts.
    Preflight(PermissionPreflightMode),
    /// While work goes on: failures make the scan inconclusive.
    Fallback,
}

/// The depth of a request's owner below the root, none outside its tree, or why it is not known.
pub type OwnerDepth = Result<Option<usize>, ApiError>;

impl CallerResponseBlockerPayload {
    /// What the request asks for.
    pub open spec fn asks(&self) -> CallerResponseBlockerKind {
        match self {
            CallerResponseBlockerPayload::Permission(_) => CallerResponseBlockerKind::Permission,
            CallerResponseBlockerPayload::Question(_) => CallerResponseBlockerKind::Question,
        }
    }

    /// The session that owns the request.
    pub open spec fn owner(&self) -> String {
        match self {
            CallerResponseBlockerPayload::Permission(request) => request.session_id,
            CallerResponseBlockerPayload::Question(request) => request.session_id,
        }
    }

    /// The id of the request.
    pub open spec fn request_id(&self) -> String {
        match self {
            CallerResponseBlockerPayload::Permission(request) => request.id,
            CallerResponseBlockerPayload::Question(request) => request.id,
        }
    }

    /// The session that owns the request.
    pub fn owner_session_id(&self) -> (r: &String)
        ensures
            *r == self.owner(),
    {
        match self {
            CallerResponseBlockerPayload::Permission(request) => &request.session_id,
            CallerResponseBlockerPayload::Question(request) => &request.session_id,
        }
    }

    /// The id of the request.
    pub fn id(&self) -> (r: &String)
        ensures
            *r == self.request_id(),
    {
        match self {
            CallerResponseBlockerPayload::Permission(request) => &request.id,
            CallerResponseBlockerPayload::Question(request) => &request.id,
        }
    }
}

/// A request whose owner is in the root's tree, as a blocker.
pub open spec fn blocker_for(
    root: String,
    request: CallerResponseBlockerPayload,
    depth: usize,
) -> CallerResponseBlocker {
    CallerResponseBlocker {
        root_session_id: root,
        owner_session_id: request.owner(),
        owner_depth: depth,
        request_id: request.request_id(),
        kind: request.asks(),
        payload: request,
    }
}

/// The requests whose owner is in the root's tree, as blockers, in order of listing.
pub open spec fn blockers_of(
    root: String,
    pending: Seq<CallerResponseBlockerPayload>,
    depths: Seq<OwnerDepth>,
) -> Seq<CallerResponseBlocker>
    decreases pending.len(),
{
    if pending.len() == 0 {
        Seq::empty()
    } else {
        let rest = blockers_of(root, pending.drop_last(), depths);
        match depths[pending.len() - 1] {
            Ok(Some(depth)) => rest.push(blocker_for(root, pending.last(), depth)),
            _ => rest,
        }
    }
}

/// Whether the owner of some request could not be placed.
pub open spec fn unresolved(depths: Seq<OwnerDepth>) -> bool {
    exists|i: int| 0 <= i < depths.len() && #[trigger] depths[i] is Err
}

/// The depths found so far, and those that the fetched sessions give for the remaining owners.
pub open spec fn filled(
    known: Parents,
    root: Seq<char>,
    pending: Seq<CallerResponseBlockerPayload>,
    depths: Seq<OwnerDepth>,
) -> Seq<OwnerDepth> {
    Seq::new(
        pending.len(),
        |i: int|
            if i < depths.len() {
                depths[i]
            } else {
                Ok(depth_of(known, root, pending[i].owner()@))
            },
    )
}

/// The first request at or after `from` whose owner cannot be placed yet, and the session to fetch.
pub open spec fn next_unknown(
    known: Parents,
    root: Seq<char>,
    pending: Seq<CallerResponseBlockerPayload>,
    from: int,
) -> Option<(int, Seq<char>)>
    decreases pending.len() - from,
{
    if from < 0 || from >= pending.len() {
        None
    } else {
        match standing(known, root, pending[from].owner()@) {
            Standing::Unknown(id) => Some((from, id)),
            _ => next_unknown(known, root, pending, from + 1),
        }
    }
}

/// Requests whose owners are being placed, one after the other.
pub struct OwnerSweep {
    pub pending: Vec<CallerResponseBlockerPayload>,
    pub depths: Vec<Result<Option<usize>, ApiError>>,
}

/// Only the root session itself was placed at depth zero.
pub open spec fn root_alone_at_zero(
    root: Seq<char>,
    pending: Seq<CallerResponseBlockerPayload>,
    depths: Seq<OwnerDepth>,
) -> bool {
    forall|i: int|
        0 <= i < depths.len() && #[trigger] depths[i] == Ok::<Option<usize>, ApiError>(Some(0))
            ==> pending[i].owner()@ == root
}

/// Where a sweep stands once every owner is placed that the fetched sessions can place.
pub open spec fn advanced(
    known: Parents,
    root: Seq<char>,
    before: OwnerSweep,
    after: OwnerSweep,
    next: Option<String>,
) -> bool {
    let all = filled(known, root, before.pending@, before.depths@);
    &&& after.pending == before.pending
    &&& match next_unknown(known, root, before.pending@, before.depths@.len() as int) {
        Some((i, id)) => {
            &&& after.depths@ == all.take(i)
            &&& next is Some
            &&& next->Some_0@ == id
        },
        None => after.depths@ == all && next is None,
    }
}

/// The depths once a session that was asked for has come or has failed to come: a session that does
/// not exist puts the owner outside the tree, and any other failure leaves it unplaced.
pub open spec fn depths_after(
    depths: Seq<OwnerDepth>,
    reply: Result<Session, ApiError>,
) -> Seq<OwnerDepth> {
    match reply {
        Ok(_) => depths,
        Err(error) => if error.not_found() {
            depths.push(Ok(None))
        } else {
            depths.push(Err(error))
        },
    }
}

/// The fetched sessions once a session that was asked for has come or has failed to come.
pub open spec fn known_after(
    known: Parents,
    fetched: Seq<char>,
    reply: Result<Session, ApiError>,
) -> Parents {
    match reply {
        Ok(session) => recorded(known, fetched, crate::api::optional_view(session.parent_id)),
        Err(_) => known,
    }
}

proof fn lemma_next_unknown_bound(
    known: Parents,
    root: Seq<char>,
    pending: Seq<CallerResponseBlockerPayload>,
    from: int,
)
    requires
        0 <= from,
    ensures
        match next_unknown(known, root, pending, from) {
            Some((i, _)) => from <= i < pending.len(),
            None => true,
        },
    decreases pending.len() - from,
{
    if from < pending.len() {
        lemma_next_unknown_bound(known, root, pending, from + 1);
    }
}

impl OwnerSweep {
    /// Start with no owner placed.
    pub fn new(pending: Vec<CallerResponseBlockerPayload>) -> (r: Self)
        ensures
            r.pending == pending,
            r.depths@ == Seq::<OwnerDepth>::empty(),
    {
        OwnerSweep { pending, depths: Vec::new() }
    }

    /// Place owners until one needs a session that has to be fetched; none when all are placed.
    pub fn advance(&mut self, root: &String, lineage: &mut SessionLineageResolver) -> (next: Option<
        String,
    >)
        requires
            old(lineage).consistent_with(root@),
            old(self).depths@.len() <= old(self).pending@.len(),
        ensures
            final(lineage).consistent_with(root@),
            final(lineage).known() == old(lineage).known(),
            final(self).depths@.len() <= final(self).pending@.len(),
            next is Some ==> final(self).depths@.len() < final(self).pending@.len(),
            advanced(old(lineage).known(), root@, *old(self), *final(self), next),
            root_alone_at_zero(root@, old(self).pending@, old(self).depths@) ==> root_alone_at_zero(
                root@,
                final(self).pending@,
                final(self).depths@,
            ),
    {
        let ghost known = lineage.known();
        let ghost pending = self.pending@;
        let ghost all = filled(known, root@, pending, self.depths@);
        proof {
            lemma_next_unknown_bound(known, root@, pending, self.depths@.len() as int);
            assert(self.depths@ == all.take(self.depths@.len() as int));
        }
        while self.depths.len() < self.pending.len()
            invariant
                lineage.consistent_with(root@),
                lineage.known() == known,
                known == old(lineage).known(),
                self.pending == old(self).pending,
                pending == self.pending@,
                all == filled(known, root@, pending, old(self).depths@),
                old(self).depths@.len() <= self.depths@.len() <= pending.len(),
                self.depths@ == all.take(self.depths@.len() as int),
                next_unknown(known, root@, pending, old(self).depths@.len() as int)
                    == next_unknown(known, root@, pending, self.depths@.len() as int),
                root_alone_at_zero(root@, pending, old(self).depths@) ==> root_alone_at_zero(
                    root@,
                    pending,
                    self.depths@,
                ),
            decreases pending.len() - self.depths@.len(),
        {
            let at: usize = self.depths.len();
            let owner = self.pending[at].owner_session_id();
            match lineage.eligible_owner_depth(root.as_str(), owner.as_str()) {
                LineageAnswer::Known(depth) => {
                    self.depths.push(Ok(depth));
                    assert(all[at as int] == Ok::<Option<usize>, ApiError>(depth));
                    assert(all.take(at + 1) == all.take(at as int).push(all[at as int]));
                },
                LineageAnswer::Fetch(id) => {
                    return Some(id);
                },
            }
        }
        assert(all.take(all.len() as int) == all);
        None
    }

    /// Take account of a session that was asked for, and go on placing owners.
    pub fn settle(
        &mut self,
        root: &String,
        lineage: &mut SessionLineageResolver,
        fetched: &String,
        reply: Result<Session, ApiError>,
    ) -> (next: Option<String>)
        requires
            old(lineage).consistent_with(root@),
            old(self).depths@.len() < old(self).pending@.len(),
        ensures
            final(lineage).consistent_with(root@),
            final(lineage).known() == known_after(old(lineage).known(), fetched@, reply),
            final(self).depths@.len() <= final(self).pending@.len(),
            next is Some ==> final(self).depths@.len() < final(self).pending@.len(),
            root_alone_at_zero(root@, old(self).pending@, old(self).depths@) ==> root_alone_at_zero(
                root@,
                final(self).pending@,
                final(self).depths@,
            ),
            exists|told: OwnerSweep|
                told.pending == old(self).pending && told.depths@ == depths_after(
                    old(self).depths@,
                    reply,
                ) && #[trigger] advanced(
                    final(lineage).known(),
                    root@,
                    told,
                    *final(self),
                    next,
                ),
    {
        match reply {
            Ok(session) => {
                lineage.record_session(fetched.as_str(), session.parent_id);
            },
            Err(error) => {
                if error.is_not_found() {
                    self.depths.push(Ok(None));
                } else {
                    self.depths.push(Err(error));
                }
            },
        }
        let ghost told = *self;
        let next = self.advance(root, lineage);
        assert(advanced(lineage.known(), root@, told, *self, next));
        next
    }
}

// ---------------------------------------------------------------------------
// The scan
// ---------------------------------------------------------------------------
/// How far a scan has come.
pub enum ScanStage {
    /// Waiting for the list of permissions.
    ListingPermissions,
    /// Waiting for a session that places the owner of a request.
    Placing { asks: CallerResponseBlockerKind, sweep: OwnerSweep, fetching: String },
    /// Waiting for the list of questions.
    ListingQuestions,
    /// Over.
    Finished,
}

/// A scan on its way.
pub struct BlockerScan {
    pub source: BlockerDetectionSource,
    pub inconclusive: bool,
    pub stage: ScanStage,
}

/// What a scan needs next, or its outcome.
pub enum ScanStep {
    ListPermissions,
    ListQuestions,
    FetchSession(String),
    Finished(Result<BlockerScanResult, ToolError>),
}

/// The warnings that a failed permission listing leaves behind.
pub open spec fn listing_warnings(source: BlockerDetectionSource, error: ApiError) -> Seq<Seq<char>> {
    match source {
        BlockerDetectionSource::Preflight(
            PermissionPreflightMode::RespondPermissionContinuation,
        ) => seq![
            "Permission refresh failed after reply ("@ + error.text@
                + "); permission state could not be listed and may be stale or malformed. Continuing with polling fallback."@,
        ],
        BlockerDetectionSource::Preflight(
            PermissionPreflightMode::Strict,
        ) => seq![
            "Permission state could not be listed during preflight (HTTP 400). Permission state may be stale or malformed; pending permissions may be stale or undiscoverable."@,
        ],
        BlockerDetectionSource::Fallback => seq![],
    }
}

/// Whether a scan goes on although permissions could not be listed.
pub open spec fn tolerates_listing(source: BlockerDetectionSource, error: ApiError) -> bool {
    source is Fallback || error.validation_error()
}

/// A listed permission as a pending request.
pub open spec fn permission_payloads(
    permissions: Seq<PermissionRequest>,
) -> Seq<CallerResponseBlockerPayload> {
    Seq::new(permissions.len(), |i: int| CallerResponseBlockerPayload::Permission(permissions[i]))
}

/// A listed question as a pending request.
pub open spec fn question_payloads(
    questions: Seq<QuestionRequest>,
) -> Seq<CallerResponseBlockerPayload> {
    Seq::new(questions.len(), |i: int| CallerResponseBlockerPayload::Question(questions[i]))
}

/// What becomes of a scan with this much placed: it asks for the next session; or, once all owners are
/// placed, it finds the leader of the requests in the tree, goes on from permissions to questions, or
/// ends without a find, inconclusive if something could not be seen.
pub open spec fn sifted(
    known: Parents,
    root: String,
    asks: CallerResponseBlockerKind,
    pending: Seq<CallerResponseBlockerPayload>,
    depths: Seq<OwnerDepth>,
    inconclusive: bool,
    after: BlockerScan,
    step: ScanStep,
) -> bool {
    let all = filled(known, root@, pending, depths);
    match next_unknown(known, root@, pending, depths.len() as int) {
        Some((i, id)) => {
            &&& after.inconclusive == inconclusive
            &&& after.stage matches ScanStage::Placing { asks: a, sweep, fetching }
            &&& a == asks
            &&& sweep.pending@ == pending
            &&& sweep.depths@ == all.take(i)
            &&& fetching@ == id
            &&& step == ScanStep::FetchSession(fetching)
        },
        None => {
            &&& after.inconclusive == (inconclusive || unresolved(all))
            &&& match leader(blockers_of(root, pending, all)) {
                Some(blocker) => {
                    &&& after.stage is Finished
                    &&& step == ScanStep::Finished(Ok(BlockerScanResult::Found(Box::new(blocker))))
                },
                None => if asks == CallerResponseBlockerKind::Permission {
                    after.stage is ListingQuestions && step is ListQuestions
                } else {
                    &&& after.stage is Finished
                    &&& step == ScanStep::Finished(
                        Ok(
                            if after.inconclusive {
                                BlockerScanResult::Inconclusive
                            } else {
                                BlockerScanResult::Clear
                            },
                        ),
                    )
                },
            }
        },
    }
}

/// What a scan does with the list of permissions. If it could not be had, a scan before work starts
/// goes on only where the server could not make sense of its own state, with a warning; a scan while
/// work goes on always does. Either way it is inconclusive from then on.
pub open spec fn permissions_taken(
    scan: BlockerScan,
    root: String,
    known: Parents,
    warnings: Seq<String>,
    reply: Result<Vec<PermissionRequest>, ApiError>,
    after: BlockerScan,
    warnings_after: Seq<String>,
    step: ScanStep,
) -> bool {
    &&& after.source == scan.source
    &&& match reply {
        Ok(permissions) => {
            &&& warnings_after == warnings
            &&& sifted(
                known,
                root,
                CallerResponseBlockerKind::Permission,
                permission_payloads(permissions@),
                Seq::empty(),
                scan.inconclusive,
                after,
                step,
            )
        },
        Err(error) => if tolerates_listing(scan.source, error) {
            &&& warned(warnings, warnings_after, listing_warnings(scan.source, error))
            &&& after.inconclusive
            &&& after.stage is ListingQuestions
            &&& step is ListQuestions
        } else {
            &&& warnings_after == warnings
            &&& after.inconclusive == scan.inconclusive
            &&& after.stage is Finished
            &&& step matches ScanStep::Finished(Err(e))
            &&& e.is_internal("Failed to list permissions: "@ + error.text@)
        },
    }
}

/// What a scan does with the list of questions. If it could not be had, a scan while work goes on ends
/// inconclusive, and a scan before work starts fails.
pub open spec fn questions_taken(
    scan: BlockerScan,
    root: String,
    known: Parents,
    reply: Result<Vec<QuestionRequest>, ApiError>,
    after: BlockerScan,
    step: ScanStep,
) -> bool {
    &&& after.source == scan.source
    &&& match reply {
        Ok(questions) => sifted(
            known,
            root,
            CallerResponseBlockerKind::Question,
            question_payloads(questions@),
            Seq::empty(),
            scan.inconclusive,
            after,
            step,
        ),
        Err(error) => if scan.source is Fallback {
            &&& after.inconclusive
            &&& after.stage is Finished
            &&& step == ScanStep::Finished(Ok(BlockerScanResult::Inconclusive))
        } else {
            &&& after.inconclusive == scan.inconclusive
            &&& after.stage is Finished
            &&& step matches ScanStep::Finished(Err(e))
            &&& e.is_internal("Failed to list questions: "@ + error.text@)
        },
    }
}

/// What a scan does with a session that it asked for.
pub open spec fn session_taken(
    scan: BlockerScan,
    root: String,
    known: Parents,
    known_now: Parents,
    reply: Result<Session, ApiError>,
    after: BlockerScan,
    step: ScanStep,
) -> bool {
    &&& after.source == scan.source
    &&& known_now == known_after(known, scan.stage->fetching@, reply)
    &&& sifted(
        known_now,
        root,
        scan.stage->asks,
        scan.stage->sweep.pending@,
        depths_after(scan.stage->sweep.depths@, reply),
        scan.inconclusive,
        after,
        step,
    )
}

impl BlockerScan {
    /// A scan that waits for a session has not placed all owners.
    pub open spec fn wf(&self) -> bool {
        self.stage matches ScanStage::Placing { sweep, .. } ==> sweep.depths@.len()
            < sweep.pending@.len()
    }

    /// Start a scan; it asks for the list of permissions first.
    pub fn begin(source: BlockerDetectionSource) -> (r: (Self, ScanStep))
        ensures
            r.0.wf(),
            r.0 == (BlockerScan {
                source,
                inconclusive: false,
                stage: ScanStage::ListingPermissions,
            }),
            r.1 is ListPermissions,
    {
        (
            BlockerScan { source, inconclusive: false, stage: ScanStage::ListingPermissions },
            ScanStep::ListPermissions,
        )
    }

    /// Take the list of permissions.
    pub fn on_permissions(
        &mut self,
        root: &String,
        lineage: &mut SessionLineageResolver,
        warnings: &mut Vec<String>,
        reply: Result<Vec<PermissionRequest>, ApiError>,
    ) -> (step: ScanStep)
        requires
            old(self).stage is ListingPermissions,
            old(lineage).consistent_with(root@),
        ensures
            final(self).wf(),
            final(lineage).consistent_with(root@),
            final(lineage).known() == old(lineage).known(),
            permissions_taken(
                *old(self),
                *root,
                old(lineage).known(),
                old(warnings)@,
                reply,
                *final(self),
                final(warnings)@,
                step,
            ),
    {
        self.stage = ScanStage::Finished;
        match reply {
            Ok(permissions) => {
                let mut pending: Vec<CallerResponseBlockerPayload> = Vec::new();
                for permission in it: permissions
                    invariant
                        it.seq() == permissions@,
                        pending@ == permission_payloads(permissions@).take(it.index() as int),
                {
                    pending.push(CallerResponseBlockerPayload::Permission(permission));
                    assert(pending@ == permission_payloads(permissions@).take(it.index() + 1));
                }
                assert(pending@ == permission_payloads(permissions@));
                let mut sweep = OwnerSweep::new(pending);
                let next = sweep.advance(root, lineage);
                self.sift(root, CallerResponseBlockerKind::Permission, sweep, next)
            },
            Err(error) => {
                match self.source {
                    BlockerDetectionSource::Preflight(mode) => {
                        if !error.is_validation_error() {
                            return ScanStep::Finished(
                                Err(
                                    ToolError::Internal(
                                        cat2("Failed to list permissions: ", error.text.as_str()),
                                    ),
                                ),
                            );
                        }
                        match mode {
                            PermissionPreflightMode::RespondPermissionContinuation => {
                                warnings.push(
                                    cat3(
                                        "Permission refresh failed after reply (",
                                        error.text.as_str(),
                                        "); permission state could not be listed and may be stale or malformed. Continuing with polling fallback.",
                                    ),
                                );
                            },
                            PermissionPreflightMode::Strict => {
                                warnings.push(
                                    "Permission state could not be listed during preflight (HTTP 400). Permission state may be stale or malformed; pending permissions may be stale or undiscoverable.".to_string(),
                                );
                            },
                        }
                    },
                    BlockerDetectionSource::Fallback => {},
                }
                self.inconclusive = true;
                self.stage = ScanStage::ListingQuestions;
                ScanStep::ListQuestions
            },
        }
    }

    /// Take the list of questions.
    pub fn on_questions(
        &mut self,
        root: &String,
        lineage: &mut SessionLineageResolver,
        reply: Result<Vec<QuestionRequest>, ApiError>,
    ) -> (step: ScanStep)
        requires
            old(self).stage is ListingQuestions,
            old(lineage).consistent_with(root@),
        ensures
            final(self).wf(),
            final(lineage).consistent_with(root@),
            final(lineage).known() == old(lineage).known(),
            questions_taken(*old(self), *root, old(lineage).known(), reply, *final(self), step),
    {
        self.stage = ScanStage::Finished;
        match reply {
            Ok(questions) => {
                let mut pending: Vec<CallerResponseBlockerPayload> = Vec::new();
                for question in it: questions
                    invariant
                        it.seq() == questions@,
                        pending@ == question_payloads(questions@).take(it.index() as int),
                {
                    pending.push(CallerResponseBlockerPayload::Question(question));
                    assert(pending@ == question_payloads(questions@).take(it.index() + 1));
                }
                assert(pending@ == question_payloads(questions@));
                let mut sweep = OwnerSweep::new(pending);
                let next = sweep.advance(root, lineage);
                self.sift(root, CallerResponseBlockerKind::Question, sweep, next)
            },
            Err(error) => {
                match self.source {
                    BlockerDetectionSource::Preflight(_) => {
                        ScanStep::Finished(
                            Err(
                                ToolError::Internal(
                                    cat2("Failed to list questions: ", error.text.as_str()),
                                ),
                            ),
                        )
                    },
                    BlockerDetectionSource::Fallback => {
                        self.inconclusive = true;
                        ScanStep::Finished(Ok(BlockerScanResult::Inconclusive))
                    },
                }
            },
        }
    }

    /// Take a session that was asked for.
    pub fn on_session(
        &mut self,
        root: &String,
        lineage: &mut SessionLineageResolver,
        reply: Result<Session, ApiError>,
    ) -> (step: ScanStep)
        requires
            old(self).wf(),
            old(self).stage is Placing,
            old(lineage).consistent_with(root@),
        ensures
            final(self).wf(),
            final(lineage).consistent_with(root@),
            session_taken(
                *old(self),
                *root,
                old(lineage).known(),
                final(lineage).known(),
                reply,
                *final(self),
                step,
            ),
    {
        let mut stage = ScanStage::Finished;
        core::mem::swap(&mut self.stage, &mut stage);
        match stage {
            ScanStage::Placing { asks, sweep, fetching } => {
                let mut sweep = sweep;
                let next = sweep.settle(root, lineage, &fetching, reply);
                self.sift(root, asks, sweep, next)
            },
            _ => unreached(),
        }
    }

    /// Decide how to go on from a sweep that was advanced.
    fn sift(
        &mut self,
        root: &String,
        asks: CallerResponseBlockerKind,
        sweep: OwnerSweep,
        next: Option<String>,
    ) -> (step: ScanStep)
        requires
            sweep.depths@.len() <= sweep.pending@.len(),
            next is Some ==> sweep.depths@.len() < sweep.pending@.len(),
            next is None ==> sweep.depths@.len() == sweep.pending@.len(),
            old(self).stage is Finished,
        ensures
            final(self).wf(),
            final(self).source == old(self).source,
            match next {
                Some(id) => {
                    &&& final(self).inconclusive == old(self).inconclusive
                    &&& final(self).stage == (ScanStage::Placing { asks, sweep, fetching: id })
                    &&& step == ScanStep::FetchSession(id)
                },
                None => {
                    &&& final(self).inconclusive == (old(self).inconclusive || unresolved(
                        sweep.depths@,
                    ))
                    &&& match leader(blockers_of(*root, sweep.pending@, sweep.depths@)) {
                        Some(blocker) => {
                            &&& final(self).stage is Finished
                            &&& step == ScanStep::Finished(
                                Ok(BlockerScanResult::Found(Box::new(blocker))),
                            )
                        },
                        None => if asks == CallerResponseBlockerKind::Permission {
                            final(self).stage is ListingQuestions && step is ListQuestions
                        } else {
                            &&& final(self).stage is Finished
                            &&& step == ScanStep::Finished(
                                Ok(
                                    if final(self).inconclusive {
                                        BlockerScanResult::Inconclusive
                                    } else {
                                        BlockerScanResult::Clear
                                    },
                                ),
                            )
                        },
                    }
                },
            },
    {
        if let Some(id) = next {
            let fetching = id.clone();
            self.stage = ScanStage::Placing { asks, sweep, fetching };
            return ScanStep::FetchSession(id);
        }
        let mut blockers: Vec<CallerResponseBlocker> = Vec::new();
        let mut failed = false;
        let OwnerSweep { pending, depths } = sweep;
        let count: usize = depths.len();
        let mut at: usize = 0;
        for request in it: pending
            invariant
                it.seq() == pending@,
                count == depths@.len(),
                at == it.index(),
                depths@.len() == pending@.len(),
                blockers@ == blockers_of(*root, pending@.take(at as int), depths@),
                failed == unresolved(depths@.take(at as int)),
        {
            proof {
                assert(pending@.take(at + 1).drop_last() == pending@.take(at as int));
                assert(pending@.take(at + 1).last() == request);
                assert(depths@.take(at + 1) == depths@.take(at as int).push(depths@[at as int]));
                assert(unresolved(depths@.take(at + 1)) == (unresolved(depths@.take(at as int))
                    || depths@[at as int] is Err)) by {
                    let longer = depths@.take(at + 1);
                    let shorter = depths@.take(at as int);
                    assert(longer[at as int] == depths@[at as int]);
                    if unresolved(shorter) {
                        let i = choose|i: int| 0 <= i < shorter.len() && #[trigger] shorter[i] is Err;
                        assert(longer[i] is Err);
                    }
                    if unresolved(longer) {
                        let i = choose|i: int| 0 <= i < longer.len() && #[trigger] longer[i] is Err;
                        if i < at {
                            assert(shorter[i] is Err);
                        }
                    }
                }
            }
            match &depths[at] {
                Ok(Some(depth)) => {
                    let asked = match &request {
                        CallerResponseBlockerPayload::Permission(_) => {
                            CallerResponseBlockerKind::Permission
                        },
                        CallerResponseBlockerPayload::Question(_) => {
                            CallerResponseBlockerKind::Question
                        },
                    };
                    blockers.push(
                        CallerResponseBlocker {
                            root_session_id: root.clone(),
                            owner_session_id: request.owner_session_id().clone(),
                            owner_depth: *depth,
                            request_id: request.id().clone(),
                            kind: asked,
                            payload: request,
                        },
                    );
                },
                Ok(None) => {},
                Err(_) => {
                    failed = true;
                },
            }
            at += 1;
        }
        proof {
            assert(pending@.take(at as int) == pending@);
            assert(depths@.take(at as int) == depths@);
        }
        if failed {
            self.inconclusive = true;
        }
        match first_blocker(blockers) {
            Some(blocker) => ScanStep::Finished(Ok(BlockerScanResult::Found(Box::new(blocker)))),
            None => {
                if asks == CallerResponseBlockerKind::Permission {
                    self.stage = ScanStage::ListingQuestions;
                    ScanStep::ListQuestions
                } else if self.inconclusive {
                    ScanStep::Finished(Ok(BlockerScanResult::Inconclusive))
                } else {
                    ScanStep::Finished(Ok(BlockerScanResult::Clear))
                }
            },
        }
    }
}

// ---------------------------------------------------------------------------
// What holds of every scan
// ---------------------------------------------------------------------------
proof fn lemma_blocker_source(
    root: String,
    pending: Seq<CallerResponseBlockerPayload>,
    depths: Seq<OwnerDepth>,
    k: int,
) -> (i: int)
    requires
        0 <= k < blockers_of(root, pending, depths).len(),
    ensures
        0 <= i < pending.len(),
        depths[i] is Ok,
        depths[i]->Ok_0 is Some,
        blockers_of(root, pending, depths)[k] == blocker_for(
            root,
            pending[i],
            depths[i]->Ok_0->Some_0,
        ),
    decreases pending.len(),
{
    let rest = blockers_of(root, pending.drop_last(), depths);
    if k < rest.len() {
        lemma_blocker_source(root, pending.drop_last(), depths, k)
    } else {
        pending.len() - 1
    }
}

proof fn lemma_blocker_listed(
    root: String,
    pending: Seq<CallerResponseBlockerPayload>,
    depths: Seq<OwnerDepth>,
    i: int,
) -> (k: int)
    requires
        0 <= i < pending.len(),
        depths[i] is Ok,
        depths[i]->Ok_0 is Some,
    ensures
        0 <= k < blockers_of(root, pending, depths).len(),
        blockers_of(root, pending, depths)[k] == blocker_for(
            root,
            pending[i],
            depths[i]->Ok_0->Some_0,
        ),
    decreases pending.len(),
{
    let rest = blockers_of(root, pending.drop_last(), depths);
    if i < pending.len() - 1 {
        lemma_blocker_listed(root, pending.drop_last(), depths, i)
    } else {
        rest.len() as int
    }
}

/// Whether a request's owner was placed in the root's tree.
pub open spec fn in_tree(depths: Seq<OwnerDepth>, i: int) -> bool {
    depths[i] is Ok && depths[i]->Ok_0 is Some
}

/// What a scan finds is a pending request in the root's tree, and no other request of the same kind in
/// the tree precedes it.
pub proof fn law_scan_finds_the_first_in_the_tree(
    known: Parents,
    root: String,
    asks: CallerResponseBlockerKind,
    pending: Seq<CallerResponseBlockerPayload>,
    depths: Seq<OwnerDepth>,
    inconclusive: bool,
    after: BlockerScan,
    found: Box<CallerResponseBlocker>,
) -> (i: int)
    requires
        sifted(
            known,
            root,
            asks,
            pending,
            depths,
            inconclusive,
            after,
            ScanStep::Finished(Ok(BlockerScanResult::Found(found))),
        ),
    ensures
        ({
            let all = filled(known, root@, pending, depths);
            &&& 0 <= i < pending.len()
            &&& in_tree(all, i)
            &&& *found == blocker_for(root, pending[i], all[i]->Ok_0->Some_0)
            &&& found.root_session_id == root
            &&& forall|j: int|
                0 <= j < pending.len() && #[trigger] in_tree(all, j) ==> !precedes(
                    blocker_for(root, pending[j], all[j]->Ok_0->Some_0),
                    *found,
                )
        }),
{
    let all = filled(known, root@, pending, depths);
    let blockers = blockers_of(root, pending, all);
    let k = law_leader_is_first(blockers);
    let i = lemma_blocker_source(root, pending, all, k);
    assert forall|j: int| 0 <= j < pending.len() && #[trigger] in_tree(all, j) implies !precedes(
        blocker_for(root, pending[j], all[j]->Ok_0->Some_0),
        *found,
    ) by {
        let n = lemma_blocker_listed(root, pending, all, j);
        assert(!precedes(blockers[n], blockers[k]));
    }
    i
}

/// A scan goes on from permissions to questions only if no pending permission is in the root's tree.
pub proof fn law_permissions_come_before_questions(
    known: Parents,
    root: String,
    pending: Seq<CallerResponseBlockerPayload>,
    depths: Seq<OwnerDepth>,
    inconclusive: bool,
    after: BlockerScan,
)
    requires
        sifted(
            known,
            root,
            CallerResponseBlockerKind::Permission,
            pending,
            depths,
            inconclusive,
            after,
            ScanStep::ListQuestions,
        ),
    ensures
        forall|i: int|
            0 <= i < pending.len() ==> !#[trigger] in_tree(
                filled(known, root@, pending, depths),
                i,
            ),
{
    let all = filled(known, root@, pending, depths);
    let blockers = blockers_of(root, pending, all);
    if blockers.len() > 0 {
        let k = law_leader_is_first(blockers);
    }
    assert forall|i: int| 0 <= i < pending.len() implies !#[trigger] in_tree(all, i) by {
        if in_tree(all, i) {
            let k = lemma_blocker_listed(root, pending, all, i);
        }
    }
}

/// A scan that ends clear has seen everything: nothing failed before, and the owners of all questions were
/// placed, outside the root's tree.
pub proof fn law_clear_scan_saw_everything(
    known: Parents,
    root: String,
    pending: Seq<CallerResponseBlockerPayload>,
    depths: Seq<OwnerDepth>,
    inconclusive: bool,
    after: BlockerScan,
)
    requires
        sifted(
            known,
            root,
            CallerResponseBlockerKind::Question,
            pending,
            depths,
            inconclusive,
            after,
            ScanStep::Finished(Ok(BlockerScanResult::Clear)),
        ),
    ensures
        !inconclusive,
        forall|i: int|
            0 <= i < pending.len() ==> #[trigger] filled(known, root@, pending, depths)[i] == Ok::<
                Option<usize>,
                ApiError,
            >(None),
{
    let all = filled(known, root@, pending, depths);
    let blockers = blockers_of(root, pending, all);
    if blockers.len() > 0 {
        let k = law_leader_is_first(blockers);
    }
    assert forall|i: int| 0 <= i < pending.len() implies #[trigger] all[i] == Ok::<
        Option<usize>,
        ApiError,
    >(None) by {
        if all[i] is Ok && all[i]->Ok_0 is Some {
            let k = lemma_blocker_listed(root, pending, all, i);
        }
        assert(!(all[i] is Err)) by {
            if all[i] is Err {
                assert(unresolved(all));
            }
        }
    }
}

/// A scan that goes on although permissions could not be listed is inconclusive from then on.
pub proof fn law_failed_listing_is_noted(
    scan: BlockerScan,
    root: String,
    known: Parents,
    warnings: Seq<String>,
    error: ApiError,
    after: BlockerScan,
    warnings_after: Seq<String>,
    step: ScanStep,
)
    requires
        permissions_taken(
            scan,
            root,
            known,
            warnings,
            Err(error),
            after,
            warnings_after,
            step,
        ),
        !(step is Finished),
    ensures
        after.inconclusive,
        step is ListQuestions,
{
}

/// An inconclusive scan stays inconclusive when the list of questions comes, and does not end clear.
pub proof fn law_inconclusive_scan_stays_so_with_questions(
    scan: BlockerScan,
    root: String,
    known: Parents,
    reply: Result<Vec<QuestionRequest>, ApiError>,
    after: BlockerScan,
    step: ScanStep,
)
    requires
        scan.inconclusive,
        questions_taken(scan, root, known, reply, after, step),
    ensures
        after.inconclusive,
        step != ScanStep::Finished(Ok(BlockerScanResult::Clear)),
{
}

/// An inconclusive scan stays inconclusive when a session comes, and does not end clear.
pub proof fn law_inconclusive_scan_stays_so_with_sessions(
    scan: BlockerScan,
    root: String,
    known: Parents,
    known_now: Parents,
    reply: Result<Session, ApiError>,
    after: BlockerScan,
    step: ScanStep,
)
    requires
        scan.inconclusive,
        session_taken(scan, root, known, known_now, reply, after, step),
    ensures
        after.inconclusive,
        step != ScanStep::Finished(Ok(BlockerScanResult::Clear)),
{
}

/// Whether exactly these warnings were added.
pub open spec fn warned(before: Seq<String>, after: Seq<String>, added: Seq<Seq<char>>) -> bool {
    views(after) =~= views(before) + added
}

// ---------------------------------------------------------------------------
// What the parts of a scan mean
// ---------------------------------------------------------------------------
/// Every listed request is looked at, in order and as it is.
pub proof fn law_listed_requests_are_pending(
    permissions: Seq<PermissionRequest>,
    questions: Seq<QuestionRequest>,
)
    ensures
        permission_payloads(permissions).len() == permissions.len(),
        question_payloads(questions).len() == questions.len(),
        forall|i: int|
            0 <= i < permissions.len() ==> #[trigger] permission_payloads(permissions)[i]
                == CallerResponseBlockerPayload::Permission(permissions[i]),
        forall|i: int|
            0 <= i < questions.len() ==> #[trigger] question_payloads(questions)[i]
                == CallerResponseBlockerPayload::Question(questions[i]),
{
}

/// A request is asked for, owned and named as the server says, and as a blocker it keeps all of that
/// beside the root and its owner's depth.
pub proof fn law_blockers_keep_the_request(
    root: String,
    permission: PermissionRequest,
    question: QuestionRequest,
    depth: usize,
)
    ensures
        ({
            let p = blocker_for(root, CallerResponseBlockerPayload::Permission(permission), depth);
            let q = blocker_for(root, CallerResponseBlockerPayload::Question(question), depth);
            &&& p.root_session_id == root && q.root_session_id == root
            &&& p.owner_depth == depth && q.owner_depth == depth
            &&& p.owner_session_id == permission.session_id
            &&& q.owner_session_id == question.session_id
            &&& p.request_id == permission.id
            &&& q.request_id == question.id
            &&& p.kind is Permission
            &&& q.kind is Question
            &&& p.payload == CallerResponseBlockerPayload::Permission(permission)
            &&& q.payload == CallerResponseBlockerPayload::Question(question)
        }),
{
}

/// What was placed stays placed; every other owner is placed by where it stands.
pub proof fn law_owners_are_placed_by_their_standing(
    known: Parents,
    root: Seq<char>,
    pending: Seq<CallerResponseBlockerPayload>,
    depths: Seq<OwnerDepth>,
    i: int,
)
    requires
        0 <= i < pending.len(),
    ensures
        filled(known, root, pending, depths).len() == pending.len(),
        i < depths.len() ==> filled(known, root, pending, depths)[i] == depths[i],
        i >= depths.len() ==> filled(known, root, pending, depths)[i] is Ok,
        i >= depths.len() && standing(known, root, pending[i].owner()@) is Outside ==> filled(
            known,
            root,
            pending,
            depths,
        )[i] == Ok::<Option<usize>, ApiError>(None),
        i >= depths.len() ==> (standing(known, root, pending[i].owner()@) matches Standing::Below(d)
            ==> filled(known, root, pending, depths)[i] == Ok::<Option<usize>, ApiError>(
            Some(d as usize),
        )),
{
}

/// The next session to fetch is the one that the first owner needs that cannot be placed; there is none
/// exactly if all can be placed.
pub proof fn law_first_unknown_owner_comes_next(
    known: Parents,
    root: Seq<char>,
    pending: Seq<CallerResponseBlockerPayload>,
    from: int,
)
    requires
        0 <= from,
    ensures
        match next_unknown(known, root, pending, from) {
            Some((i, id)) => {
                &&& from <= i < pending.len()
                &&& standing(known, root, pending[i].owner()@) == Standing::Unknown(id)
                &&& forall|j: int|
                    from <= j < i ==> !(standing(known, root, (#[trigger] pending[j]).owner()@) is Unknown)
            },
            None => forall|j: int|
                from <= j < pending.len() ==> !(standing(
                    known,
                    root,
                    (#[trigger] pending[j]).owner()@,
                ) is Unknown),
        },
    decreases pending.len() - from,
{
    if from < pending.len() {
        law_first_unknown_owner_comes_next(known, root, pending, from + 1);
    }
}

/// How a scan goes on once all owners are placed or could not be placed: it finds something exactly if some
/// request is in the tree; else permissions lead on to questions, and questions end it, clear exactly if
/// nothing was missed before or now.
pub proof fn law_scan_ends_by_what_is_in_the_tree(
    known: Parents,
    root: String,
    asks: CallerResponseBlockerKind,
    pending: Seq<CallerResponseBlockerPayload>,
    depths: Seq<OwnerDepth>,
    inconclusive: bool,
    after: BlockerScan,
    step: ScanStep,
)
    requires
        sifted(known, root, asks, pending, depths, inconclusive, after, step),
        next_unknown(known, root@, pending, depths.len() as int) is None,
    ensures
        ({
            let all = filled(known, root@, pending, depths);
            let found = exists|i: int| 0 <= i < pending.len() && #[trigger] in_tree(all, i);
            let missed = inconclusive || exists|i: int|
                0 <= i < pending.len() && #[trigger] all[i] is Err;
            &&& found <==> step is Finished && step->Finished_0 is Ok
                && step->Finished_0->Ok_0 is Found
            &&& !found && asks is Permission ==> step is ListQuestions && after.stage is ListingQuestions
            &&& !found && asks is Question ==> step is Finished && step->Finished_0 is Ok
            &&& !found && asks is Question && missed ==> step->Finished_0->Ok_0 is Inconclusive
            &&& !found && asks is Question && !missed ==> step->Finished_0->Ok_0 is Clear
            &&& after.inconclusive == missed
        }),
{
    let all = filled(known, root@, pending, depths);
    let blockers = blockers_of(root, pending, all);
    if blockers.len() > 0 {
        let k = law_leader_is_first(blockers);
        let i = lemma_blocker_source(root, pending, all, k);
        assert(in_tree(all, i));
    }
    if exists|i: int| 0 <= i < pending.len() && #[trigger] in_tree(all, i) {
        let i = choose|i: int| 0 <= i < pending.len() && #[trigger] in_tree(all, i);
        let k = lemma_blocker_listed(root, pending, all, i);
    }
    if unresolved(all) {
        let i = choose|i: int| 0 <= i < all.len() && #[trigger] all[i] is Err;
        assert(0 <= i < pending.len() && all[i] is Err);
    }
}

/// A scan that waits for a session keeps the requests as they are, what was placed of them, and what it has
/// missed.
pub proof fn law_waiting_scan_keeps_its_requests(
    known: Parents,
    root: String,
    asks: CallerResponseBlockerKind,
    pending: Seq<CallerResponseBlockerPayload>,
    depths: Seq<OwnerDepth>,
    inconclusive: bool,
    after: BlockerScan,
    step: ScanStep,
)
    requires
        sifted(known, root, asks, pending, depths, inconclusive, after, step),
        next_unknown(known, root@, pending, depths.len() as int) is Some,
        depths.len() <= pending.len(),
    ensures
        step is FetchSession,
        after.stage is Placing,
        after.stage->asks == asks,
        after.stage->sweep.pending@ == pending,
        depths.is_prefix_of(after.stage->sweep.depths@),
        after.stage->sweep.depths@.len() < pending.len(),
        standing(known, root@, pending[after.stage->sweep.depths@.len() as int].owner()@)
            == Standing::Unknown(step->FetchSession_0@),
        after.stage->fetching == step->FetchSession_0,
        after.inconclusive == inconclusive,
{
    law_first_unknown_owner_comes_next(known, root@, pending, depths.len() as int);
    let all = filled(known, root@, pending, depths);
    assert(depths =~= all.take(depths.len() as int));
}

/// What a session that was asked for does to the owner that needed it: nothing yet if it came; outside the
/// tree if it does not exist; unplaced, with the error, if it could not be had.
pub proof fn law_fetched_sessions_place_or_fail(
    depths: Seq<OwnerDepth>,
    known: Parents,
    id: Seq<char>,
    session: Session,
    error: ApiError,
)
    ensures
        depths_after(depths, Ok(session)) == depths,
        error.kind == crate::api::ApiErrorKind::Http(404) ==> depths_after(depths, Err(error))
            == depths.push(Ok(None)),
        error.kind != crate::api::ApiErrorKind::Http(404) ==> depths_after(depths, Err(error))
            == depths.push(Err(error)),
        known_after(known, id, Err(error)) == known,
        known_after(known, id, Ok(session)).contains_key(id),
        !known.contains_key(id) ==> known_after(known, id, Ok(session))[id]
            == match session.parent_id {
            Some(parent) => Some(parent@),
            None => None,
        },
{
}

/// When a failed listing of permissions stops a scan, and what it warns of otherwise: while work goes on it
/// never stops one and warns of nothing; before work starts it stops one unless the server could not make
/// sense of its own state, which brings one warning. Failed questions stop a scan before work starts alone.
pub proof fn law_failed_listings_stop_preflights_alone(
    scan: BlockerScan,
    root: String,
    known: Parents,
    warnings: Seq<String>,
    error: ApiError,
    after: BlockerScan,
    warnings_after: Seq<String>,
    step: ScanStep,
    last: BlockerScan,
    last_step: ScanStep,
)
    requires
        permissions_taken(
            scan,
            root,
            known,
            warnings,
            Err(error),
            after,
            warnings_after,
            step,
        ),
        questions_taken(scan, root, known, Err(error), last, last_step),
    ensures
        step is ListQuestions <==> scan.source is Fallback || error.kind
            == crate::api::ApiErrorKind::Http(400),
        step is ListQuestions || (step is Finished && step->Finished_0 is Err),
        step is ListQuestions ==> after.inconclusive,
        step is Finished ==> step->Finished_0->Err_0 is Internal
            && step->Finished_0->Err_0->Internal_0@ == "Failed to list permissions: "@ + error.text@,
        scan.source == BlockerDetectionSource::Preflight(
            PermissionPreflightMode::RespondPermissionContinuation,
        ) && step is ListQuestions ==> occurs_in(error.text@, views(warnings_after).last()),
        scan.source == BlockerDetectionSource::Preflight(PermissionPreflightMode::Strict)
            && step is ListQuestions ==> views(warnings_after).last()
            == "Permission state could not be listed during preflight (HTTP 400). Permission state may be stale or malformed; pending permissions may be stale or undiscoverable."@,
        scan.source is Fallback || step is Finished ==> views(warnings_after) == views(warnings),
        scan.source is Preflight && step is ListQuestions ==> warnings_after.len()
            == warnings.len() + 1 && views(warnings).is_prefix_of(views(warnings_after)),
        after.source == scan.source,
        last_step is Finished,
        last_step->Finished_0 is Err <==> scan.source is Preflight,
        scan.source is Fallback ==> last_step->Finished_0->Ok_0 is Inconclusive,
        scan.source is Preflight ==> last_step->Finished_0->Err_0 is Internal
            && last_step->Finished_0->Err_0->Internal_0@ == "Failed to list questions: "@
            + error.text@,
{
    lemma_occurs_between(
        "Permission refresh failed after reply ("@,
        error.text@,
        "); permission state could not be listed and may be stale or malformed. Continuing with polling fallback."@,
    );
    assert(views(warnings_after).len() == warnings_after.len());
}

/// Added warnings come behind the earlier ones, all of them and nothing else.
pub proof fn law_warnings_are_appended(
    before: Seq<String>,
    after: Seq<String>,
    added: Seq<Seq<char>>,
)
    requires
        warned(before, after, added),
    ensures
        after.len() == before.len() + added.len(),
        forall|i: int| 0 <= i < before.len() ==> (#[trigger] after[i])@ == before[i]@,
        forall|i: int|
            0 <= i < added.len() ==> (#[trigger] after[before.len() + i])@ == added[i],
{
    assert(views(after).len() == after.len());
    assert forall|i: int| 0 <= i < before.len() implies (#[trigger] after[i])@ == before[i]@ by {
        assert(views(after)[i] == views(before)[i]);
    }
    assert forall|i: int| 0 <= i < added.len() implies (#[trigger] after[before.len() + i])@
        == added[i] by {
        assert(views(after)[before.len() + i] == added[i]);
    }
}

} // verus!
