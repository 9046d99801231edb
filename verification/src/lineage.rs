//! Which sessions descend from a monitored root session, and how deep.

use crate::api::optional_view;
use crate::api::ApiError;
use crate::api::Session;
use crate::text::same_text;
use vstd::hash_map::StringHashMap;
use vstd::hash_set::StringHashSet;
use vstd::prelude::*;

verus! {

/// The sessions fetched so far, each with its parent if it has one.
pub type Parents = Map<Seq<char>, Option<Seq<char>>>;

/// The session `k` parent links above `owner`, as far as it is known.
pub open spec fn ancestor(known: Parents, owner: Seq<char>, k: nat) -> Option<Seq<char>>
    decreases k,
{
    if k == 0 {
        Some(owner)
    } else {
        match ancestor(known, owner, (k - 1) as nat) {
            Some(child) => if known.contains_key(child) {
                known[child]
            } else {
                None
            },
            None => None,
        }
    }
}

/// The first `k` parent links above `owner` do not meet the root.
pub open spec fn clear_of_root(
    known: Parents,
    root: Seq<char>,
    owner: Seq<char>,
    k: nat,
) -> bool {
    forall|j: nat| 1 <= j <= k ==> #[trigger] ancestor(known, owner, j) != Some(root)
}

/// The root is met for the first time after `d` parent links.
pub open spec fn reaches(known: Parents, root: Seq<char>, owner: Seq<char>, d: nat) -> bool {
    &&& d >= 1
    &&& ancestor(known, owner, d) == Some(root)
    &&& clear_of_root(known, root, owner, (d - 1) as nat)
}

/// The session `k` links above `owner` is known to have no parent.
pub open spec fn is_top(known: Parents, owner: Seq<char>, k: nat) -> bool {
    &&& ancestor(known, owner, k) is Some
    &&& known.contains_key(ancestor(known, owner, k)->Some_0)
    &&& known[ancestor(known, owner, k)->Some_0] is None
}

/// The session `k` links above `owner` was met before, `i` links above it.
pub open spec fn is_cycle(known: Parents, owner: Seq<char>, i: nat, k: nat) -> bool {
    &&& i < k
    &&& ancestor(known, owner, k) is Some
    &&& ancestor(known, owner, i) == ancestor(known, owner, k)
}

/// After `k` parent links that do not meet the root, the chain ends in a session without a parent
/// or runs in a circle.
pub open spec fn ends_at(known: Parents, root: Seq<char>, owner: Seq<char>, k: nat) -> bool {
    &&& clear_of_root(known, root, owner, k)
    &&& is_top(known, owner, k) || exists|i: nat| is_cycle(known, owner, i, k)
}

/// The chain of parents never meets the root.
pub open spec fn dead_end(known: Parents, root: Seq<char>, owner: Seq<char>) -> bool {
    exists|k: nat| ends_at(known, root, owner, k)
}

/// After `k` parent links that do not meet the root, the chain comes to a session not fetched yet.
pub open spec fn stops_at(
    known: Parents,
    root: Seq<char>,
    owner: Seq<char>,
    id: Seq<char>,
    k: nat,
) -> bool {
    &&& ancestor(known, owner, k) == Some(id)
    &&& clear_of_root(known, root, owner, k)
    &&& !known.contains_key(id)
}

/// The chain of parents cannot be followed before the session `id` is fetched.
pub open spec fn needs(known: Parents, root: Seq<char>, owner: Seq<char>, id: Seq<char>) -> bool {
    exists|k: nat| stops_at(known, root, owner, id, k)
}

/// What the fetched sessions say of an owner.
#[derive(Debug, Clone)]
pub enum LineageAnswer {
    /// The depth below the root, or none for a session outside the root's tree.
    Known(Option<usize>),
    /// The named session has to be fetched first.
    Fetch(String),
}

/// Where a session stands with respect to the root's tree.
pub enum Standing {
    /// This many parent links below the root.
    Below(nat),
    /// Not in the root's tree.
    Outside,
    /// Not known before the named session is fetched.
    Unknown(Seq<char>),
}

/// Where `owner` stands with respect to `root`, as far as the fetched sessions tell.
pub open spec fn standing(known: Parents, root: Seq<char>, owner: Seq<char>) -> Standing {
    if owner == root {
        Standing::Below(0)
    } else if exists|d: nat| reaches(known, root, owner, d) {
        Standing::Below(choose|d: nat| reaches(known, root, owner, d))
    } else if dead_end(known, root, owner) {
        Standing::Outside
    } else {
        Standing::Unknown(choose|id: Seq<char>| needs(known, root, owner, id))
    }
}

/// The depth of a session in the root's tree, none if it is not known to be in it.
pub open spec fn depth_of(known: Parents, root: Seq<char>, owner: Seq<char>) -> Option<usize> {
    match standing(known, root, owner) {
        Standing::Below(d) => Some(d as usize),
        _ => None,
    }
}

/// Whether an answer says where a session stands.
pub open spec fn tells(answer: LineageAnswer, standing: Standing) -> bool {
    match answer {
        LineageAnswer::Known(Some(depth)) => standing == Standing::Below(depth as nat),
        LineageAnswer::Known(None) => standing == Standing::Outside,
        LineageAnswer::Fetch(id) => standing == Standing::Unknown(id@),
    }
}

/// The fetched sessions once one more has been fetched; what is known stays.
pub open spec fn recorded(known: Parents, id: Seq<char>, parent: Option<Seq<char>>) -> Parents {
    if known.contains_key(id) {
        known
    } else {
        known.insert(id, parent)
    }
}

// ---------------------------------------------------------------------------
// Facts about chains of parents
// ---------------------------------------------------------------------------
proof fn lemma_none_above(known: Parents, owner: Seq<char>, k: nat, n: nat)
    requires
        ancestor(known, owner, k) is None,
        k <= n,
    ensures
        ancestor(known, owner, n) is None,
    decreases n,
{
    if k < n {
        lemma_none_above(known, owner, k, (n - 1) as nat);
    }
}

proof fn lemma_cycle_repeats(known: Parents, owner: Seq<char>, i: nat, k: nat, n: nat) -> (m: nat)
    requires
        is_cycle(known, owner, i, k),
    ensures
        m <= k,
        ancestor(known, owner, n) == ancestor(known, owner, m),
        ancestor(known, owner, n) is Some,
    decreases n,
{
    if n <= k {
        if ancestor(known, owner, n) is None {
            lemma_none_above(known, owner, n, k);
        }
        n
    } else {
        let below = lemma_cycle_repeats(known, owner, i, k, (n - 1) as nat);
        if below < k {
            let m = (below + 1) as nat;
            assert(ancestor(known, owner, n) == ancestor(known, owner, m));
            if ancestor(known, owner, m) is None {
                lemma_none_above(known, owner, m, k);
            }
            m
        } else {
            let m = (i + 1) as nat;
            assert(ancestor(known, owner, n) == ancestor(known, owner, m));
            if ancestor(known, owner, m) is None {
                lemma_none_above(known, owner, m, k);
            }
            m
        }
    }
}

proof fn lemma_grows(known: Parents, id: Seq<char>, parent: Option<Seq<char>>, owner: Seq<char>, k: nat)
    ensures
        ancestor(known, owner, k) is Some ==> ancestor(recorded(known, id, parent), owner, k)
            == ancestor(known, owner, k),
    decreases k,
{
    if k > 0 {
        lemma_grows(known, id, parent, owner, (k - 1) as nat);
    }
}

/// Fetching one more session leaves a depth that was already established as it is.
pub proof fn law_depth_is_stable(
    known: Parents,
    root: Seq<char>,
    owner: Seq<char>,
    d: nat,
    id: Seq<char>,
    parent: Option<Seq<char>>,
)
    requires
        reaches(known, root, owner, d),
    ensures
        reaches(recorded(known, id, parent), root, owner, d),
{
    let more = recorded(known, id, parent);
    lemma_grows(known, id, parent, owner, d);
    assert forall|j: nat| 1 <= j <= d - 1 implies #[trigger] ancestor(more, owner, j) != Some(
        root,
    ) by {
        if ancestor(known, owner, j) is None {
            lemma_none_above(known, owner, j, d);
        }
        lemma_grows(known, id, parent, owner, j);
    }
}

/// Fetching one more session leaves an owner that was already ruled out ruled out.
pub proof fn law_dead_end_is_stable(
    known: Parents,
    root: Seq<char>,
    owner: Seq<char>,
    id: Seq<char>,
    parent: Option<Seq<char>>,
)
    requires
        dead_end(known, root, owner),
    ensures
        dead_end(recorded(known, id, parent), root, owner),
{
    let more = recorded(known, id, parent);
    let k = choose|k: nat| ends_at(known, root, owner, k);
    assert forall|j: nat| 1 <= j <= k implies #[trigger] ancestor(more, owner, j) != Some(
        root,
    ) by {
        if ancestor(known, owner, j) is None {
            lemma_none_above(known, owner, j, k);
        }
        lemma_grows(known, id, parent, owner, j);
    }
    lemma_grows(known, id, parent, owner, k);
    if is_top(known, owner, k) {
        assert(is_top(more, owner, k));
    } else {
        let i = choose|i: nat| is_cycle(known, owner, i, k);
        lemma_grows(known, id, parent, owner, i);
        assert(is_cycle(more, owner, i, k));
    }
    assert(ends_at(more, root, owner, k));
}

/// What the chain of parents shows is where the session stands: the root is met after one number of
/// links only, a chain that ends or runs in a circle never meets it, and while a session has to be
/// fetched neither is known.
pub proof fn law_standing(known: Parents, root: Seq<char>, owner: Seq<char>)
    requires
        owner != root,
    ensures
        forall|d: nat| #[trigger]
            reaches(known, root, owner, d) ==> standing(known, root, owner) == Standing::Below(d),
        dead_end(known, root, owner) ==> standing(known, root, owner) == Standing::Outside,
        forall|id: Seq<char>| #[trigger]
            needs(known, root, owner, id) ==> standing(known, root, owner) == Standing::Unknown(id),
{
    if exists|d: nat| reaches(known, root, owner, d) {
        let c = choose|d: nat| reaches(known, root, owner, d);
        assert forall|d: nat| #[trigger] reaches(known, root, owner, d) implies d == c by {
            if c < d {
                assert(ancestor(known, owner, c) == Some(root));
            } else if d < c {
                assert(ancestor(known, owner, d) == Some(root));
            }
        }
        if dead_end(known, root, owner) {
            lemma_reach_or_end(known, root, owner, c);
        }
        assert forall|id: Seq<char>| #[trigger] needs(known, root, owner, id) implies false by {
            lemma_reach_or_need(known, root, owner, c, id);
        }
    } else {
        assert forall|id: Seq<char>| #[trigger] needs(known, root, owner, id) implies standing(
            known,
            root,
            owner,
        ) == Standing::Unknown(id) by {
            let other = choose|id: Seq<char>| needs(known, root, owner, id);
            lemma_one_need(known, root, owner, id, other);
            if dead_end(known, root, owner) {
                lemma_need_or_end(known, root, owner, id);
            }
        }
    }
}

proof fn lemma_reach_or_end(known: Parents, root: Seq<char>, owner: Seq<char>, d: nat)
    requires
        owner != root,
        reaches(known, root, owner, d),
    ensures
        !dead_end(known, root, owner),
{
    if dead_end(known, root, owner) {
        let k = choose|k: nat| ends_at(known, root, owner, k);
        if is_top(known, owner, k) {
            assert(ancestor(known, owner, (k + 1) as nat) is None);
            if k < d {
                lemma_none_above(known, owner, (k + 1) as nat, d);
            }
        } else {
            let i = choose|i: nat| is_cycle(known, owner, i, k);
            let m = lemma_cycle_repeats(known, owner, i, k, d);
            assert(ancestor(known, owner, m) == Some(root));
        }
    }
}

proof fn lemma_reach_or_need(
    known: Parents,
    root: Seq<char>,
    owner: Seq<char>,
    d: nat,
    id: Seq<char>,
)
    requires
        reaches(known, root, owner, d),
    ensures
        !needs(known, root, owner, id),
{
    if needs(known, root, owner, id) {
        let k = choose|k: nat| stops_at(known, root, owner, id, k);
        assert(ancestor(known, owner, (k + 1) as nat) is None);
        if k < d {
            lemma_none_above(known, owner, (k + 1) as nat, d);
        }
    }
}

proof fn lemma_one_need(
    known: Parents,
    root: Seq<char>,
    owner: Seq<char>,
    x: Seq<char>,
    y: Seq<char>,
)
    requires
        needs(known, root, owner, x),
        needs(known, root, owner, y),
    ensures
        x == y,
{
    let k = choose|k: nat| stops_at(known, root, owner, x, k);
    let n = choose|n: nat| stops_at(known, root, owner, y, n);
    assert(ancestor(known, owner, (k + 1) as nat) is None);
    assert(ancestor(known, owner, (n + 1) as nat) is None);
    if k < n {
        lemma_none_above(known, owner, (k + 1) as nat, n);
    } else if n < k {
        lemma_none_above(known, owner, (n + 1) as nat, k);
    }
}

proof fn lemma_need_or_end(known: Parents, root: Seq<char>, owner: Seq<char>, id: Seq<char>)
    requires
        needs(known, root, owner, id),
    ensures
        !dead_end(known, root, owner),
{
    if dead_end(known, root, owner) {
        let n = choose|n: nat| stops_at(known, root, owner, id, n);
        let k = choose|k: nat| ends_at(known, root, owner, k);
        assert(ancestor(known, owner, (n + 1) as nat) is None);
        if is_top(known, owner, k) {
            assert(ancestor(known, owner, (k + 1) as nat) is None);
            if k < n {
                lemma_none_above(known, owner, (k + 1) as nat, n);
            } else if n < k {
                lemma_none_above(known, owner, (n + 1) as nat, k);
            }
        } else {
            let i = choose|i: nat| is_cycle(known, owner, i, k);
            let m = lemma_cycle_repeats(known, owner, i, k, (n + 1) as nat);
        }
    }
}

// ---------------------------------------------------------------------------
// The resolver
// ---------------------------------------------------------------------------
/// Finds the depth of sessions below one root from the sessions fetched so far.
pub struct SessionLineageResolver {
    sessions_by_id: StringHashMap<Option<String>>,
    eligible_depth_by_owner: StringHashMap<usize>,
}

impl SessionLineageResolver {
    /// The sessions fetched so far, each with its parent.
    pub closed spec fn known(&self) -> Parents {
        self.sessions_by_id@.map_values(|parent: Option<String>| optional_view(parent))
    }

    /// Every depth that was noted down is the depth below `root`.
    pub closed spec fn consistent_with(&self, root: Seq<char>) -> bool {
        forall|owner: Seq<char>| #[trigger]
            self.eligible_depth_by_owner@.contains_key(owner) ==> owner != root && reaches(
                self.known(),
                root,
                owner,
                self.eligible_depth_by_owner@[owner] as nat,
            )
    }

    /// The depth of `owner` below `root`: none when its chain of parents ends or runs in a circle
    /// before it meets the root; or the next session to fetch.
    pub fn eligible_owner_depth(
        &mut self,
        root_session_id: &str,
        owner_session_id: &str,
    ) -> (answer: LineageAnswer)
        requires
            old(self).consistent_with(root_session_id@),
        ensures
            final(self).consistent_with(root_session_id@),
            final(self).known() == old(self).known(),
            tells(answer, standing(old(self).known(), root_session_id@, owner_session_id@)),
    {
        if same_text(owner_session_id, root_session_id) {
            return LineageAnswer::Known(Some(0));
        }
        proof {
            law_standing(self.known(), root_session_id@, owner_session_id@);
        }
        if let Some(depth) = self.eligible_depth_by_owner.get(owner_session_id) {
            return LineageAnswer::Known(Some(*depth));
        }
        let ghost known = self.known();
        let ghost root = root_session_id@;
        let ghost owner = owner_session_id@;
        let mut visited = StringHashSet::new();
        visited.insert(owner_session_id.to_string());
        let mut current_session_id = owner_session_id.to_string();
        let mut depth: usize = 0;
        loop
            invariant
                *self == *old(self),
                self.consistent_with(root),
                known == self.known(),
                root == root_session_id@,
                owner == owner_session_id@,
                owner != root,
                forall|d: nat| #[trigger]
                    reaches(known, root, owner, d) ==> standing(known, root, owner)
                        == Standing::Below(d),
                dead_end(known, root, owner) ==> standing(known, root, owner) == Standing::Outside,
                forall|id: Seq<char>| #[trigger]
                    needs(known, root, owner, id) ==> standing(known, root, owner)
                        == Standing::Unknown(id),
                ancestor(known, owner, depth as nat) == Some(current_session_id@),
                clear_of_root(known, root, owner, depth as nat),
                forall|id: Seq<char>| #[trigger]
                    visited@.contains(id) ==> exists|i: nat|
                        i <= depth && #[trigger] ancestor(known, owner, i) == Some(id),
                forall|i: nat|
                    i <= depth ==> #[trigger] ancestor(known, owner, i) is Some
                        && visited@.contains(ancestor(known, owner, i)->Some_0),
                visited@.finite(),
                visited@.len() == depth + 1,
            decreases usize::MAX - depth,
        {
            let parent_session_id = match self.sessions_by_id.get(current_session_id.as_str()) {
                Some(parent) => {
                    assert(known[current_session_id@] == optional_view(*parent));
                    match parent {
                        Some(parent) => parent.clone(),
                        None => {
                            assert(is_top(known, owner, depth as nat));
                            assert(ends_at(known, root, owner, depth as nat));
                            return LineageAnswer::Known(None);
                        },
                    }
                },
                None => {
                    assert(stops_at(known, root, owner, current_session_id@, depth as nat));
                    assert(needs(known, root, owner, current_session_id@));
                    return LineageAnswer::Fetch(current_session_id);
                },
            };
            let steps: usize = visited.len();
            let ghost next = (depth + 1) as nat;
            assert(ancestor(known, owner, next) == Some(parent_session_id@));
            if same_text(parent_session_id.as_str(), root_session_id) {
                self.eligible_depth_by_owner.insert(owner_session_id.to_string(), steps);
                proof {
                    assert(reaches(known, root, owner, next));
                    assert(self.known() == known);
                }
                return LineageAnswer::Known(Some(steps));
            }
            assert(clear_of_root(known, root, owner, next));
            if !visited.insert(parent_session_id.clone()) {
                proof {
                    let i = choose|i: nat|
                        i <= depth && #[trigger] ancestor(known, owner, i) == Some(
                            parent_session_id@,
                        );
                    assert(is_cycle(known, owner, i, next));
                    assert(ends_at(known, root, owner, next));
                }
                return LineageAnswer::Known(None);
            }
            depth = steps;
            current_session_id = parent_session_id;
        }
    }

    /// Note down a fetched session's parent.
    pub fn record_session(&mut self, session_id: &str, parent_id: Option<String>)
        ensures
            final(self).known() == recorded(
                old(self).known(),
                session_id@,
                optional_view(parent_id),
            ),
            forall|root: Seq<char>|
                old(self).consistent_with(root) ==> final(self).consistent_with(root),
    {
        if !self.sessions_by_id.contains_key(session_id) {
            self.sessions_by_id.insert(session_id.to_string(), parent_id);
        }
        proof {
            let known = old(self).known();
            let parent = optional_view(parent_id);
            assert(self.known() =~= recorded(known, session_id@, parent));
            assert forall|root: Seq<char>| old(self).consistent_with(root) implies
                self.consistent_with(root) by {
                assert forall|owner: Seq<char>| #[trigger]
                    self.eligible_depth_by_owner@.contains_key(owner) implies owner != root
                    && reaches(
                    self.known(),
                    root,
                    owner,
                    self.eligible_depth_by_owner@[owner] as nat,
                ) by {
                    assert(old(self).eligible_depth_by_owner@.contains_key(owner));
                    law_depth_is_stable(
                        known,
                        root,
                        owner,
                        self.eligible_depth_by_owner@[owner] as nat,
                        session_id@,
                        parent,
                    );
                }
            }
        }
    }

    /// Go on with an owner after a session was asked for: a session that was found is noted down, one
    /// that does not exist puts the owner outside the tree, and any other failure is handed back.
    pub fn settle(
        &mut self,
        root_session_id: &str,
        owner_session_id: &str,
        fetched_session_id: &str,
        reply: Result<Session, ApiError>,
    ) -> (answer: Result<LineageAnswer, ApiError>)
        requires
            old(self).consistent_with(root_session_id@),
        ensures
            final(self).consistent_with(root_session_id@),
            match reply {
                Ok(session) => {
                    &&& final(self).known() == recorded(
                        old(self).known(),
                        fetched_session_id@,
                        optional_view(session.parent_id),
                    )
                    &&& answer is Ok
                    &&& tells(
                        answer->Ok_0,
                        standing(final(self).known(), root_session_id@, owner_session_id@),
                    )
                },
                Err(error) => {
                    &&& final(self).known() == old(self).known()
                    &&& answer == if error.not_found() {
                        Ok::<LineageAnswer, ApiError>(LineageAnswer::Known(None))
                    } else {
                        Err::<LineageAnswer, ApiError>(error)
                    }
                },
            },
    {
        match reply {
            Ok(session) => {
                self.record_session(fetched_session_id, session.parent_id);
                Ok(self.eligible_owner_depth(root_session_id, owner_session_id))
            },
            Err(error) => {
                if error.is_not_found() {
                    Ok(LineageAnswer::Known(None))
                } else {
                    Err(error)
                }
            },
        }
    }
}

impl Default for SessionLineageResolver {
    fn default() -> (r: Self)
        ensures
            r.known() == Map::<Seq<char>, Option<Seq<char>>>::empty(),
            forall|root: Seq<char>| r.consistent_with(root),
    {
        let r = SessionLineageResolver {
            sessions_by_id: StringHashMap::new(),
            eligible_depth_by_owner: StringHashMap::new(),
        };
        assert(r.known() =~= Map::<Seq<char>, Option<Seq<char>>>::empty());
        r
    }
}

proof fn lemma_chain_of_parent(known: Parents, x: Seq<char>, p: Seq<char>, k: nat)
    requires
        known.contains_key(x),
        known[x] == Some(p),
    ensures
        ancestor(known, x, (k + 1) as nat) == ancestor(known, p, k),
    decreases k,
{
    if k == 0 {
        assert(ancestor(known, x, 0) == Some(x));
        assert(ancestor(known, x, 1) == Some(p));
    } else {
        lemma_chain_of_parent(known, x, p, (k - 1) as nat);
    }
}

proof fn lemma_clear_of_root_of_parent(
    known: Parents,
    root: Seq<char>,
    x: Seq<char>,
    p: Seq<char>,
    k: nat,
)
    requires
        known.contains_key(x),
        known[x] == Some(p),
        p != root,
        clear_of_root(known, root, p, k),
    ensures
        clear_of_root(known, root, x, (k + 1) as nat),
{
    assert forall|j: nat| 1 <= j <= k + 1 implies #[trigger] ancestor(known, x, j) != Some(
        root,
    ) by {
        lemma_chain_of_parent(known, x, p, (j - 1) as nat);
        if j == 1 {
            assert(ancestor(known, p, 0) == Some(p));
        }
    }
}

/// The root stands at depth zero; a child stands one below its parent; what stands outside the tree, or
/// cannot be placed before a session is fetched, hands that on to its children; a session without a parent
/// is outside, and a session not fetched yet has to be fetched.
pub proof fn law_standing_follows_the_parent(
    known: Parents,
    root: Seq<char>,
    x: Seq<char>,
    p: Seq<char>,
    id: Seq<char>,
)
    ensures
        standing(known, root, root) == Standing::Below(0),
        x != root && !known.contains_key(x) ==> standing(known, root, x) == Standing::Unknown(x)
            && needs(known, root, x, x),
        x != root && known.contains_key(x) && known[x] is None ==> standing(known, root, x)
            == Standing::Outside,
        x != root && known.contains_key(x) && known[x] == Some(root) ==> standing(known, root, x)
            == Standing::Below(1),
        x != root && known.contains_key(x) && known[x] == Some(x) ==> standing(known, root, x)
            == Standing::Outside,
        x != root && known.contains_key(x) && known[x] == Some(p) ==> {
            &&& standing(known, root, p) matches Standing::Below(d) ==> standing(known, root, x)
                == Standing::Below((d + 1) as nat)
            &&& standing(known, root, p) is Outside ==> standing(known, root, x)
                == Standing::Outside
            &&& p != root && needs(known, root, p, id) ==> standing(known, root, x)
                == Standing::Unknown(id)
        },
{
    if x != root {
        law_standing(known, root, x);
        assert(ancestor(known, x, 0) == Some(x));
        assert(clear_of_root(known, root, x, 0));
        if !known.contains_key(x) {
            assert(stops_at(known, root, x, x, 0));
            assert(needs(known, root, x, x));
        } else if known[x] is None {
            assert(is_top(known, x, 0));
            assert(ends_at(known, root, x, 0));
        } else {
            if known[x] == Some(root) {
                assert(ancestor(known, x, 1) == Some(root));
                assert(reaches(known, root, x, 1));
            }
            if known[x] == Some(x) {
                assert(ancestor(known, x, 1) == Some(x));
                assert(clear_of_root(known, root, x, 1));
                assert(is_cycle(known, x, 0, 1));
                assert(ends_at(known, root, x, 1));
            }
            if known[x] == Some(p) && p != root {
                law_standing(known, root, p);
                match standing(known, root, p) {
                    Standing::Below(d) => {
                        assert(reaches(known, root, p, d));
                        lemma_chain_of_parent(known, x, p, d);
                        lemma_clear_of_root_of_parent(known, root, x, p, (d - 1) as nat);
                        assert(reaches(known, root, x, (d + 1) as nat));
                    },
                    Standing::Outside => {
                        let k = choose|k: nat| ends_at(known, root, p, k);
                        lemma_clear_of_root_of_parent(known, root, x, p, k);
                        lemma_chain_of_parent(known, x, p, k);
                        if is_top(known, p, k) {
                            assert(is_top(known, x, (k + 1) as nat));
                        } else {
                            let i = choose|i: nat| is_cycle(known, p, i, k);
                            lemma_chain_of_parent(known, x, p, i);
                            assert(is_cycle(known, x, (i + 1) as nat, (k + 1) as nat));
                        }
                        assert(ends_at(known, root, x, (k + 1) as nat));
                    },
                    Standing::Unknown(_) => {},
                }
                if needs(known, root, p, id) {
                    let k = choose|k: nat| stops_at(known, root, p, id, k);
                    lemma_clear_of_root_of_parent(known, root, x, p, k);
                    lemma_chain_of_parent(known, x, p, k);
                    assert(stops_at(known, root, x, id, (k + 1) as nat));
                    assert(needs(known, root, x, id));
                }
            }
        }
    }
}

/// An answer says no more and no less than where a session stands.
pub proof fn law_answers_tell_where_a_session_stands(answer: LineageAnswer, stands: Standing)
    requires
        tells(answer, stands),
    ensures
        answer matches LineageAnswer::Known(Some(depth)) ==> stands == Standing::Below(
            depth as nat,
        ),
        answer matches LineageAnswer::Known(None) ==> stands is Outside,
        answer matches LineageAnswer::Fetch(id) ==> stands == Standing::Unknown(id@),
{
}

/// A fetched session is noted with its parent, what was known stays, and nothing else is added.
pub proof fn law_recorded_adds_one_session(
    known: Parents,
    id: Seq<char>,
    parent: Option<Seq<char>>,
    other: Seq<char>,
)
    ensures
        recorded(known, id, parent).contains_key(id),
        !known.contains_key(id) ==> recorded(known, id, parent)[id] == parent,
        known.contains_key(id) ==> recorded(known, id, parent)[id] == known[id],
        other != id ==> recorded(known, id, parent).contains_key(other) == known.contains_key(other),
        other != id && known.contains_key(other) ==> recorded(known, id, parent)[other]
            == known[other],
{
}

} // verus!
