use vstd::prelude::*;

use crate::caller::CallerId;
use crate::id_alloc::IdAllocator;
use crate::proposal::{Proposal, ProposalModel, VoteError, VoteErrorKind};
use crate::store::ProposalStore;

verus! {

// ---------------------------------------------------------------------
// The lifecycle rules, as spec-level transition functions.  Each exec
// operation's contract ties its result and the store's new state to one
// of these, so the rules are stated once and proved everywhere.
// ---------------------------------------------------------------------

pub open spec fn not_found_msg() -> Seq<char> {
    "proposal not found"@
}

pub open spec fn invalid_option_msg() -> Seq<char> {
    "invalid option index"@
}

pub open spec fn edit_not_owner_msg() -> Seq<char> {
    "Only the owner can edit the proposal"@
}

pub open spec fn edit_ended_msg() -> Seq<char> {
    "Cannot edit an ended proposal"@
}

pub open spec fn end_not_owner_msg() -> Seq<char> {
    "Only the owner can end the proposal"@
}

pub open spec fn end_ended_msg() -> Seq<char> {
    "Proposal is already ended"@
}

/// The record a creation builds: all counters zero, no voters recorded,
/// still active, owned by its creator.
pub open spec fn created_model(
    id: u64,
    title: Seq<char>,
    description: Seq<char>,
    owner: Seq<u8>,
    now: u64,
) -> ProposalModel {
    ProposalModel {
        id: id,
        title: title,
        description: description,
        approve: 0,
        reject: 0,
        pass: 0,
        created_at: now,
        owner: owner,
        voted: Seq::empty(),
        has_ended: false,
    }
}

/// The record after one vote.  Option 0 counts as approve, 1 as reject,
/// and both 2 and 3 as pass: the two indices alias one counter.
pub open spec fn with_vote(p: ProposalModel, option_index: usize) -> ProposalModel {
    ProposalModel {
        approve: if option_index == 0 {
            (p.approve + 1) as u64
        } else {
            p.approve
        },
        reject: if option_index == 1 {
            (p.reject + 1) as u64
        } else {
            p.reject
        },
        pass: if option_index == 2 || option_index == 3 {
            (p.pass + 1) as u64
        } else {
            p.pass
        },
        id: p.id,
        title: p.title,
        description: p.description,
        created_at: p.created_at,
        owner: p.owner,
        voted: p.voted,
        has_ended: p.has_ended,
    }
}

/// Whether the counter a vote would move has room for one more count;
/// a machine limit, not a rule of the workflow.
pub open spec fn vote_has_room(m: Map<u64, ProposalModel>, id: u64, option_index: usize) -> bool {
    m.contains_key(id) ==> {
        &&& (option_index == 0 ==> m[id].approve < u64::MAX)
        &&& (option_index == 1 ==> m[id].reject < u64::MAX)
        &&& ((option_index == 2 || option_index == 3) ==> m[id].pass < u64::MAX)
    }
}

/// What casting a vote yields: the proposal must exist and the option
/// index must be one of 0 to 3.  Neither the caller nor the proposal's
/// ended flag is consulted: the store admits repeat votes and votes on
/// ended proposals.
pub open spec fn vote_outcome(m: Map<u64, ProposalModel>, id: u64, option_index: usize) -> Result<
    ProposalModel,
    (VoteErrorKind, Seq<char>),
> {
    if !m.contains_key(id) {
        Err((VoteErrorKind::NotFound, not_found_msg()))
    } else if option_index <= 3 {
        Ok(with_vote(m[id], option_index))
    } else {
        Err((VoteErrorKind::InvalidOption, invalid_option_msg()))
    }
}

/// The record after an edit: fields left unset stay unchanged, and every
/// vote counter resets to zero — an edit invalidates prior voting.
pub open spec fn edited_model(
    p: ProposalModel,
    title: Option<Seq<char>>,
    description: Option<Seq<char>>,
) -> ProposalModel {
    ProposalModel {
        title: match title {
            Some(t) => t,
            None => p.title,
        },
        description: match description {
            Some(d) => d,
            None => p.description,
        },
        approve: 0,
        reject: 0,
        pass: 0,
        id: p.id,
        created_at: p.created_at,
        owner: p.owner,
        voted: p.voted,
        has_ended: p.has_ended,
    }
}

/// What an edit yields: the proposal must exist, the caller must be its
/// owner, and the proposal must not have ended.
pub open spec fn edit_outcome(
    m: Map<u64, ProposalModel>,
    id: u64,
    title: Option<Seq<char>>,
    description: Option<Seq<char>>,
    caller: Seq<u8>,
) -> Result<ProposalModel, (VoteErrorKind, Seq<char>)> {
    if !m.contains_key(id) {
        Err((VoteErrorKind::NotFound, not_found_msg()))
    } else if m[id].owner != caller {
        Err((VoteErrorKind::Unauthorized, edit_not_owner_msg()))
    } else if m[id].has_ended {
        Err((VoteErrorKind::Unauthorized, edit_ended_msg()))
    } else {
        Ok(edited_model(m[id], title, description))
    }
}

/// What ending yields: the proposal must exist, the caller must be its
/// owner, and a proposal can end only once — double-close is rejected.
pub open spec fn end_outcome(m: Map<u64, ProposalModel>, id: u64, caller: Seq<u8>) -> Result<
    ProposalModel,
    (VoteErrorKind, Seq<char>),
> {
    if !m.contains_key(id) {
        Err((VoteErrorKind::NotFound, not_found_msg()))
    } else if m[id].owner != caller {
        Err((VoteErrorKind::Unauthorized, end_not_owner_msg()))
    } else if m[id].has_ended {
        Err((VoteErrorKind::Unauthorized, end_ended_msg()))
    } else {
        Ok(
            ProposalModel {
                has_ended: true,
                id: m[id].id,
                title: m[id].title,
                description: m[id].description,
                approve: m[id].approve,
                reject: m[id].reject,
                pass: m[id].pass,
                created_at: m[id].created_at,
                owner: m[id].owner,
                voted: m[id].voted,
            },
        )
    }
}

/// What a lookup yields.
pub open spec fn get_outcome(m: Map<u64, ProposalModel>, id: u64) -> Result<
    ProposalModel,
    (VoteErrorKind, Seq<char>),
> {
    if m.contains_key(id) {
        Ok(m[id])
    } else {
        Err((VoteErrorKind::NotFound, not_found_msg()))
    }
}

pub open spec fn text_of(o: Option<String>) -> Option<Seq<char>> {
    match o {
        Some(s) => Some(s@),
        None => None,
    }
}

// ---------------------------------------------------------------------
// The lifecycle engine.
// ---------------------------------------------------------------------

/// The proposal lifecycle engine: owns the proposal store and the
/// identifier allocator, and enforces the lifecycle rules over them.
pub struct Engine {
    alloc: IdAllocator,
    store: ProposalStore,
}

impl View for Engine {
    type V = Map<u64, ProposalModel>;

    closed spec fn view(&self) -> Map<u64, ProposalModel> {
        self.store@
    }
}

impl Engine {
    /// The allocator counter: the identifier the next creation will get.
    pub closed spec fn counter(&self) -> u64 {
        self.alloc.value()
    }

    /// Well-formedness: the store is consistent and every stored
    /// identifier was allocated, that is, lies below the counter.
    pub closed spec fn wf(&self) -> bool {
        &&& self.store.wf()
        &&& forall|k: u64| #[trigger] self.store@.contains_key(k) ==> k < self.alloc.value()
    }

    /// An empty engine: no proposals, counter at zero.
    pub fn new() -> (r: Engine)
        ensures
            r.wf(),
            r@ == Map::<u64, ProposalModel>::empty(),
            r.counter() == 0,
    {
        Engine { alloc: IdAllocator::new(), store: ProposalStore::new() }
    }

    /// The allocator counter, readable so that a caller can test the
    /// creation precondition before asking for a new proposal.
    pub fn id_counter(&self) -> (r: u64)
        ensures
            r == self.counter(),
    {
        self.alloc.current()
    }

    /// Creates a proposal: allocates the next identifier, stores a record
    /// with all counters zero owned by `caller`, and returns a copy.
    /// The new identifier exceeds every identifier already in the store.
    pub fn add_proposal(&mut self, title: String, description: String, caller: &CallerId, now: u64) -> (r:
        Proposal)
        requires
            old(self).wf(),
            old(self).counter() < u64::MAX,
        ensures
            final(self).wf(),
            r@ == created_model(old(self).counter(), title@, description@, caller@, now),
            r@.id == old(self).counter(),
            final(self)@ == old(self)@.insert(r@.id, r@),
            final(self).counter() == old(self).counter() + 1,
            !old(self)@.contains_key(r@.id),
            forall|k: u64| #[trigger] old(self)@.contains_key(k) ==> k < r@.id,
    {
        let id = self.alloc.next_id();
        let p = Proposal {
            id,
            title,
            description,
            approve: 0,
            reject: 0,
            pass: 0,
            created_at: now,
            owner: caller.clone(),
            voted: Vec::new(),
            has_ended: false,
        };
        proof {
            assert(p.voted@.map_values(|c: CallerId| c@) =~= Seq::<Seq<u8>>::empty());
        }
        let out = p.clone();
        self.store.insert_or_replace(p);
        out
    }

    /// Casts one vote on the proposal under `proposal_id`.  The caller
    /// identity is accepted but not consulted: the store admits repeat
    /// votes and votes on ended proposals.
    pub fn cast_vote(&mut self, proposal_id: u64, option_index: usize, _caller: &CallerId) -> (r:
        Result<Proposal, VoteError>)
        requires
            old(self).wf(),
            vote_has_room(old(self)@, proposal_id, option_index),
        ensures
            final(self).wf(),
            final(self).counter() == old(self).counter(),
            ({
                let outcome = vote_outcome(old(self)@, proposal_id, option_index);
                match r {
                    Ok(p) => outcome is Ok && p@ == outcome->Ok_0 && final(self)@ == old(
                        self,
                    )@.insert(proposal_id, p@),
                    Err(e) => outcome is Err && e@ == outcome->Err_0 && final(self)@ == old(
                        self,
                    )@,
                }
            }),
    {
        match self.store.get(proposal_id) {
            None => Err(VoteError::NotFound { msg: "proposal not found".to_owned() }),
            Some(p) => {
                if option_index <= 3 {
                    let mut q = p;
                    if option_index == 0 {
                        q.approve = q.approve + 1;
                    } else if option_index == 1 {
                        q.reject = q.reject + 1;
                    } else {
                        q.pass = q.pass + 1;
                    }
                    let out = q.clone();
                    self.store.insert_or_replace(q);
                    Ok(out)
                } else {
                    Err(VoteError::InvalidOption { msg: "invalid option index".to_owned() })
                }
            },
        }
    }

    /// A copy of the proposal under `proposal_id`.
    pub fn get_proposal(&self, proposal_id: u64) -> (r: Result<Proposal, VoteError>)
        requires
            self.wf(),
        ensures
            ({
                let outcome = get_outcome(self@, proposal_id);
                match r {
                    Ok(p) => outcome is Ok && p@ == outcome->Ok_0,
                    Err(e) => outcome is Err && e@ == outcome->Err_0,
                }
            }),
    {
        match self.store.get(proposal_id) {
            Some(p) => Ok(p),
            None => Err(VoteError::NotFound { msg: "proposal not found".to_owned() }),
        }
    }

    /// A copy of every stored proposal: duplicate-free and covering
    /// exactly the store's contents, in no promised order.
    pub fn get_all_proposals(&self) -> (r: Vec<Proposal>)
        requires
            self.wf(),
        ensures
            forall|i: int|
                0 <= i < r@.len() ==> self@.contains_key(#[trigger] r@[i]@.id) && r@[i]@
                    == self@[r@[i]@.id],
            forall|i: int, j: int| 0 <= i < j < r@.len() ==> r@[i]@.id != r@[j]@.id,
            forall|k: u64|
                #[trigger] self@.contains_key(k) ==> exists|i: int|
                    0 <= i < r@.len() && r@[i]@.id == k,
    {
        self.store.list_all()
    }

    /// Edits the proposal under `proposal_id`: only its owner may edit,
    /// only while it has not ended; provided fields replace the old ones,
    /// and all three vote counters reset to zero.
    pub fn edit_proposal(
        &mut self,
        proposal_id: u64,
        title: Option<String>,
        description: Option<String>,
        caller: &CallerId,
    ) -> (r: Result<Proposal, VoteError>)
        requires
            old(self).wf(),
        ensures
            final(self).wf(),
            final(self).counter() == old(self).counter(),
            ({
                let outcome = edit_outcome(
                    old(self)@,
                    proposal_id,
                    text_of(title),
                    text_of(description),
                    caller@,
                );
                match r {
                    Ok(p) => outcome is Ok && p@ == outcome->Ok_0 && final(self)@ == old(
                        self,
                    )@.insert(proposal_id, p@),
                    Err(e) => outcome is Err && e@ == outcome->Err_0 && final(self)@ == old(
                        self,
                    )@,
                }
            }),
    {
        match self.store.get(proposal_id) {
            None => Err(VoteError::NotFound { msg: "proposal not found".to_owned() }),
            Some(p) => {
                if !caller.equals(&p.owner) {
                    Err(
                        VoteError::Unauthorized {
                            msg: "Only the owner can edit the proposal".to_owned(),
                        },
                    )
                } else if p.has_ended {
                    Err(
                        VoteError::Unauthorized {
                            msg: "Cannot edit an ended proposal".to_owned(),
                        },
                    )
                } else {
                    let mut q = p;
                    match title {
                        Some(t) => {
                            q.title = t;
                        },
                        None => {},
                    }
                    match description {
                        Some(d) => {
                            q.description = d;
                        },
                        None => {},
                    }
                    q.approve = 0;
                    q.reject = 0;
                    q.pass = 0;
                    let out = q.clone();
                    self.store.insert_or_replace(q);
                    Ok(out)
                }
            },
        }
    }

    /// Ends the proposal under `proposal_id`: only its owner may end it,
    /// and only once — the transition to `has_ended` is irreversible.
    pub fn end_proposal(&mut self, proposal_id: u64, caller: &CallerId) -> (r: Result<
        Proposal,
        VoteError,
    >)
        requires
            old(self).wf(),
        ensures
            final(self).wf(),
            final(self).counter() == old(self).counter(),
            ({
                let outcome = end_outcome(old(self)@, proposal_id, caller@);
                match r {
                    Ok(p) => outcome is Ok && p@ == outcome->Ok_0 && final(self)@ == old(
                        self,
                    )@.insert(proposal_id, p@),
                    Err(e) => outcome is Err && e@ == outcome->Err_0 && final(self)@ == old(
                        self,
                    )@,
                }
            }),
    {
        match self.store.get(proposal_id) {
            None => Err(VoteError::NotFound { msg: "proposal not found".to_owned() }),
            Some(p) => {
                if !caller.equals(&p.owner) {
                    Err(
                        VoteError::Unauthorized {
                            msg: "Only the owner can end the proposal".to_owned(),
                        },
                    )
                } else if p.has_ended {
                    Err(
                        VoteError::Unauthorized {
                            msg: "Proposal is already ended".to_owned(),
                        },
                    )
                } else {
                    let mut q = p;
                    q.has_ended = true;
                    let out = q.clone();
                    self.store.insert_or_replace(q);
                    Ok(out)
                }
            },
        }
    }
}

// ---------------------------------------------------------------------
// Laws of the lifecycle.
// ---------------------------------------------------------------------

/// Identifier freshness: in a well-formed engine every stored identifier
/// lies strictly below the allocator counter.  Since a creation returns
/// the counter and advances it, and no other operation moves it, the
/// identifiers returned by successive creations strictly increase and
/// never repeat.
pub proof fn lemma_stored_ids_below_counter(e: &Engine, id: u64)
    requires
        e.wf(),
        e@.contains_key(id),
    ensures
        id < e.counter(),
{
}

/// Identity is immutable: no vote, edit or close changes a proposal's
/// identifier, its owner, or its creation time.
pub proof fn lemma_identity_immutable(
    m: Map<u64, ProposalModel>,
    id: u64,
    option_index: usize,
    title: Option<Seq<char>>,
    description: Option<Seq<char>>,
    caller: Seq<u8>,
)
    ensures
        (vote_outcome(m, id, option_index) matches Ok(p) ==> p.id == m[id].id && p.owner
            == m[id].owner && p.created_at == m[id].created_at),
        (edit_outcome(m, id, title, description, caller) matches Ok(p) ==> p.id == m[id].id
            && p.owner == m[id].owner && p.created_at == m[id].created_at),
        (end_outcome(m, id, caller) matches Ok(p) ==> p.id == m[id].id && p.owner == m[id].owner
            && p.created_at == m[id].created_at),
{
}

/// The ended flag is monotonic: once a proposal has ended, no operation
/// brings it back — a vote keeps the flag, and an edit or a second end of
/// an ended proposal is refused outright.
pub proof fn lemma_ended_is_monotonic(
    m: Map<u64, ProposalModel>,
    id: u64,
    option_index: usize,
    title: Option<Seq<char>>,
    description: Option<Seq<char>>,
    caller: Seq<u8>,
)
    requires
        m.contains_key(id),
        m[id].has_ended,
    ensures
        (vote_outcome(m, id, option_index) matches Ok(p) ==> p.has_ended),
        edit_outcome(m, id, title, description, caller) is Err,
        end_outcome(m, id, caller) is Err,
{
}

/// Vote bookkeeping: a successful vote raises the sum of the three
/// counters by exactly one, and a successful edit resets it to zero, so
/// the sum always equals the number of votes cast since the last edit.
pub proof fn lemma_counters_track_votes(
    m: Map<u64, ProposalModel>,
    id: u64,
    option_index: usize,
    title: Option<Seq<char>>,
    description: Option<Seq<char>>,
    caller: Seq<u8>,
)
    requires
        vote_has_room(m, id, option_index),
    ensures
        (vote_outcome(m, id, option_index) matches Ok(p) ==> p.approve + p.reject + p.pass
            == m[id].approve + m[id].reject + m[id].pass + 1),
        (edit_outcome(m, id, title, description, caller) matches Ok(p) ==> p.approve + p.reject
            + p.pass == 0),
{
}

/// Option aliasing: a vote with index 2 and a vote with index 3 yield the
/// same record — both count as pass.
pub proof fn lemma_pass_aliasing(p: ProposalModel)
    ensures
        with_vote(p, 2) == with_vote(p, 3),
{
}

/// Ending is terminal: after a successful end of a proposal, a second end
/// of the same proposal fails as unauthorized, whoever asks.
pub proof fn lemma_end_is_terminal(m: Map<u64, ProposalModel>, id: u64, c1: Seq<u8>, c2: Seq<u8>)
    requires
        end_outcome(m, id, c1) is Ok,
    ensures
        ({
            let m2 = m.insert(id, end_outcome(m, id, c1)->Ok_0);
            &&& end_outcome(m2, id, c2) is Err
            &&& end_outcome(m2, id, c2)->Err_0.0 == VoteErrorKind::Unauthorized
        }),
{
}

/// An ended proposal admits no edit: after a successful end of a
/// proposal, every edit of it fails as unauthorized, whoever asks and
/// whatever fields the edit carries.
pub proof fn lemma_no_edit_after_end(
    m: Map<u64, ProposalModel>,
    id: u64,
    c1: Seq<u8>,
    title: Option<Seq<char>>,
    description: Option<Seq<char>>,
    c2: Seq<u8>,
)
    requires
        end_outcome(m, id, c1) is Ok,
    ensures
        ({
            let m2 = m.insert(id, end_outcome(m, id, c1)->Ok_0);
            &&& edit_outcome(m2, id, title, description, c2) is Err
            &&& edit_outcome(m2, id, title, description, c2)->Err_0.0
                == VoteErrorKind::Unauthorized
        }),
{
}

} // verus!
