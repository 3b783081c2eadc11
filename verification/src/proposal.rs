use vstd::prelude::*;

use crate::caller::CallerId;

verus! {

/// The mathematical model of a proposal record.
pub ghost struct ProposalModel {
    pub id: u64,
    pub title: Seq<char>,
    pub description: Seq<char>,
    pub approve: u64,
    pub reject: u64,
    pub pass: u64,
    pub created_at: u64,
    pub owner: Seq<u8>,
    pub voted: Seq<Seq<u8>>,
    pub has_ended: bool,
}

/// A proposal record.
///
/// `id`, `created_at` and `owner` are immutable once assigned; the vote
/// counters move only by voting (up) or by an edit (reset to zero);
/// `has_ended` makes one irreversible transition from `false` to `true`.
#[derive(Debug)]
pub struct Proposal {
    pub id: u64,
    pub title: String,
    pub description: String,
    pub approve: u64,
    pub reject: u64,
    pub pass: u64,
    pub created_at: u64,
    pub owner: CallerId,
    pub voted: Vec<CallerId>,
    pub has_ended: bool,
}

impl View for Proposal {
    type V = ProposalModel;

    open spec fn view(&self) -> ProposalModel {
        ProposalModel {
            id: self.id,
            title: self.title@,
            description: self.description@,
            approve: self.approve,
            reject: self.reject,
            pass: self.pass,
            created_at: self.created_at,
            owner: self.owner@,
            voted: self.voted@.map_values(|c: CallerId| c@),
            has_ended: self.has_ended,
        }
    }
}

impl Clone for Proposal {
    fn clone(&self) -> (r: Self)
        ensures
            r@ == self@,
    {
        let voted = self.voted.clone();
        proof {
            assert forall|i: int| 0 <= i < voted@.len() implies voted@[i]@ == self.voted@[i]@ by {
                assert(cloned::<CallerId>(self.voted@[i], voted@[i]));
            }
            assert(voted@.map_values(|c: CallerId| c@) =~= self.voted@.map_values(
                |c: CallerId| c@,
            ));
        }
        Proposal {
            id: self.id,
            title: self.title.clone(),
            description: self.description.clone(),
            approve: self.approve,
            reject: self.reject,
            pass: self.pass,
            created_at: self.created_at,
            owner: self.owner.clone(),
            voted,
            has_ended: self.has_ended,
        }
    }
}

/// The kind of a failed operation, without its message.
#[derive(Clone, Copy, PartialEq, Eq, Structural, Debug)]
pub enum VoteErrorKind {
    NotFound,
    InvalidOption,
    Unauthorized,
}

/// Why an operation on the record store was refused.
///
/// `NotFound`: no proposal has the requested id.  `InvalidOption`: a vote
/// named an option index outside the defined set.  `Unauthorized`: the
/// caller is not the proposal's owner, or the proposal has already ended.
#[derive(Debug)]
pub enum VoteError {
    NotFound { msg: String },
    InvalidOption { msg: String },
    Unauthorized { msg: String },
}

impl View for VoteError {
    type V = (VoteErrorKind, Seq<char>);

    open spec fn view(&self) -> (VoteErrorKind, Seq<char>) {
        match self {
            VoteError::NotFound { msg } => (VoteErrorKind::NotFound, msg@),
            VoteError::InvalidOption { msg } => (VoteErrorKind::InvalidOption, msg@),
            VoteError::Unauthorized { msg } => (VoteErrorKind::Unauthorized, msg@),
        }
    }
}

impl VoteError {
    /// The kind of this error.
    pub fn kind(&self) -> (k: VoteErrorKind)
        ensures
            k == self@.0,
    {
        match self {
            VoteError::NotFound { .. } => VoteErrorKind::NotFound,
            VoteError::InvalidOption { .. } => VoteErrorKind::InvalidOption,
            VoteError::Unauthorized { .. } => VoteErrorKind::Unauthorized,
        }
    }

    /// The human-readable message carried by this error.
    pub fn message(&self) -> (m: &String)
        ensures
            m@ == self@.1,
    {
        match self {
            VoteError::NotFound { msg } => msg,
            VoteError::InvalidOption { msg } => msg,
            VoteError::Unauthorized { msg } => msg,
        }
    }
}

} // verus!
