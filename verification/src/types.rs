use vstd::prelude::*;

verus! {

/// Index of a referendum; referenda are numbered from zero in the order of
/// submission.
pub type ReferendumIndex = u32;

/// An amount of funds held from an account.
#[derive(Clone, Copy, Debug, PartialEq, Eq)]
pub struct Deposit<AccountId, Balance> {
    pub who: AccountId,
    pub amount: Balance,
}

/// When a proposal is to be enacted: at a given moment, or a given
/// number of blocks after approval.
#[derive(Clone, Copy, Debug, PartialEq, Eq)]
pub enum AtOrAfter<Moment> {
    At(Moment),
    After(Moment),
}

/// The decision period of a referendum: when it began, and, while the
/// referendum is passing, since when it has been confirming.
#[derive(Clone, Copy, Debug, PartialEq, Eq)]
pub struct DecidingStatus<Moment> {
    pub since: Moment,
    pub confirming: Option<Moment>,
}

/// A referendum that has not yet ended.
#[derive(Clone, Debug, PartialEq, Eq)]
pub struct ReferendumStatus<TrackId, Origin, Moment, Hash, Balance, Tally, AccountId, Votes, ScheduleAddress> {
    pub track: TrackId,
    pub origin: Origin,
    pub proposal_hash: Hash,
    pub enactment: AtOrAfter<Moment>,
    pub submitted: Moment,
    pub submission_deposit: Deposit<AccountId, Balance>,
    pub decision_deposit: Option<Deposit<AccountId, Balance>>,
    pub deciding: Option<DecidingStatus<Moment>>,
    pub tally: Tally,
    pub ayes_in_queue: Option<Votes>,
    pub alarm: Option<(Moment, ScheduleAddress)>,
}

/// What is known of a referendum: its status while ongoing, or how and
/// when it ended together with the deposits still held.
#[derive(Clone, Debug, PartialEq, Eq)]
pub enum ReferendumInfo<TrackId, Origin, Moment, Hash, Balance, Tally, AccountId, Votes, ScheduleAddress> {
    Ongoing(ReferendumStatus<TrackId, Origin, Moment, Hash, Balance, Tally, AccountId, Votes, ScheduleAddress>),
    Approved(Moment, Deposit<AccountId, Balance>, Option<Deposit<AccountId, Balance>>),
    Rejected(Moment, Deposit<AccountId, Balance>, Option<Deposit<AccountId, Balance>>),
    Cancelled(Moment, Deposit<AccountId, Balance>, Option<Deposit<AccountId, Balance>>),
    TimedOut(Moment, Deposit<AccountId, Balance>, Option<Deposit<AccountId, Balance>>),
    Killed(Moment),
}

} // verus!
