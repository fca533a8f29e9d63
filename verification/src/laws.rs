//! Laws relating the stages of a referendum to one another.

use vstd::prelude::*;
use crate::types::Deposit;
use crate::types::ReferendumInfo;
use crate::types::ReferendumStatus;
use crate::status::{
    approved, cancelled, confirming, deciding, deciding_and_failing, killed, rejected, waiting,
};

verus! {

/// One if `b` holds, else zero.
pub open spec fn one_if(b: bool) -> nat {
    if b { 1 } else { 0 }
}

/// How many of the stages that leave no further choice hold of `info`:
/// waiting, deciding and failing, confirming, approved, rejected, cancelled,
/// killed.
pub open spec fn stage_count<TrackId, Origin, Moment, Hash, Balance, Tally, AccountId, Votes, ScheduleAddress>(
    info: Option<ReferendumInfo<TrackId, Origin, Moment, Hash, Balance, Tally, AccountId, Votes, ScheduleAddress>>,
) -> nat {
    one_if(waiting(info)) + one_if(deciding_and_failing(info)) + one_if(confirming(info))
        + one_if(approved(info)) + one_if(rejected(info)) + one_if(cancelled(info))
        + one_if(killed(info))
}

/// A referendum in its decision period is either failing or confirming, and
/// never both.
pub proof fn deciding_is_failing_or_confirming<TrackId, Origin, Moment, Hash, Balance, Tally, AccountId, Votes, ScheduleAddress>(
    info: Option<ReferendumInfo<TrackId, Origin, Moment, Hash, Balance, Tally, AccountId, Votes, ScheduleAddress>>,
)
    ensures
        deciding(info) <==> (deciding_and_failing(info) || confirming(info)),
        !(deciding_and_failing(info) && confirming(info)),
{
}

/// An ongoing referendum is either waiting or deciding, and never both;
/// a referendum that is waiting or deciding is ongoing.
pub proof fn ongoing_is_waiting_or_deciding<TrackId, Origin, Moment, Hash, Balance, Tally, AccountId, Votes, ScheduleAddress>(
    info: Option<ReferendumInfo<TrackId, Origin, Moment, Hash, Balance, Tally, AccountId, Votes, ScheduleAddress>>,
)
    ensures
        (info matches Some(ReferendumInfo::Ongoing(_))) <==> (waiting(info) || deciding(info)),
        !(waiting(info) && deciding(info)),
{
}

/// At most one stage holds of any referendum, and exactly one holds unless
/// there is no referendum at all or it has timed out.
pub proof fn exactly_one_stage<TrackId, Origin, Moment, Hash, Balance, Tally, AccountId, Votes, ScheduleAddress>(
    info: Option<ReferendumInfo<TrackId, Origin, Moment, Hash, Balance, Tally, AccountId, Votes, ScheduleAddress>>,
)
    ensures
        stage_count(info) <= 1,
        stage_count(info) == 1 <==> (info matches Some(r) && !(r is TimedOut)),
{
}

/// The stage of an ongoing referendum is decided by its decision status
/// alone: whether its decision period has begun and whether it is
/// confirming. Track, origin, proposal, enactment, submission time,
/// deposits, tally, queue position and alarm make no difference.
pub proof fn ongoing_stage_depends_only_on_decision<TrackId, Origin, Moment, Hash, Balance, Tally, AccountId, Votes, ScheduleAddress>(
    s1: ReferendumStatus<TrackId, Origin, Moment, Hash, Balance, Tally, AccountId, Votes, ScheduleAddress>,
    s2: ReferendumStatus<TrackId, Origin, Moment, Hash, Balance, Tally, AccountId, Votes, ScheduleAddress>,
)
    requires
        (s1.deciding is Some) == (s2.deciding is Some),
        (s1.deciding matches Some(d) && d.confirming is Some)
            == (s2.deciding matches Some(d) && d.confirming is Some),
    ensures
        waiting(Some(ReferendumInfo::Ongoing(s1))) == waiting(Some(ReferendumInfo::Ongoing(s2))),
        deciding(Some(ReferendumInfo::Ongoing(s1))) == deciding(Some(ReferendumInfo::Ongoing(s2))),
        deciding_and_failing(Some(ReferendumInfo::Ongoing(s1))) == deciding_and_failing(Some(ReferendumInfo::Ongoing(s2))),
        confirming(Some(ReferendumInfo::Ongoing(s1))) == confirming(Some(ReferendumInfo::Ongoing(s2))),
        approved(Some(ReferendumInfo::Ongoing(s1))) == approved(Some(ReferendumInfo::Ongoing(s2))),
        rejected(Some(ReferendumInfo::Ongoing(s1))) == rejected(Some(ReferendumInfo::Ongoing(s2))),
        cancelled(Some(ReferendumInfo::Ongoing(s1))) == cancelled(Some(ReferendumInfo::Ongoing(s2))),
        killed(Some(ReferendumInfo::Ongoing(s1))) == killed(Some(ReferendumInfo::Ongoing(s2))),
{
}

/// An ongoing referendum whose decision period has not begun is waiting,
/// one in its decision period is deciding, and it is confirming when it has
/// a confirmation start and failing when it has none; whatever its other
/// fields hold.
pub proof fn ongoing_stage_by_decision<TrackId, Origin, Moment, Hash, Balance, Tally, AccountId, Votes, ScheduleAddress>(
    s: ReferendumStatus<TrackId, Origin, Moment, Hash, Balance, Tally, AccountId, Votes, ScheduleAddress>,
)
    ensures
        s.deciding is None ==> waiting(Some(ReferendumInfo::Ongoing(s))),
        s.deciding is None ==> !deciding(Some(ReferendumInfo::Ongoing(s))),
        s.deciding is Some ==> deciding(Some(ReferendumInfo::Ongoing(s))),
        s.deciding is Some ==> !waiting(Some(ReferendumInfo::Ongoing(s))),
        (s.deciding matches Some(d) && d.confirming is Some) ==> confirming(Some(ReferendumInfo::Ongoing(s))),
        (s.deciding matches Some(d) && d.confirming is None) ==> deciding_and_failing(Some(ReferendumInfo::Ongoing(s))),
{
}

/// A referendum that ended is in the stage named by how it ended, whatever
/// the moment and whichever deposits are still held.
pub proof fn ended_stage_by_outcome<TrackId, Origin, Moment, Hash, Balance, Tally, AccountId, Votes, ScheduleAddress>(
    when: Moment,
    submission: Deposit<AccountId, Balance>,
    decision: Option<Deposit<AccountId, Balance>>,
)
    ensures
        approved(Some(ReferendumInfo::<TrackId, Origin, Moment, Hash, Balance, Tally, AccountId, Votes, ScheduleAddress>::Approved(when, submission, decision))),
        rejected(Some(ReferendumInfo::<TrackId, Origin, Moment, Hash, Balance, Tally, AccountId, Votes, ScheduleAddress>::Rejected(when, submission, decision))),
        cancelled(Some(ReferendumInfo::<TrackId, Origin, Moment, Hash, Balance, Tally, AccountId, Votes, ScheduleAddress>::Cancelled(when, submission, decision))),
        killed(Some(ReferendumInfo::<TrackId, Origin, Moment, Hash, Balance, Tally, AccountId, Votes, ScheduleAddress>::Killed(when))),
        stage_count(Some(ReferendumInfo::<TrackId, Origin, Moment, Hash, Balance, Tally, AccountId, Votes, ScheduleAddress>::TimedOut(when, submission, decision))) == 0,
        !deciding(Some(ReferendumInfo::<TrackId, Origin, Moment, Hash, Balance, Tally, AccountId, Votes, ScheduleAddress>::TimedOut(when, submission, decision))),
{
}

/// The stage of an ended referendum does not depend on when it ended nor on
/// the deposits it still holds.
pub proof fn ended_stage_ignores_record<TrackId, Origin, Moment, Hash, Balance, Tally, AccountId, Votes, ScheduleAddress>(
    w1: Moment,
    a1: Deposit<AccountId, Balance>,
    b1: Option<Deposit<AccountId, Balance>>,
    w2: Moment,
    a2: Deposit<AccountId, Balance>,
    b2: Option<Deposit<AccountId, Balance>>,
)
    ensures
        waiting(Some(ReferendumInfo::<TrackId, Origin, Moment, Hash, Balance, Tally, AccountId, Votes, ScheduleAddress>::Approved(w1, a1, b1))) == waiting(Some(ReferendumInfo::<TrackId, Origin, Moment, Hash, Balance, Tally, AccountId, Votes, ScheduleAddress>::Approved(w2, a2, b2))),
        deciding(Some(ReferendumInfo::<TrackId, Origin, Moment, Hash, Balance, Tally, AccountId, Votes, ScheduleAddress>::Approved(w1, a1, b1))) == deciding(Some(ReferendumInfo::<TrackId, Origin, Moment, Hash, Balance, Tally, AccountId, Votes, ScheduleAddress>::Approved(w2, a2, b2))),
        deciding_and_failing(Some(ReferendumInfo::<TrackId, Origin, Moment, Hash, Balance, Tally, AccountId, Votes, ScheduleAddress>::Approved(w1, a1, b1))) == deciding_and_failing(Some(ReferendumInfo::<TrackId, Origin, Moment, Hash, Balance, Tally, AccountId, Votes, ScheduleAddress>::Approved(w2, a2, b2))),
        confirming(Some(ReferendumInfo::<TrackId, Origin, Moment, Hash, Balance, Tally, AccountId, Votes, ScheduleAddress>::Approved(w1, a1, b1))) == confirming(Some(ReferendumInfo::<TrackId, Origin, Moment, Hash, Balance, Tally, AccountId, Votes, ScheduleAddress>::Approved(w2, a2, b2))),
        approved(Some(ReferendumInfo::<TrackId, Origin, Moment, Hash, Balance, Tally, AccountId, Votes, ScheduleAddress>::Approved(w1, a1, b1))) == approved(Some(ReferendumInfo::<TrackId, Origin, Moment, Hash, Balance, Tally, AccountId, Votes, ScheduleAddress>::Approved(w2, a2, b2))),
        rejected(Some(ReferendumInfo::<TrackId, Origin, Moment, Hash, Balance, Tally, AccountId, Votes, ScheduleAddress>::Approved(w1, a1, b1))) == rejected(Some(ReferendumInfo::<TrackId, Origin, Moment, Hash, Balance, Tally, AccountId, Votes, ScheduleAddress>::Approved(w2, a2, b2))),
        cancelled(Some(ReferendumInfo::<TrackId, Origin, Moment, Hash, Balance, Tally, AccountId, Votes, ScheduleAddress>::Approved(w1, a1, b1))) == cancelled(Some(ReferendumInfo::<TrackId, Origin, Moment, Hash, Balance, Tally, AccountId, Votes, ScheduleAddress>::Approved(w2, a2, b2))),
        killed(Some(ReferendumInfo::<TrackId, Origin, Moment, Hash, Balance, Tally, AccountId, Votes, ScheduleAddress>::Approved(w1, a1, b1))) == killed(Some(ReferendumInfo::<TrackId, Origin, Moment, Hash, Balance, Tally, AccountId, Votes, ScheduleAddress>::Approved(w2, a2, b2))),
        waiting(Some(ReferendumInfo::<TrackId, Origin, Moment, Hash, Balance, Tally, AccountId, Votes, ScheduleAddress>::Rejected(w1, a1, b1))) == waiting(Some(ReferendumInfo::<TrackId, Origin, Moment, Hash, Balance, Tally, AccountId, Votes, ScheduleAddress>::Rejected(w2, a2, b2))),
        deciding(Some(ReferendumInfo::<TrackId, Origin, Moment, Hash, Balance, Tally, AccountId, Votes, ScheduleAddress>::Rejected(w1, a1, b1))) == deciding(Some(ReferendumInfo::<TrackId, Origin, Moment, Hash, Balance, Tally, AccountId, Votes, ScheduleAddress>::Rejected(w2, a2, b2))),
        deciding_and_failing(Some(ReferendumInfo::<TrackId, Origin, Moment, Hash, Balance, Tally, AccountId, Votes, ScheduleAddress>::Rejected(w1, a1, b1))) == deciding_and_failing(Some(ReferendumInfo::<TrackId, Origin, Moment, Hash, Balance, Tally, AccountId, Votes, ScheduleAddress>::Rejected(w2, a2, b2))),
        confirming(Some(ReferendumInfo::<TrackId, Origin, Moment, Hash, Balance, Tally, AccountId, Votes, ScheduleAddress>::Rejected(w1, a1, b1))) == confirming(Some(ReferendumInfo::<TrackId, Origin, Moment, Hash, Balance, Tally, AccountId, Votes, ScheduleAddress>::Rejected(w2, a2, b2))),
        approved(Some(ReferendumInfo::<TrackId, Origin, Moment, Hash, Balance, Tally, AccountId, Votes, ScheduleAddress>::Rejected(w1, a1, b1))) == approved(Some(ReferendumInfo::<TrackId, Origin, Moment, Hash, Balance, Tally, AccountId, Votes, ScheduleAddress>::Rejected(w2, a2, b2))),
        rejected(Some(ReferendumInfo::<TrackId, Origin, Moment, Hash, Balance, Tally, AccountId, Votes, ScheduleAddress>::Rejected(w1, a1, b1))) == rejected(Some(ReferendumInfo::<TrackId, Origin, Moment, Hash, Balance, Tally, AccountId, Votes, ScheduleAddress>::Rejected(w2, a2, b2))),
        cancelled(Some(ReferendumInfo::<TrackId, Origin, Moment, Hash, Balance, Tally, AccountId, Votes, ScheduleAddress>::Rejected(w1, a1, b1))) == cancelled(Some(ReferendumInfo::<TrackId, Origin, Moment, Hash, Balance, Tally, AccountId, Votes, ScheduleAddress>::Rejected(w2, a2, b2))),
        killed(Some(ReferendumInfo::<TrackId, Origin, Moment, Hash, Balance, Tally, AccountId, Votes, ScheduleAddress>::Rejected(w1, a1, b1))) == killed(Some(ReferendumInfo::<TrackId, Origin, Moment, Hash, Balance, Tally, AccountId, Votes, ScheduleAddress>::Rejected(w2, a2, b2))),
        waiting(Some(ReferendumInfo::<TrackId, Origin, Moment, Hash, Balance, Tally, AccountId, Votes, ScheduleAddress>::Cancelled(w1, a1, b1))) == waiting(Some(ReferendumInfo::<TrackId, Origin, Moment, Hash, Balance, Tally, AccountId, Votes, ScheduleAddress>::Cancelled(w2, a2, b2))),
        deciding(Some(ReferendumInfo::<TrackId, Origin, Moment, Hash, Balance, Tally, AccountId, Votes, ScheduleAddress>::Cancelled(w1, a1, b1))) == deciding(Some(ReferendumInfo::<TrackId, Origin, Moment, Hash, Balance, Tally, AccountId, Votes, ScheduleAddress>::Cancelled(w2, a2, b2))),
        deciding_and_failing(Some(ReferendumInfo::<TrackId, Origin, Moment, Hash, Balance, Tally, AccountId, Votes, ScheduleAddress>::Cancelled(w1, a1, b1))) == deciding_and_failing(Some(ReferendumInfo::<TrackId, Origin, Moment, Hash, Balance, Tally, AccountId, Votes, ScheduleAddress>::Cancelled(w2, a2, b2))),
        confirming(Some(ReferendumInfo::<TrackId, Origin, Moment, Hash, Balance, Tally, AccountId, Votes, ScheduleAddress>::Cancelled(w1, a1, b1))) == confirming(Some(ReferendumInfo::<TrackId, Origin, Moment, Hash, Balance, Tally, AccountId, Votes, ScheduleAddress>::Cancelled(w2, a2, b2))),
        approved(Some(ReferendumInfo::<TrackId, Origin, Moment, Hash, Balance, Tally, AccountId, Votes, ScheduleAddress>::Cancelled(w1, a1, b1))) == approved(Some(ReferendumInfo::<TrackId, Origin, Moment, Hash, Balance, Tally, AccountId, Votes, ScheduleAddress>::Cancelled(w2, a2, b2))),
        rejected(Some(ReferendumInfo::<TrackId, Origin, Moment, Hash, Balance, Tally, AccountId, Votes, ScheduleAddress>::Cancelled(w1, a1, b1))) == rejected(Some(ReferendumInfo::<TrackId, Origin, Moment, Hash, Balance, Tally, AccountId, Votes, ScheduleAddress>::Cancelled(w2, a2, b2))),
        cancelled(Some(ReferendumInfo::<TrackId, Origin, Moment, Hash, Balance, Tally, AccountId, Votes, ScheduleAddress>::Cancelled(w1, a1, b1))) == cancelled(Some(ReferendumInfo::<TrackId, Origin, Moment, Hash, Balance, Tally, AccountId, Votes, ScheduleAddress>::Cancelled(w2, a2, b2))),
        killed(Some(ReferendumInfo::<TrackId, Origin, Moment, Hash, Balance, Tally, AccountId, Votes, ScheduleAddress>::Cancelled(w1, a1, b1))) == killed(Some(ReferendumInfo::<TrackId, Origin, Moment, Hash, Balance, Tally, AccountId, Votes, ScheduleAddress>::Cancelled(w2, a2, b2))),
        waiting(Some(ReferendumInfo::<TrackId, Origin, Moment, Hash, Balance, Tally, AccountId, Votes, ScheduleAddress>::TimedOut(w1, a1, b1))) == waiting(Some(ReferendumInfo::<TrackId, Origin, Moment, Hash, Balance, Tally, AccountId, Votes, ScheduleAddress>::TimedOut(w2, a2, b2))),
        deciding(Some(ReferendumInfo::<TrackId, Origin, Moment, Hash, Balance, Tally, AccountId, Votes, ScheduleAddress>::TimedOut(w1, a1, b1))) == deciding(Some(ReferendumInfo::<TrackId, Origin, Moment, Hash, Balance, Tally, AccountId, Votes, ScheduleAddress>::TimedOut(w2, a2, b2))),
        deciding_and_failing(Some(ReferendumInfo::<TrackId, Origin, Moment, Hash, Balance, Tally, AccountId, Votes, ScheduleAddress>::TimedOut(w1, a1, b1))) == deciding_and_failing(Some(ReferendumInfo::<TrackId, Origin, Moment, Hash, Balance, Tally, AccountId, Votes, ScheduleAddress>::TimedOut(w2, a2, b2))),
        confirming(Some(ReferendumInfo::<TrackId, Origin, Moment, Hash, Balance, Tally, AccountId, Votes, ScheduleAddress>::TimedOut(w1, a1, b1))) == confirming(Some(ReferendumInfo::<TrackId, Origin, Moment, Hash, Balance, Tally, AccountId, Votes, ScheduleAddress>::TimedOut(w2, a2, b2))),
        approved(Some(ReferendumInfo::<TrackId, Origin, Moment, Hash, Balance, Tally, AccountId, Votes, ScheduleAddress>::TimedOut(w1, a1, b1))) == approved(Some(ReferendumInfo::<TrackId, Origin, Moment, Hash, Balance, Tally, AccountId, Votes, ScheduleAddress>::TimedOut(w2, a2, b2))),
        rejected(Some(ReferendumInfo::<TrackId, Origin, Moment, Hash, Balance, Tally, AccountId, Votes, ScheduleAddress>::TimedOut(w1, a1, b1))) == rejected(Some(ReferendumInfo::<TrackId, Origin, Moment, Hash, Balance, Tally, AccountId, Votes, ScheduleAddress>::TimedOut(w2, a2, b2))),
        cancelled(Some(ReferendumInfo::<TrackId, Origin, Moment, Hash, Balance, Tally, AccountId, Votes, ScheduleAddress>::TimedOut(w1, a1, b1))) == cancelled(Some(ReferendumInfo::<TrackId, Origin, Moment, Hash, Balance, Tally, AccountId, Votes, ScheduleAddress>::TimedOut(w2, a2, b2))),
        killed(Some(ReferendumInfo::<TrackId, Origin, Moment, Hash, Balance, Tally, AccountId, Votes, ScheduleAddress>::TimedOut(w1, a1, b1))) == killed(Some(ReferendumInfo::<TrackId, Origin, Moment, Hash, Balance, Tally, AccountId, Votes, ScheduleAddress>::TimedOut(w2, a2, b2))),
        waiting(Some(ReferendumInfo::<TrackId, Origin, Moment, Hash, Balance, Tally, AccountId, Votes, ScheduleAddress>::Killed(w1))) == waiting(Some(ReferendumInfo::<TrackId, Origin, Moment, Hash, Balance, Tally, AccountId, Votes, ScheduleAddress>::Killed(w2))),
        deciding(Some(ReferendumInfo::<TrackId, Origin, Moment, Hash, Balance, Tally, AccountId, Votes, ScheduleAddress>::Killed(w1))) == deciding(Some(ReferendumInfo::<TrackId, Origin, Moment, Hash, Balance, Tally, AccountId, Votes, ScheduleAddress>::Killed(w2))),
        deciding_and_failing(Some(ReferendumInfo::<TrackId, Origin, Moment, Hash, Balance, Tally, AccountId, Votes, ScheduleAddress>::Killed(w1))) == deciding_and_failing(Some(ReferendumInfo::<TrackId, Origin, Moment, Hash, Balance, Tally, AccountId, Votes, ScheduleAddress>::Killed(w2))),
        confirming(Some(ReferendumInfo::<TrackId, Origin, Moment, Hash, Balance, Tally, AccountId, Votes, ScheduleAddress>::Killed(w1))) == confirming(Some(ReferendumInfo::<TrackId, Origin, Moment, Hash, Balance, Tally, AccountId, Votes, ScheduleAddress>::Killed(w2))),
        approved(Some(ReferendumInfo::<TrackId, Origin, Moment, Hash, Balance, Tally, AccountId, Votes, ScheduleAddress>::Killed(w1))) == approved(Some(ReferendumInfo::<TrackId, Origin, Moment, Hash, Balance, Tally, AccountId, Votes, ScheduleAddress>::Killed(w2))),
        rejected(Some(ReferendumInfo::<TrackId, Origin, Moment, Hash, Balance, Tally, AccountId, Votes, ScheduleAddress>::Killed(w1))) == rejected(Some(ReferendumInfo::<TrackId, Origin, Moment, Hash, Balance, Tally, AccountId, Votes, ScheduleAddress>::Killed(w2))),
        cancelled(Some(ReferendumInfo::<TrackId, Origin, Moment, Hash, Balance, Tally, AccountId, Votes, ScheduleAddress>::Killed(w1))) == cancelled(Some(ReferendumInfo::<TrackId, Origin, Moment, Hash, Balance, Tally, AccountId, Votes, ScheduleAddress>::Killed(w2))),
        killed(Some(ReferendumInfo::<TrackId, Origin, Moment, Hash, Balance, Tally, AccountId, Votes, ScheduleAddress>::Killed(w1))) == killed(Some(ReferendumInfo::<TrackId, Origin, Moment, Hash, Balance, Tally, AccountId, Votes, ScheduleAddress>::Killed(w2))),
{
}

} // verus!
