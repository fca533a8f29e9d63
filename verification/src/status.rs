//! What stage a referendum is in.
//!
//! Each question is asked of what is stored for a referendum's index: `None`
//! where no referendum has that index, else its `ReferendumInfo`.

use vstd::prelude::*;
use crate::types::ReferendumInfo;

verus! {

/// The referendum exists and is ongoing, but its decision period has not begun.
pub open spec fn waiting<TrackId, Origin, Moment, Hash, Balance, Tally, AccountId, Votes, ScheduleAddress>(
    info: Option<ReferendumInfo<TrackId, Origin, Moment, Hash, Balance, Tally, AccountId, Votes, ScheduleAddress>>,
) -> bool {
    info matches Some(ReferendumInfo::Ongoing(s)) && s.deciding is None
}

/// Whether the referendum is ongoing and still waiting for its decision period to begin.
pub fn is_waiting<TrackId, Origin, Moment, Hash, Balance, Tally, AccountId, Votes, ScheduleAddress>(
    info: &Option<ReferendumInfo<TrackId, Origin, Moment, Hash, Balance, Tally, AccountId, Votes, ScheduleAddress>>,
) -> (r: bool)
    ensures
        r == waiting(*info),
{
    match info {
        Some(ReferendumInfo::Ongoing(s)) => s.deciding.is_none(),
        _ => false,
    }
}

/// The referendum exists, is ongoing and is in its decision period.
pub open spec fn deciding<TrackId, Origin, Moment, Hash, Balance, Tally, AccountId, Votes, ScheduleAddress>(
    info: Option<ReferendumInfo<TrackId, Origin, Moment, Hash, Balance, Tally, AccountId, Votes, ScheduleAddress>>,
) -> bool {
    info matches Some(ReferendumInfo::Ongoing(s)) && s.deciding is Some
}

/// Whether the referendum is ongoing and in its decision period, confirming or not.
pub fn is_deciding<TrackId, Origin, Moment, Hash, Balance, Tally, AccountId, Votes, ScheduleAddress>(
    info: &Option<ReferendumInfo<TrackId, Origin, Moment, Hash, Balance, Tally, AccountId, Votes, ScheduleAddress>>,
) -> (r: bool)
    ensures
        r == deciding(*info),
{
    match info {
        Some(ReferendumInfo::Ongoing(s)) => s.deciding.is_some(),
        _ => false,
    }
}

/// The referendum is in its decision period and is not confirming.
pub open spec fn deciding_and_failing<TrackId, Origin, Moment, Hash, Balance, Tally, AccountId, Votes, ScheduleAddress>(
    info: Option<ReferendumInfo<TrackId, Origin, Moment, Hash, Balance, Tally, AccountId, Votes, ScheduleAddress>>,
) -> bool {
    info matches Some(ReferendumInfo::Ongoing(s)) && s.deciding matches Some(d) && d.confirming is None
}

/// Whether the referendum is in its decision period without confirming, that is, currently failing.
pub fn is_deciding_and_failing<TrackId, Origin, Moment, Hash, Balance, Tally, AccountId, Votes, ScheduleAddress>(
    info: &Option<ReferendumInfo<TrackId, Origin, Moment, Hash, Balance, Tally, AccountId, Votes, ScheduleAddress>>,
) -> (r: bool)
    ensures
        r == deciding_and_failing(*info),
{
    match info {
        Some(ReferendumInfo::Ongoing(s)) => match &s.deciding {
            Some(d) => d.confirming.is_none(),
            None => false,
        },
        _ => false,
    }
}

/// The referendum is in its decision period and is confirming.
pub open spec fn confirming<TrackId, Origin, Moment, Hash, Balance, Tally, AccountId, Votes, ScheduleAddress>(
    info: Option<ReferendumInfo<TrackId, Origin, Moment, Hash, Balance, Tally, AccountId, Votes, ScheduleAddress>>,
) -> bool {
    info matches Some(ReferendumInfo::Ongoing(s)) && s.deciding matches Some(d) && d.confirming is Some
}

/// Whether the referendum is in its decision period and confirming, that is, currently passing.
pub fn is_confirming<TrackId, Origin, Moment, Hash, Balance, Tally, AccountId, Votes, ScheduleAddress>(
    info: &Option<ReferendumInfo<TrackId, Origin, Moment, Hash, Balance, Tally, AccountId, Votes, ScheduleAddress>>,
) -> (r: bool)
    ensures
        r == confirming(*info),
{
    match info {
        Some(ReferendumInfo::Ongoing(s)) => match &s.deciding {
            Some(d) => d.confirming.is_some(),
            None => false,
        },
        _ => false,
    }
}

/// The referendum exists and ended approved.
pub open spec fn approved<TrackId, Origin, Moment, Hash, Balance, Tally, AccountId, Votes, ScheduleAddress>(
    info: Option<ReferendumInfo<TrackId, Origin, Moment, Hash, Balance, Tally, AccountId, Votes, ScheduleAddress>>,
) -> bool {
    info matches Some(ReferendumInfo::Approved(..))
}

/// Whether the referendum ended approved.
pub fn is_approved<TrackId, Origin, Moment, Hash, Balance, Tally, AccountId, Votes, ScheduleAddress>(
    info: &Option<ReferendumInfo<TrackId, Origin, Moment, Hash, Balance, Tally, AccountId, Votes, ScheduleAddress>>,
) -> (r: bool)
    ensures
        r == approved(*info),
{
    match info {
        Some(ReferendumInfo::Approved(..)) => true,
        _ => false,
    }
}

/// The referendum exists and ended rejected.
pub open spec fn rejected<TrackId, Origin, Moment, Hash, Balance, Tally, AccountId, Votes, ScheduleAddress>(
    info: Option<ReferendumInfo<TrackId, Origin, Moment, Hash, Balance, Tally, AccountId, Votes, ScheduleAddress>>,
) -> bool {
    info matches Some(ReferendumInfo::Rejected(..))
}

/// Whether the referendum ended rejected.
pub fn is_rejected<TrackId, Origin, Moment, Hash, Balance, Tally, AccountId, Votes, ScheduleAddress>(
    info: &Option<ReferendumInfo<TrackId, Origin, Moment, Hash, Balance, Tally, AccountId, Votes, ScheduleAddress>>,
) -> (r: bool)
    ensures
        r == rejected(*info),
{
    match info {
        Some(ReferendumInfo::Rejected(..)) => true,
        _ => false,
    }
}

/// The referendum exists and was cancelled.
pub open spec fn cancelled<TrackId, Origin, Moment, Hash, Balance, Tally, AccountId, Votes, ScheduleAddress>(
    info: Option<ReferendumInfo<TrackId, Origin, Moment, Hash, Balance, Tally, AccountId, Votes, ScheduleAddress>>,
) -> bool {
    info matches Some(ReferendumInfo::Cancelled(..))
}

/// Whether the referendum was cancelled.
pub fn is_cancelled<TrackId, Origin, Moment, Hash, Balance, Tally, AccountId, Votes, ScheduleAddress>(
    info: &Option<ReferendumInfo<TrackId, Origin, Moment, Hash, Balance, Tally, AccountId, Votes, ScheduleAddress>>,
) -> (r: bool)
    ensures
        r == cancelled(*info),
{
    match info {
        Some(ReferendumInfo::Cancelled(..)) => true,
        _ => false,
    }
}

/// The referendum exists and was killed.
pub open spec fn killed<TrackId, Origin, Moment, Hash, Balance, Tally, AccountId, Votes, ScheduleAddress>(
    info: Option<ReferendumInfo<TrackId, Origin, Moment, Hash, Balance, Tally, AccountId, Votes, ScheduleAddress>>,
) -> bool {
    info matches Some(ReferendumInfo::Killed(..))
}

/// Whether the referendum was killed.
pub fn is_killed<TrackId, Origin, Moment, Hash, Balance, Tally, AccountId, Votes, ScheduleAddress>(
    info: &Option<ReferendumInfo<TrackId, Origin, Moment, Hash, Balance, Tally, AccountId, Votes, ScheduleAddress>>,
) -> (r: bool)
    ensures
        r == killed(*info),
{
    match info {
        Some(ReferendumInfo::Killed(..)) => true,
        _ => false,
    }
}

} // verus!
