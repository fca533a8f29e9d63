use referenda::status::{
    is_approved, is_cancelled, is_confirming, is_deciding, is_deciding_and_failing, is_killed,
    is_rejected, is_waiting,
};
use referenda::types::{AtOrAfter, DecidingStatus, Deposit, ReferendumInfo, ReferendumStatus};

/// Stand-ins for the runtime's own types: a caller origin, a proposal hash,
/// a tally of ayes and nays, and a scheduler address.
#[derive(Clone, Debug, PartialEq, Eq)]
enum Origin {
    Root,
    Nobody,
}

#[derive(Clone, Copy, Debug, PartialEq, Eq)]
struct Tally {
    ayes: u32,
    nays: u32,
}

type Status = ReferendumStatus<u8, Origin, u64, [u8; 32], u64, Tally, u64, u32, (u64, u32)>;
type Info = ReferendumInfo<u8, Origin, u64, [u8; 32], u64, Tally, u64, u32, (u64, u32)>;

fn proposal_hash(i: u8) -> [u8; 32] {
    [i; 32]
}

/// The first referendum as it stands right after submission on the root
/// track with a decision deposit placed: not yet deciding.
fn waiting_status() -> Status {
    ReferendumStatus {
        track: 0,
        origin: Origin::Root,
        proposal_hash: proposal_hash(1),
        enactment: AtOrAfter::At(10),
        submitted: 1,
        submission_deposit: Deposit { who: 1, amount: 2 },
        decision_deposit: Some(Deposit { who: 3, amount: 10 }),
        deciding: None,
        tally: Tally { ayes: 0, nays: 0 },
        ayes_in_queue: None,
        alarm: Some((5, (5, 0))),
    }
}

fn with_deciding(since: u64, confirming: Option<u64>) -> Info {
    let mut s = waiting_status();
    s.deciding = Some(DecidingStatus { since, confirming });
    ReferendumInfo::Ongoing(s)
}

fn confirming_info() -> Option<Info> {
    Some(with_deciding(5, Some(6)))
}

fn failing_info() -> Option<Info> {
    Some(with_deciding(5, None))
}

/// The answers of all eight questions, in the order waiting, deciding,
/// deciding and failing, confirming, approved, rejected, cancelled, killed.
fn answers(info: &Option<Info>) -> [bool; 8] {
    [
        is_waiting(info),
        is_deciding(info),
        is_deciding_and_failing(info),
        is_confirming(info),
        is_approved(info),
        is_rejected(info),
        is_cancelled(info),
        is_killed(info),
    ]
}

#[test]
fn confirming_then_fail_works() {
    let confirming = confirming_info();
    assert!(is_deciding(&confirming));
    assert!(is_confirming(&confirming));
    assert!(!is_deciding_and_failing(&confirming));

    let failed = failing_info();
    assert!(is_deciding(&failed));
    assert!(is_deciding_and_failing(&failed));
    assert!(!is_confirming(&failed));
}

#[test]
fn confirming_then_reconfirming_works() {
    let states = [confirming_info(), failing_info(), Some(with_deciding(5, Some(9)))];
    let expected_confirming = [true, false, true];
    for (info, expected) in states.iter().zip(expected_confirming.iter()) {
        assert!(is_deciding(info));
        assert_eq!(is_confirming(info), *expected);
        assert_eq!(is_deciding_and_failing(info), !*expected);
    }
}

#[test]
fn kill_when_confirming_works() {
    let confirming = confirming_info();
    assert!(is_confirming(&confirming));
    assert!(!is_killed(&confirming));

    let killed: Option<Info> = Some(ReferendumInfo::Killed(8));
    assert!(is_killed(&killed));
    assert!(!is_confirming(&killed));
    assert!(!is_deciding(&killed));
}

#[test]
fn submitted_referendum_is_waiting() {
    let info = Some(ReferendumInfo::Ongoing(waiting_status()));
    assert_eq!(answers(&info), [true, false, false, false, false, false, false, false]);
}

#[test]
fn second_track_referendum_is_waiting() {
    let mut s = waiting_status();
    s.track = 1;
    s.origin = Origin::Nobody;
    s.proposal_hash = proposal_hash(2);
    s.enactment = AtOrAfter::At(20);
    s.submission_deposit = Deposit { who: 2, amount: 2 };
    s.decision_deposit = Some(Deposit { who: 4, amount: 1 });
    s.alarm = Some((3, (3, 0)));
    let info = Some(ReferendumInfo::Ongoing(s));
    assert!(is_waiting(&info));
    assert!(!is_deciding(&info));
}

#[test]
fn waiting_without_decision_deposit() {
    let mut s = waiting_status();
    s.decision_deposit = None;
    s.alarm = None;
    s.enactment = AtOrAfter::After(0);
    let info = Some(ReferendumInfo::Ongoing(s));
    assert!(is_waiting(&info));
}

#[test]
fn deciding_and_failing_answers() {
    assert_eq!(answers(&failing_info()), [false, true, true, false, false, false, false, false]);
}

#[test]
fn confirming_answers() {
    assert_eq!(answers(&confirming_info()), [false, true, false, true, false, false, false, false]);
}

#[test]
fn approved_answers() {
    let info: Option<Info> = Some(ReferendumInfo::Approved(8, Deposit { who: 1, amount: 2 }, None));
    assert_eq!(answers(&info), [false, false, false, false, true, false, false, false]);
}

#[test]
fn rejected_answers() {
    let info: Option<Info> = Some(ReferendumInfo::Rejected(
        12,
        Deposit { who: 1, amount: 2 },
        Some(Deposit { who: 2, amount: 10 }),
    ));
    assert_eq!(answers(&info), [false, false, false, false, false, true, false, false]);
}

#[test]
fn cancelled_answers() {
    let info: Option<Info> = Some(ReferendumInfo::Cancelled(8, Deposit { who: 1, amount: 2 }, None));
    assert_eq!(answers(&info), [false, false, false, false, false, false, true, false]);
}

#[test]
fn killed_answers() {
    let info: Option<Info> = Some(ReferendumInfo::Killed(8));
    assert_eq!(answers(&info), [false, false, false, false, false, false, false, true]);
}

#[test]
fn timed_out_answers_nothing() {
    let info: Option<Info> = Some(ReferendumInfo::TimedOut(21, Deposit { who: 1, amount: 2 }, None));
    assert_eq!(answers(&info), [false; 8]);
}

#[test]
fn absent_referendum_answers_nothing() {
    let info: Option<Info> = None;
    assert_eq!(answers(&info), [false; 8]);
}

/// Deciding is failing or confirming and never both, on every kind of info.
#[test]
fn deciding_splits_into_failing_or_confirming() {
    for info in all_kinds() {
        assert_eq!(is_deciding(&info), is_deciding_and_failing(&info) || is_confirming(&info));
        assert!(!(is_deciding_and_failing(&info) && is_confirming(&info)));
    }
}

/// Ongoing is waiting or deciding and never both, on every kind of info.
#[test]
fn ongoing_splits_into_waiting_or_deciding() {
    for info in all_kinds() {
        let ongoing = matches!(info, Some(ReferendumInfo::Ongoing(_)));
        assert_eq!(ongoing, is_waiting(&info) || is_deciding(&info));
        assert!(!(is_waiting(&info) && is_deciding(&info)));
    }
}

/// Exactly one stage holds unless the referendum is absent or timed out.
#[test]
fn exactly_one_stage_holds() {
    for info in all_kinds() {
        let a = answers(&info);
        let stages = [a[0], a[2], a[3], a[4], a[5], a[6], a[7]];
        let count = stages.iter().filter(|b| **b).count();
        let expected = match info {
            None | Some(ReferendumInfo::TimedOut(..)) => 0,
            _ => 1,
        };
        assert_eq!(count, expected);
    }
}

fn all_kinds() -> Vec<Option<Info>> {
    let d = Deposit { who: 1, amount: 2 };
    vec![
        None,
        Some(ReferendumInfo::Ongoing(waiting_status())),
        failing_info(),
        confirming_info(),
        Some(ReferendumInfo::Approved(8, d, None)),
        Some(ReferendumInfo::Rejected(8, d, None)),
        Some(ReferendumInfo::Cancelled(8, d, None)),
        Some(ReferendumInfo::TimedOut(8, d, None)),
        Some(ReferendumInfo::Killed(8)),
    ]
}
