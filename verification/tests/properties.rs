use stream_escrow::amount::{checked_share, split_fee};
use stream_escrow::escrow::split_is_whole;
use stream_escrow::window::window_state;
use stream_escrow::{
    Address, Effects, Error, Escrow, EscrowStatus, Event, Milestone, MilestoneStatus, Operation,
    Party, StreamEscrow, Transfer, Window,
};

const DAY: u64 = 86_400;

fn party(key: &str) -> Address {
    Address { key: String::from(key) }
}

fn plain(bps: u32) -> Milestone {
    Milestone {
        title: String::from("work"),
        trigger_keyword: String::from("feat/work"),
        bps,
        status: MilestoneStatus::Pending,
        pr_url: None,
        completed_at: None,
    }
}

fn split(shares: &[u32]) -> Vec<Milestone> {
    shares.iter().map(|bps| plain(*bps)).collect()
}

fn try_open(total: i128, shares: &[u32], window: u64) -> (StreamEscrow, Result<Effects, Error>) {
    let mut escrow = StreamEscrow::new();
    let result = escrow.initialize(
        party("client"),
        party("developer"),
        party("backend"),
        party("token"),
        total,
        split(shares),
        window,
    );
    (escrow, result)
}

fn open(total: i128, shares: &[u32], window: u64) -> StreamEscrow {
    let (escrow, result) = try_open(total, shares, window);
    result.unwrap();
    escrow
}

fn url() -> String {
    String::from("https://example.org/pull/7")
}

fn sent_to(effects: &Effects, to: Party) -> i128 {
    effects.transfers.iter().filter(|t| t.to == to).map(|t| t.amount).sum()
}

fn shares_left(escrow: &StreamEscrow) -> i128 {
    let (total, _, _) = escrow.get_balance().unwrap();
    escrow
        .get_milestones()
        .unwrap()
        .iter()
        .filter(|m| !m.status.is_resolved())
        .map(|m| StreamEscrow::milestone_amount(total, m.bps))
        .sum()
}

// ---- amount math ----

#[test]
fn share_is_total_times_bps_over_ten_thousand() {
    assert_eq!(StreamEscrow::milestone_amount(1_000_0000000, 3000), 300_0000000);
    assert_eq!(StreamEscrow::milestone_amount(1_000_0000000, 10_000), 1_000_0000000);
    assert_eq!(StreamEscrow::milestone_amount(1_000_0000000, 1), 100_0000);
    assert_eq!(StreamEscrow::milestone_amount(0, 5000), 0);
}

#[test]
fn share_drops_the_fraction_toward_zero() {
    assert_eq!(StreamEscrow::milestone_amount(7, 5000), 3);
    assert_eq!(StreamEscrow::milestone_amount(-7, 5000), -3);
    assert_eq!(StreamEscrow::milestone_amount(100, 3333), 33);
    assert_eq!(StreamEscrow::milestone_amount(1, 9999), 0);
}

#[test]
fn checked_share_refuses_a_product_that_does_not_fit() {
    assert_eq!(checked_share(1_000_0000000, 3000), Some(300_0000000));
    assert_eq!(checked_share(i128::MAX, 1), Some(i128::MAX / 10_000));
    assert_eq!(checked_share(i128::MAX, 2), None);
    assert_eq!(checked_share(i128::MIN, 10_000), None);
    assert_eq!(checked_share(i128::MAX / 10_000, 10_000), Some(i128::MAX / 10_000));
}

#[test]
fn fee_is_a_hundredth_with_the_fraction_dropped() {
    assert_eq!(split_fee(300_0000000), (297_0000000, 3_0000000));
    assert_eq!(split_fee(299), (297, 2));
    assert_eq!(split_fee(99), (99, 0));
    assert_eq!(split_fee(100), (99, 1));
    assert_eq!(split_fee(0), (0, 0));
    assert_eq!(split_fee(-250), (-248, -2));
}

// ---- dispute window ----

#[test]
fn window_is_open_until_the_deadline_and_closed_from_it() {
    assert_eq!(window_state(1_000, 259_200, 1_000), Ok(Window::Open { remaining: 259_200 }));
    assert_eq!(window_state(1_000, 259_200, 1_100), Ok(Window::Open { remaining: 259_100 }));
    assert_eq!(window_state(1_000, 259_200, 260_199), Ok(Window::Open { remaining: 1 }));
    assert_eq!(window_state(1_000, 259_200, 260_200), Ok(Window::Closed));
    assert_eq!(window_state(1_000, 259_200, u64::MAX), Ok(Window::Closed));
    assert_eq!(window_state(1_000, 259_200, 0), Ok(Window::Open { remaining: 260_200 }));
}

#[test]
fn window_of_zero_seconds_is_absent() {
    assert_eq!(window_state(1_000, 0, 0), Ok(Window::Absent));
    assert_eq!(window_state(u64::MAX, 0, 5), Ok(Window::Absent));
}

#[test]
fn window_deadline_that_does_not_fit_is_an_overflow() {
    assert_eq!(window_state(u64::MAX, 1, 0), Err(Error::Overflow));
    assert_eq!(window_state(u64::MAX - 10, 11, 0), Err(Error::Overflow));
    assert_eq!(window_state(u64::MAX - 10, 10, 0), Ok(Window::Open { remaining: u64::MAX }));
}

#[test]
fn time_until_auto_release_counts_down_second_by_second() {
    let mut escrow = open(1_000, &[10_000], 3 * DAY);
    assert_eq!(escrow.time_until_auto_release(50, 0), Ok(0));
    escrow.mark_complete(50, 0, url()).unwrap();
    assert_eq!(escrow.time_until_auto_release(50, 0), Ok(259_200));
    assert_eq!(escrow.time_until_auto_release(51, 0), Ok(259_199));
    assert_eq!(escrow.time_until_auto_release(150, 0), Ok(259_100));
    assert_eq!(escrow.time_until_auto_release(259_249, 0), Ok(1));
    assert_eq!(escrow.time_until_auto_release(259_250, 0), Ok(0));
    assert_eq!(escrow.time_until_auto_release(259_251, 0), Ok(0));
    assert_eq!(escrow.time_until_auto_release(0, 1), Err(Error::MilestoneNotFound));
    escrow.approve(0).unwrap();
    assert_eq!(escrow.time_until_auto_release(60, 0), Ok(0));
}

#[test]
fn time_until_auto_release_is_zero_without_a_window() {
    let mut escrow = open(1_000, &[10_000], 0);
    escrow.mark_complete(50, 0, url()).unwrap();
    assert_eq!(escrow.time_until_auto_release(50, 0), Ok(0));
}

// ---- initialization ----

#[test]
fn initialize_accepts_one_to_ten_positive_shares_that_make_the_whole() {
    assert!(try_open(1, &[10_000], 0).1.is_ok());
    assert!(try_open(1, &[1, 9_999], 0).1.is_ok());
    assert!(try_open(5, &[1_000; 10], 7).1.is_ok());
}

#[test]
fn initialize_refuses_what_is_not_a_valid_split() {
    assert_eq!(try_open(5, &[], 0).1, Err(Error::NoMilestones));
    assert_eq!(try_open(5, &[1_000; 11], 0).1, Err(Error::TooManyMilestones));
    let mut eleven = vec![909; 10];
    eleven.push(910);
    assert_eq!(try_open(5, &eleven, 0).1, Err(Error::TooManyMilestones));
    assert_eq!(try_open(5, &[9_999], 0).1, Err(Error::InvalidMilestoneBps));
    assert_eq!(try_open(5, &[10_001], 0).1, Err(Error::InvalidMilestoneBps));
    assert_eq!(try_open(5, &[5_000, 5_001], 0).1, Err(Error::InvalidMilestoneBps));
    assert_eq!(try_open(5, &[0, 10_000], 0).1, Err(Error::InvalidMilestoneBps));
    assert_eq!(try_open(5, &[5_000, 0, 5_000], 0).1, Err(Error::InvalidMilestoneBps));
    assert_eq!(try_open(5, &[u32::MAX; 10], 0).1, Err(Error::InvalidMilestoneBps));
}

#[test]
fn initialize_refuses_an_amount_that_is_not_positive() {
    assert_eq!(try_open(0, &[10_000], 0).1, Err(Error::InvalidAmount));
    assert_eq!(try_open(-1, &[10_000], 0).1, Err(Error::InvalidAmount));
    assert_eq!(try_open(i128::MIN, &[10_000], 0).1, Err(Error::InvalidAmount));
    assert_eq!(try_open(0, &[], 0).1, Err(Error::InvalidAmount));
}

#[test]
fn initialize_refused_leaves_nothing_behind() {
    let (escrow, result) = try_open(5, &[9_999], 0);
    assert!(result.is_err());
    assert_eq!(escrow, StreamEscrow::new());
    assert_eq!(escrow.get_status(), Err(Error::NotInitialized));
}

#[test]
fn initialize_asks_for_the_deposit_and_stores_the_terms() {
    let (escrow, result) = try_open(1_000, &[2_500, 7_500], 99);
    assert_eq!(
        result,
        Ok(Effects {
            transfers: vec![Transfer { from: Party::Client, to: Party::Escrow, amount: 1_000 }],
            events: vec![Event::Initialized { total_amount: 1_000, milestone_count: 2 }],
        })
    );
    assert_eq!(
        escrow,
        StreamEscrow {
            escrow: Some(Escrow {
                client: party("client"),
                developer: party("developer"),
                backend: party("backend"),
                token: party("token"),
                total_amount: 1_000,
                released_amount: 0,
                status: EscrowStatus::Active,
                dispute_window: 99,
                milestones: split(&[2_500, 7_500]),
            }),
        }
    );
}

#[test]
fn initialize_twice_keeps_the_first_escrow() {
    let mut escrow = open(1_000, &[10_000], 0);
    let before = escrow.clone();
    let again = escrow.initialize(
        party("other"),
        party("other"),
        party("other"),
        party("other"),
        7,
        split(&[10_000]),
        1,
    );
    assert_eq!(again, Err(Error::AlreadyInitialized));
    assert_eq!(escrow, before);
}

// ---- every operation needs an escrow ----

#[test]
fn nothing_works_before_initialization() {
    let mut escrow = StreamEscrow::new();
    assert_eq!(escrow.mark_complete(0, 0, url()), Err(Error::NotInitialized));
    assert_eq!(escrow.approve(0), Err(Error::NotInitialized));
    assert_eq!(escrow.auto_release(0, 0), Err(Error::NotInitialized));
    assert_eq!(escrow.dispute(0, 0, String::from("why")), Err(Error::NotInitialized));
    assert_eq!(escrow.resolve_dispute(0, true), Err(Error::NotInitialized));
    assert_eq!(escrow.cancel(), Err(Error::NotInitialized));
    assert_eq!(escrow.apply(Operation::Cancel, 0), Err(Error::NotInitialized));
    assert_eq!(escrow.get_milestones(), Err(Error::NotInitialized));
    assert_eq!(escrow.get_milestone(0), Err(Error::NotInitialized));
    assert_eq!(escrow.get_status(), Err(Error::NotInitialized));
    assert_eq!(escrow.get_balance(), Err(Error::NotInitialized));
    assert_eq!(escrow.time_until_auto_release(0, 0), Err(Error::NotInitialized));
    assert_eq!(escrow, StreamEscrow::new());
}

// ---- the operations, one by one ----

#[test]
fn mark_complete_records_evidence_and_time_together() {
    let mut escrow = open(1_000, &[4_000, 6_000], DAY);
    let effects = escrow.mark_complete(777, 1, url()).unwrap();
    assert_eq!(
        effects,
        Effects {
            transfers: vec![],
            events: vec![Event::MilestoneCompleted {
                milestone_index: 1,
                pr_url: url(),
                completed_at: 777,
            }],
        }
    );
    let attested = escrow.get_milestone(1).unwrap();
    assert_eq!(
        attested,
        Milestone {
            status: MilestoneStatus::PendingRelease,
            pr_url: Some(url()),
            completed_at: Some(777),
            ..plain(6_000)
        }
    );
    assert_eq!(escrow.get_milestone(0), Ok(plain(4_000)));
    assert_eq!(escrow.get_balance(), Ok((1_000, 0, 1_000)));
    assert_eq!(escrow.get_status(), Ok(EscrowStatus::Active));
}

#[test]
fn mark_complete_refuses_a_missing_or_attested_milestone() {
    let mut escrow = open(1_000, &[4_000, 6_000], DAY);
    assert_eq!(escrow.mark_complete(0, 2, url()), Err(Error::MilestoneNotFound));
    assert_eq!(escrow.mark_complete(0, u32::MAX, url()), Err(Error::MilestoneNotFound));
    escrow.mark_complete(0, 0, url()).unwrap();
    let before = escrow.clone();
    assert_eq!(
        escrow.mark_complete(9, 0, String::from("other")),
        Err(Error::MilestoneAlreadyCompleted)
    );
    assert_eq!(escrow, before);
}

#[test]
fn approve_pays_developer_and_fee_and_counts_the_whole_share() {
    let mut escrow = open(1_000_0000000, &[3_000, 7_000], DAY);
    escrow.mark_complete(10, 0, url()).unwrap();
    let effects = escrow.approve(0).unwrap();
    assert_eq!(
        effects,
        Effects {
            transfers: vec![
                Transfer { from: Party::Escrow, to: Party::Developer, amount: 297_0000000 },
                Transfer { from: Party::Escrow, to: Party::Backend, amount: 3_0000000 },
            ],
            events: vec![Event::FundsReleased {
                milestone_index: 0,
                recipient: Party::Developer,
                amount: 297_0000000,
                automatic: false,
            }],
        }
    );
    assert_eq!(escrow.get_balance(), Ok((1_000_0000000, 300_0000000, 700_0000000)));
    assert_eq!(escrow.get_milestone(0).unwrap().status, MilestoneStatus::Released);
    assert_eq!(escrow.get_milestone(0).unwrap().completed_at, Some(10));
    assert_eq!(escrow.get_status(), Ok(EscrowStatus::Active));
}

#[test]
fn approve_works_while_the_window_is_open() {
    let mut escrow = open(1_000, &[10_000], DAY);
    escrow.mark_complete(10, 0, url()).unwrap();
    assert_eq!(escrow.time_until_auto_release(10, 0), Ok(DAY));
    assert!(escrow.approve(0).is_ok());
}

#[test]
fn approve_refuses_a_milestone_that_does_not_wait_for_release() {
    let mut escrow = open(1_000, &[4_000, 6_000], DAY);
    let before = escrow.clone();
    assert_eq!(escrow.approve(0), Err(Error::MilestoneNotPendingRelease));
    assert_eq!(escrow.approve(2), Err(Error::MilestoneNotFound));
    assert_eq!(escrow, before);
    escrow.mark_complete(0, 0, url()).unwrap();
    escrow.dispute(1, 0, String::from("no")).unwrap();
    assert_eq!(escrow.approve(0), Err(Error::MilestoneNotPendingRelease));
}

#[test]
fn last_release_completes_the_escrow_and_says_so() {
    let mut escrow = open(200, &[5_000, 5_000], 0);
    escrow.mark_complete(0, 0, url()).unwrap();
    escrow.mark_complete(0, 1, url()).unwrap();
    let first = escrow.approve(1).unwrap();
    assert_eq!(first.events.len(), 1);
    assert_eq!(escrow.get_status(), Ok(EscrowStatus::Active));
    let last = escrow.approve(0).unwrap();
    assert_eq!(
        last.events,
        vec![
            Event::FundsReleased {
                milestone_index: 0,
                recipient: Party::Developer,
                amount: 99,
                automatic: false,
            },
            Event::Completed,
        ]
    );
    assert_eq!(escrow.get_status(), Ok(EscrowStatus::Completed));
    assert_eq!(escrow.get_balance(), Ok((200, 200, 0)));
}

#[test]
fn auto_release_waits_for_the_deadline() {
    let mut escrow = open(1_000, &[10_000], DAY);
    assert_eq!(escrow.auto_release(0, 0), Err(Error::MilestoneNotPendingRelease));
    assert_eq!(escrow.auto_release(0, 1), Err(Error::MilestoneNotFound));
    escrow.mark_complete(100, 0, url()).unwrap();
    let before = escrow.clone();
    assert_eq!(escrow.auto_release(100, 0), Err(Error::DisputeWindowOpen));
    assert_eq!(escrow.auto_release(100 + DAY - 1, 0), Err(Error::DisputeWindowOpen));
    assert_eq!(escrow.auto_release(0, 0), Err(Error::DisputeWindowOpen));
    assert_eq!(escrow, before);
    let effects = escrow.auto_release(100 + DAY, 0).unwrap();
    assert_eq!(
        effects.events,
        vec![
            Event::FundsReleased {
                milestone_index: 0,
                recipient: Party::Developer,
                amount: 990,
                automatic: true,
            },
            Event::Completed,
        ]
    );
    assert_eq!(sent_to(&effects, Party::Developer), 990);
    assert_eq!(sent_to(&effects, Party::Backend), 10);
}

#[test]
fn auto_release_happens_once() {
    let mut escrow = open(1_000, &[5_000, 5_000], DAY);
    escrow.mark_complete(0, 0, url()).unwrap();
    assert!(escrow.auto_release(DAY, 0).is_ok());
    let before = escrow.clone();
    assert_eq!(escrow.auto_release(DAY, 0), Err(Error::MilestoneNotPendingRelease));
    assert_eq!(escrow.auto_release(DAY + 5, 0), Err(Error::MilestoneNotPendingRelease));
    assert_eq!(escrow, before);
}

#[test]
fn dispute_freezes_the_milestone() {
    let mut escrow = open(1_000, &[10_000], DAY);
    escrow.mark_complete(100, 0, url()).unwrap();
    let effects = escrow.dispute(100 + DAY - 1, 0, String::from("not as agreed")).unwrap();
    assert_eq!(
        effects,
        Effects {
            transfers: vec![],
            events: vec![Event::DisputeOpened {
                milestone_index: 0,
                reason: String::from("not as agreed"),
                opened_at: 100 + DAY - 1,
            }],
        }
    );
    assert_eq!(escrow.get_milestone(0).unwrap().status, MilestoneStatus::Disputed);
    assert_eq!(escrow.get_milestone(0).unwrap().completed_at, Some(100));
    let before = escrow.clone();
    assert_eq!(escrow.approve(0), Err(Error::MilestoneNotPendingRelease));
    assert_eq!(escrow.auto_release(100 + 2 * DAY, 0), Err(Error::MilestoneNotPendingRelease));
    assert_eq!(escrow.cancel(), Err(Error::CannotCancelWithPendingMilestones));
    assert_eq!(escrow.dispute(100, 0, String::from("again")), Err(Error::MilestoneNotPendingRelease));
    assert_eq!(escrow.time_until_auto_release(100, 0), Ok(0));
    assert_eq!(escrow, before);
}

#[test]
fn dispute_needs_a_window_that_is_open() {
    let mut without = open(1_000, &[10_000], 0);
    without.mark_complete(0, 0, url()).unwrap();
    assert_eq!(without.dispute(0, 0, String::from("x")), Err(Error::NoDisputeWindow));
    assert_eq!(without.dispute(0, 9, String::from("x")), Err(Error::NoDisputeWindow));

    let mut with = open(1_000, &[5_000, 5_000], DAY);
    assert_eq!(with.dispute(0, 2, String::from("x")), Err(Error::MilestoneNotFound));
    assert_eq!(with.dispute(0, 0, String::from("x")), Err(Error::MilestoneNotPendingRelease));
    with.mark_complete(100, 0, url()).unwrap();
    assert_eq!(with.dispute(100 + DAY, 0, String::from("x")), Err(Error::DisputeWindowClosed));
    assert_eq!(with.dispute(u64::MAX, 0, String::from("x")), Err(Error::DisputeWindowClosed));
    assert_eq!(with.get_milestone(0).unwrap().status, MilestoneStatus::PendingRelease);
}

#[test]
fn resolve_dispute_for_the_developer_releases_with_the_fee() {
    let mut escrow = open(1_000_0000000, &[3_000, 7_000], DAY);
    escrow.mark_complete(0, 0, url()).unwrap();
    escrow.dispute(1, 0, String::from("no")).unwrap();
    let effects = escrow.resolve_dispute(0, true).unwrap();
    assert_eq!(
        effects,
        Effects {
            transfers: vec![
                Transfer { from: Party::Escrow, to: Party::Developer, amount: 297_0000000 },
                Transfer { from: Party::Escrow, to: Party::Backend, amount: 3_0000000 },
            ],
            events: vec![Event::FundsReleased {
                milestone_index: 0,
                recipient: Party::Developer,
                amount: 297_0000000,
                automatic: false,
            }],
        }
    );
    assert_eq!(escrow.get_milestone(0).unwrap().status, MilestoneStatus::Released);
    assert_eq!(escrow.get_balance(), Ok((1_000_0000000, 300_0000000, 700_0000000)));
}

#[test]
fn resolve_dispute_for_the_client_refunds_without_a_fee() {
    let mut escrow = open(1_000_0000000, &[3_000, 7_000], DAY);
    escrow.mark_complete(0, 0, url()).unwrap();
    escrow.dispute(1, 0, String::from("no")).unwrap();
    let effects = escrow.resolve_dispute(0, false).unwrap();
    assert_eq!(
        effects,
        Effects {
            transfers: vec![Transfer {
                from: Party::Escrow,
                to: Party::Client,
                amount: 300_0000000,
            }],
            events: vec![Event::DisputeResolved {
                milestone_index: 0,
                recipient: Party::Client,
                amount: 300_0000000,
            }],
        }
    );
    assert_eq!(escrow.get_milestone(0).unwrap().status, MilestoneStatus::Refunded);
    assert_eq!(escrow.get_balance(), Ok((1_000_0000000, 300_0000000, 700_0000000)));
    assert_eq!(escrow.get_status(), Ok(EscrowStatus::Active));
}

#[test]
fn refund_of_the_last_milestone_completes_the_escrow() {
    let mut escrow = open(500, &[10_000], DAY);
    escrow.mark_complete(0, 0, url()).unwrap();
    escrow.dispute(0, 0, String::from("no")).unwrap();
    let effects = escrow.resolve_dispute(0, false).unwrap();
    assert_eq!(
        effects.events,
        vec![
            Event::DisputeResolved { milestone_index: 0, recipient: Party::Client, amount: 500 },
            Event::Completed,
        ]
    );
    assert_eq!(escrow.get_status(), Ok(EscrowStatus::Completed));
    assert_eq!(escrow.cancel(), Err(Error::EscrowCompleted));
}

#[test]
fn resolve_dispute_needs_a_disputed_milestone() {
    let mut escrow = open(1_000, &[5_000, 5_000], DAY);
    assert_eq!(escrow.resolve_dispute(2, true), Err(Error::MilestoneNotFound));
    assert_eq!(escrow.resolve_dispute(0, true), Err(Error::MilestoneNotDisputed));
    escrow.mark_complete(0, 0, url()).unwrap();
    let before = escrow.clone();
    assert_eq!(escrow.resolve_dispute(0, false), Err(Error::MilestoneNotDisputed));
    assert_eq!(escrow, before);
}

#[test]
fn cancel_with_nothing_left_asks_for_no_transfer() {
    let mut escrow = StreamEscrow {
        escrow: Some(Escrow {
            client: party("client"),
            developer: party("developer"),
            backend: party("backend"),
            token: party("token"),
            total_amount: 100,
            released_amount: 100,
            status: EscrowStatus::Active,
            dispute_window: 0,
            milestones: split(&[10_000]),
        }),
    };
    assert_eq!(
        escrow.cancel(),
        Ok(Effects {
            transfers: vec![],
            events: vec![Event::Cancelled { recipient: Party::Client, refunded: 0 }],
        })
    );
    assert_eq!(escrow.get_status(), Ok(EscrowStatus::Cancelled));
}

#[test]
fn cancel_refunds_total_less_released() {
    let mut escrow = open(1_000, &[2_000, 8_000], 0);
    escrow.mark_complete(0, 0, url()).unwrap();
    escrow.approve(0).unwrap();
    assert_eq!(
        escrow.cancel(),
        Ok(Effects {
            transfers: vec![Transfer { from: Party::Escrow, to: Party::Client, amount: 800 }],
            events: vec![Event::Cancelled { recipient: Party::Client, refunded: 800 }],
        })
    );
    assert_eq!(escrow.get_balance(), Ok((1_000, 200, 800)));
    assert_eq!(escrow.get_milestone(1).unwrap().status, MilestoneStatus::Pending);
}

// ---- arithmetic that does not fit ----

#[test]
fn release_of_a_share_that_does_not_fit_is_an_overflow_and_changes_nothing() {
    let mut escrow = open(i128::MAX, &[5_000, 5_000], DAY);
    escrow.mark_complete(0, 0, url()).unwrap();
    let before = escrow.clone();
    assert_eq!(escrow.approve(0), Err(Error::Overflow));
    assert_eq!(escrow.auto_release(DAY, 0), Err(Error::Overflow));
    assert_eq!(escrow, before);
    escrow.dispute(1, 0, String::from("no")).unwrap();
    let disputed = escrow.clone();
    assert_eq!(escrow.resolve_dispute(0, true), Err(Error::Overflow));
    assert_eq!(escrow, disputed);
    assert_eq!(escrow.resolve_dispute(0, false), Err(Error::Overflow));
    assert_eq!(escrow, disputed);
    assert_eq!(escrow.get_milestone(0).unwrap().status, MilestoneStatus::Disputed);
}

#[test]
fn largest_total_whose_shares_fit_is_released() {
    let total = i128::MAX / 10_000;
    let mut escrow = open(total, &[10_000], 0);
    escrow.mark_complete(0, 0, url()).unwrap();
    let effects = escrow.approve(0).unwrap();
    assert_eq!(sent_to(&effects, Party::Developer) + sent_to(&effects, Party::Backend), total);
    assert_eq!(escrow.get_balance(), Ok((total, total, 0)));
}

#[test]
fn deadline_that_does_not_fit_is_an_overflow() {
    let mut escrow = open(1_000, &[10_000], 10);
    escrow.mark_complete(u64::MAX - 5, 0, url()).unwrap();
    let before = escrow.clone();
    assert_eq!(escrow.auto_release(u64::MAX, 0), Err(Error::Overflow));
    assert_eq!(escrow.dispute(u64::MAX, 0, String::from("x")), Err(Error::Overflow));
    assert_eq!(escrow.time_until_auto_release(u64::MAX, 0), Err(Error::Overflow));
    assert_eq!(escrow, before);
    assert!(escrow.approve(0).is_ok());
}

#[test]
fn balance_that_does_not_fit_is_an_overflow() {
    let mut escrow = StreamEscrow {
        escrow: Some(Escrow {
            client: party("client"),
            developer: party("developer"),
            backend: party("backend"),
            token: party("token"),
            total_amount: i128::MAX,
            released_amount: -1,
            status: EscrowStatus::Active,
            dispute_window: 0,
            milestones: split(&[10_000]),
        }),
    };
    assert_eq!(escrow.get_balance(), Err(Error::Overflow));
    let before = escrow.clone();
    assert_eq!(escrow.cancel(), Err(Error::Overflow));
    assert_eq!(escrow, before);
}

#[test]
fn milestone_without_a_completion_time_cannot_be_timed() {
    let mut untimed = plain(10_000);
    untimed.status = MilestoneStatus::PendingRelease;
    let mut escrow = StreamEscrow::new();
    escrow
        .initialize(
            party("client"),
            party("developer"),
            party("backend"),
            party("token"),
            1_000,
            vec![untimed],
            DAY,
        )
        .unwrap();
    let before = escrow.clone();
    assert_eq!(escrow.auto_release(5, 0), Err(Error::MilestoneNotCompleted));
    assert_eq!(escrow.dispute(5, 0, String::from("x")), Err(Error::MilestoneNotCompleted));
    assert_eq!(escrow.time_until_auto_release(5, 0), Err(Error::MilestoneNotCompleted));
    assert_eq!(escrow, before);
}

// ---- views ----

#[test]
fn views_read_without_changing() {
    let mut escrow = open(1_000, &[1_000, 2_000, 7_000], DAY);
    escrow.mark_complete(3, 1, url()).unwrap();
    let before = escrow.clone();
    let list = escrow.get_milestones().unwrap();
    assert_eq!(list.len(), 3);
    assert_eq!(list[0], plain(1_000));
    assert_eq!(list[1], escrow.get_milestone(1).unwrap());
    assert_eq!(list[1].status, MilestoneStatus::PendingRelease);
    assert_eq!(list[2], plain(7_000));
    assert_eq!(escrow.get_milestone(3), Err(Error::MilestoneNotFound));
    assert_eq!(escrow.get_balance(), Ok((1_000, 0, 1_000)));
    assert_eq!(escrow, before);
}

#[test]
fn status_predicates_tell_resolved_from_in_flight() {
    assert!(!MilestoneStatus::Pending.is_resolved());
    assert!(!MilestoneStatus::PendingRelease.is_resolved());
    assert!(MilestoneStatus::Released.is_resolved());
    assert!(!MilestoneStatus::Disputed.is_resolved());
    assert!(MilestoneStatus::Refunded.is_resolved());
    assert!(!MilestoneStatus::Pending.is_in_flight());
    assert!(MilestoneStatus::PendingRelease.is_in_flight());
    assert!(!MilestoneStatus::Released.is_in_flight());
    assert!(MilestoneStatus::Disputed.is_in_flight());
    assert!(!MilestoneStatus::Refunded.is_in_flight());
}

#[test]
fn every_error_has_its_code() {
    let codes = [
        (Error::AlreadyInitialized, 1),
        (Error::NotInitialized, 2),
        (Error::InvalidAmount, 10),
        (Error::NoMilestones, 11),
        (Error::TooManyMilestones, 12),
        (Error::InvalidMilestoneBps, 13),
        (Error::EscrowCompleted, 20),
        (Error::EscrowCancelled, 21),
        (Error::MilestoneNotFound, 30),
        (Error::MilestoneAlreadyCompleted, 31),
        (Error::MilestoneNotPendingRelease, 32),
        (Error::MilestoneNotCompleted, 33),
        (Error::MilestoneNotDisputed, 34),
        (Error::NoDisputeWindow, 40),
        (Error::DisputeWindowOpen, 41),
        (Error::DisputeWindowClosed, 42),
        (Error::ManualApprovalRequired, 50),
        (Error::CannotCancelWithPendingMilestones, 51),
        (Error::Overflow, 99),
    ];
    for (error, code) in codes {
        assert_eq!(error.code(), code);
    }
}

#[test]
fn apply_does_what_the_named_operation_does() {
    let mut by_name = open(1_000, &[5_000, 5_000], DAY);
    let mut by_value = by_name.clone();

    assert_eq!(
        by_value.apply(Operation::MarkComplete { milestone_index: 0, pr_url: url() }, 5),
        by_name.mark_complete(5, 0, url())
    );
    assert_eq!(
        by_value.apply(Operation::AutoRelease { milestone_index: 0 }, 6),
        by_name.auto_release(6, 0)
    );
    assert_eq!(
        by_value.apply(
            Operation::Dispute { milestone_index: 0, reason: String::from("late") },
            7
        ),
        by_name.dispute(7, 0, String::from("late"))
    );
    assert_eq!(
        by_value.apply(
            Operation::ResolveDispute { milestone_index: 0, release_to_developer: false },
            8
        ),
        by_name.resolve_dispute(0, false)
    );
    assert_eq!(
        by_value.apply(Operation::MarkComplete { milestone_index: 1, pr_url: url() }, 9),
        by_name.mark_complete(9, 1, url())
    );
    assert_eq!(by_value.apply(Operation::Cancel, 10), by_name.cancel());
    assert_eq!(by_value.apply(Operation::Approve { milestone_index: 1 }, 11), by_name.approve(1));
    assert_eq!(by_value, by_name);
    assert_eq!(by_value.get_status(), Ok(EscrowStatus::Completed));
    assert_eq!(by_value.get_milestone(0).unwrap().status, MilestoneStatus::Refunded);
    assert_eq!(by_value.get_milestone(1).unwrap().status, MilestoneStatus::Released);
}

// ---- laws, on chosen values ----

#[test]
fn conservation_holds_within_the_rounding_drift() {
    let mut escrow = open(100, &[3_333, 3_333, 3_334], DAY);
    let mut clock = 0;
    assert_eq!(shares_left(&escrow), 99);

    let steps: Vec<Operation> = vec![
        Operation::MarkComplete { milestone_index: 0, pr_url: url() },
        Operation::Approve { milestone_index: 0 },
        Operation::MarkComplete { milestone_index: 1, pr_url: url() },
        Operation::Dispute { milestone_index: 1, reason: String::from("no") },
        Operation::Approve { milestone_index: 1 },
        Operation::ResolveDispute { milestone_index: 1, release_to_developer: false },
        Operation::Approve { milestone_index: 2 },
        Operation::Cancel,
        Operation::MarkComplete { milestone_index: 2, pr_url: url() },
    ];
    let mut left_escrow: i128 = 0;
    let mut last_released = 0;
    for step in steps {
        clock += 10;
        if let Ok(effects) = escrow.apply(step, clock) {
            for transfer in &effects.transfers {
                assert_eq!(transfer.from, Party::Escrow);
                assert!(transfer.amount >= 0);
                left_escrow += transfer.amount;
            }
        }
        let (total, released, remaining) = escrow.get_balance().unwrap();
        assert_eq!(total, 100);
        assert_eq!(released + remaining, total);
        assert!(released >= last_released);
        last_released = released;
        if escrow.get_status() != Ok(EscrowStatus::Cancelled) {
            assert_eq!(left_escrow, released);
            let sum = released + shares_left(&escrow);
            assert!(total - 2 <= sum && sum <= total);
        }
    }
    assert_eq!(escrow.get_status(), Ok(EscrowStatus::Cancelled));
    assert_eq!(escrow.get_balance(), Ok((100, 66, 34)));
    assert_eq!(left_escrow, 100);
}

#[test]
fn resolved_milestone_refuses_every_operation_and_moves_nothing() {
    let mut escrow = open(1_000, &[5_000, 5_000], DAY);
    escrow.mark_complete(0, 0, url()).unwrap();
    escrow.approve(0).unwrap();
    escrow.mark_complete(0, 1, url()).unwrap();
    escrow.dispute(1, 1, String::from("no")).unwrap();
    let before = escrow.clone();
    for index in [0u32] {
        assert_eq!(escrow.mark_complete(5, index, url()), Err(Error::MilestoneAlreadyCompleted));
        assert_eq!(escrow.approve(index), Err(Error::MilestoneNotPendingRelease));
        assert_eq!(escrow.auto_release(9 * DAY, index), Err(Error::MilestoneNotPendingRelease));
        assert_eq!(
            escrow.dispute(5, index, String::from("x")),
            Err(Error::MilestoneNotPendingRelease)
        );
        assert_eq!(escrow.resolve_dispute(index, true), Err(Error::MilestoneNotDisputed));
        assert_eq!(escrow.resolve_dispute(index, false), Err(Error::MilestoneNotDisputed));
    }
    assert_eq!(escrow, before);

    escrow.resolve_dispute(1, false).unwrap();
    let done = escrow.clone();
    assert_eq!(escrow.get_milestone(1).unwrap().status, MilestoneStatus::Refunded);
    assert_eq!(escrow.resolve_dispute(1, false), Err(Error::EscrowCompleted));
    assert_eq!(escrow, done);
}

#[test]
fn finished_escrow_refuses_everything_and_stays_as_it_is() {
    let mut cancelled = open(1_000, &[10_000], DAY);
    cancelled.cancel().unwrap();
    let mut completed = open(1_000, &[10_000], DAY);
    completed.mark_complete(0, 0, url()).unwrap();
    completed.approve(0).unwrap();

    for (escrow, error) in
        [(&mut cancelled, Error::EscrowCancelled), (&mut completed, Error::EscrowCompleted)]
    {
        let before = escrow.clone();
        assert_eq!(escrow.mark_complete(1, 0, url()), Err(error));
        assert_eq!(escrow.approve(0), Err(error));
        assert_eq!(escrow.auto_release(9 * DAY, 0), Err(error));
        assert_eq!(escrow.dispute(1, 0, String::from("x")), Err(error));
        assert_eq!(escrow.resolve_dispute(0, true), Err(error));
        assert_eq!(escrow.cancel(), Err(error));
        assert_eq!(escrow.approve(7), Err(error));
        assert_eq!(*escrow, before);
    }
}

// ---- scenarios ----

#[test]
fn scenario_three_milestones_approved_in_order() {
    let total: i128 = 1_000_0000000;
    let mut escrow = open(total, &[3_000, 3_000, 4_000], 259_200);
    let mut developer: i128 = 0;
    let mut backend: i128 = 0;
    for index in 0u32..3 {
        escrow.mark_complete(0, index, url()).unwrap();
        let effects = escrow.approve(index).unwrap();
        developer += sent_to(&effects, Party::Developer);
        backend += sent_to(&effects, Party::Backend);
    }
    assert_eq!(escrow.get_status(), Ok(EscrowStatus::Completed));
    assert_eq!(developer, total * 99 / 100);
    assert_eq!(developer, 990_0000000);
    assert_eq!(backend, 10_0000000);
    assert_eq!(escrow.get_balance(), Ok((total, total, 0)));
}

#[test]
fn scenario_auto_release_before_and_after_the_window() {
    let total: i128 = 1_000_0000000;
    let t: u64 = 1_700_000_000;
    let mut escrow = open(total, &[3_000, 3_000, 4_000], 259_200);
    escrow.mark_complete(t, 0, url()).unwrap();
    assert_eq!(escrow.auto_release(t + 1, 0), Err(Error::DisputeWindowOpen));
    let effects = escrow.auto_release(t + 259_201, 0).unwrap();
    assert_eq!(sent_to(&effects, Party::Developer), 297_0000000);
    assert_eq!(sent_to(&effects, Party::Developer), total * 30 / 100 * 99 / 100);
}

#[test]
fn scenario_dispute_then_refund() {
    let total: i128 = 1_000_0000000;
    let mut escrow = open(total, &[3_000, 3_000, 4_000], 259_200);
    escrow.mark_complete(500, 1, url()).unwrap();
    escrow.dispute(500 + 259_199, 1, String::from("not delivered")).unwrap();
    let effects = escrow.resolve_dispute(1, false).unwrap();
    assert_eq!(sent_to(&effects, Party::Client), 300_0000000);
    assert_eq!(sent_to(&effects, Party::Backend), 0);
    assert_eq!(sent_to(&effects, Party::Developer), 0);
    assert_eq!(escrow.get_milestone(1).unwrap().status, MilestoneStatus::Refunded);
}

#[test]
fn scenario_cancel_blocked_then_allowed() {
    let total: i128 = 1_000_0000000;
    let mut escrow = open(total, &[3_000, 3_000, 4_000], 259_200);
    escrow.mark_complete(0, 0, url()).unwrap();
    assert_eq!(escrow.cancel(), Err(Error::CannotCancelWithPendingMilestones));
    assert_eq!(escrow.get_status(), Ok(EscrowStatus::Active));
    escrow.approve(0).unwrap();
    let (_, released, _) = escrow.get_balance().unwrap();
    let effects = escrow.cancel().unwrap();
    assert_eq!(sent_to(&effects, Party::Client), total - released);
    assert_eq!(sent_to(&effects, Party::Client), 700_0000000);
    assert_eq!(escrow.get_status(), Ok(EscrowStatus::Cancelled));
}

#[test]
fn split_is_whole_judges_lists_of_any_length() {
    assert!(split_is_whole(&split(&[10_000])));
    assert!(split_is_whole(&split(&[3_000, 3_000, 4_000])));
    assert!(split_is_whole(&split(&[500; 20])));
    assert!(!split_is_whole(&split(&[])));
    assert!(!split_is_whole(&split(&[500; 19])));
    assert!(!split_is_whole(&split(&[0, 10_000])));
    assert!(!split_is_whole(&split(&[u32::MAX, u32::MAX, 10_002])));
}

#[test]
fn each_operation_names_whose_consent_it_needs() {
    let initialize = Operation::Initialize {
        client: party("client"),
        developer: party("developer"),
        backend: party("backend"),
        token: party("token"),
        total_amount: 1,
        milestones: split(&[10_000]),
        dispute_window_secs: 0,
    };
    assert_eq!(initialize.authorizer(), Some(Party::Client));
    assert_eq!(
        Operation::MarkComplete { milestone_index: 0, pr_url: url() }.authorizer(),
        Some(Party::Backend)
    );
    assert_eq!(Operation::Approve { milestone_index: 0 }.authorizer(), Some(Party::Client));
    assert_eq!(Operation::AutoRelease { milestone_index: 0 }.authorizer(), None);
    assert_eq!(
        Operation::Dispute { milestone_index: 0, reason: String::from("x") }.authorizer(),
        Some(Party::Client)
    );
    assert_eq!(
        Operation::ResolveDispute { milestone_index: 0, release_to_developer: true }.authorizer(),
        Some(Party::Backend)
    );
    assert_eq!(Operation::Cancel.authorizer(), Some(Party::Client));
}

#[test]
fn apply_initializes_once() {
    let terms = || Operation::Initialize {
        client: party("client"),
        developer: party("developer"),
        backend: party("backend"),
        token: party("token"),
        total_amount: 1_000,
        milestones: split(&[2_500, 7_500]),
        dispute_window_secs: 99,
    };
    let mut escrow = StreamEscrow::new();
    assert_eq!(escrow.apply(Operation::Approve { milestone_index: 0 }, 0), Err(Error::NotInitialized));
    let (by_name, effects) = try_open(1_000, &[2_500, 7_500], 99);
    assert_eq!(escrow.apply(terms(), 5), effects);
    assert_eq!(escrow, by_name);
    let before = escrow.clone();
    assert_eq!(escrow.apply(terms(), 6), Err(Error::AlreadyInitialized));
    assert_eq!(escrow, before);
    escrow.cancel().unwrap();
    assert_eq!(escrow.apply(terms(), 7), Err(Error::AlreadyInitialized));
}
