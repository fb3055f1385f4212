use bullseye::consensus::{cast_vote, finalize_verification};
use bullseye::errors::ErrorCode;
use bullseye::lifecycle::{initialize_counter, initialize_goal, submit_for_verification, GoalCreation};
use bullseye::settlement::{claim_or_distribute, SettlementEvent};
use bullseye::state::{
    FailAction, FundsBurned, FundsClaimed, FundsSentToCompany, Goal, GoalCounter, GoalStatus,
    Pubkey, Transfer, Verification, VerificationFinalized, VerificationResult, MAX_AMOUNT,
    MIN_AMOUNT, UNITS_PER_COIN, VOTING_WINDOW,
};

const NOW: i64 = 1_700_000_000;
const DAY: i64 = 86_400;

fn key(b: u8) -> Pubkey {
    Pubkey { bytes: [b; 32] }
}

fn owner() -> Pubkey {
    key(1)
}

fn goal_key() -> Pubkey {
    key(2)
}

fn verification_key() -> Pubkey {
    key(3)
}

fn panel() -> [Pubkey; 3] {
    [key(10), key(11), key(12)]
}

fn burn() -> Pubkey {
    key(20)
}

fn company() -> Pubkey {
    key(21)
}

fn create(counter: &mut GoalCounter, amount: u64, fail_action: FailAction) -> Result<GoalCreation, ErrorCode> {
    initialize_goal(
        counter,
        owner(),
        goal_key(),
        "Run a marathon".to_string(),
        "Finish a full marathon under five hours".to_string(),
        amount,
        NOW + DAY,
        fail_action,
        panel(),
        NOW,
        254,
    )
}

fn submitted(fail_action: FailAction) -> (GoalCounter, Goal, Verification) {
    let mut counter = initialize_counter(owner(), 255);
    let mut goal = create(&mut counter, UNITS_PER_COIN, fail_action).unwrap().goal;
    let s = submit_for_verification(&mut goal, goal_key(), owner(), verification_key(), NOW, 253).unwrap();
    (counter, goal, s.verification)
}

#[test]
fn full_flow_two_yes_votes_claims_locked_amount() {
    let mut counter = initialize_counter(owner(), 255);
    let created = create(&mut counter, UNITS_PER_COIN, FailAction::Burn).unwrap();
    assert_eq!(created.deposit, Transfer { from: owner(), to: goal_key(), amount: 1_000_000_000 });
    let mut goal = created.goal;
    let s = submit_for_verification(&mut goal, goal_key(), owner(), verification_key(), NOW, 253).unwrap();
    let mut v = s.verification;
    cast_vote(&mut v, key(10), true).unwrap();
    cast_vote(&mut v, key(11), true).unwrap();
    cast_vote(&mut v, key(12), false).unwrap();
    let fin = finalize_verification(&mut v, NOW + 10).unwrap();
    assert_eq!(fin, VerificationFinalized { goal: goal_key(), result: VerificationResult::Success });
    let settled = claim_or_distribute(&mut goal, goal_key(), &mut counter, &v, burn(), company()).unwrap();
    assert_eq!(settled.payout, Transfer { from: goal_key(), to: owner(), amount: 1_000_000_000 });
    assert_eq!(
        settled.event,
        SettlementEvent::Claimed(FundsClaimed { goal: goal_key(), user: owner(), amount: 1_000_000_000 })
    );
    assert_eq!(goal.status, GoalStatus::Claimed);
    assert_eq!(counter.active_goal, None);
}

#[test]
fn creation_marks_goal_active_and_open() {
    let mut counter = initialize_counter(owner(), 255);
    let created = create(&mut counter, 2 * UNITS_PER_COIN, FailAction::CompanyWallet).unwrap();
    assert_eq!(created.goal.status, GoalStatus::Active);
    assert_eq!(created.goal.goal_number, 0);
    assert_eq!(created.goal.verification, None);
    assert_eq!(created.goal.created_at, NOW);
    assert_eq!(counter.count, 1);
    assert_eq!(counter.active_goal, Some(0));
    assert_eq!(created.deposit.amount, 2_000_000_000);
    assert_eq!(created.event.goal_number, 0);
    assert_eq!(created.event.amount, 2_000_000_000);
}

#[test]
fn second_goal_while_open_is_refused() {
    let mut counter = initialize_counter(owner(), 255);
    create(&mut counter, UNITS_PER_COIN, FailAction::Burn).unwrap();
    let before = counter;
    assert_eq!(create(&mut counter, 0, FailAction::Burn), Err(ErrorCode::ActiveGoalExists));
    let long = "x".repeat(101);
    let r = initialize_goal(&mut counter, owner(), goal_key(), long, String::new(), MAX_AMOUNT + 1, NOW - 1, FailAction::Burn, panel(), NOW, 0);
    assert_eq!(r, Err(ErrorCode::ActiveGoalExists));
    assert_eq!(counter, before);
}

#[test]
fn title_and_description_limits() {
    let mut counter = initialize_counter(owner(), 255);
    let ok_title = "é".repeat(100);
    let r = initialize_goal(&mut counter, owner(), goal_key(), "t".repeat(101), String::new(), MIN_AMOUNT, NOW + 1, FailAction::Burn, panel(), NOW, 0);
    assert_eq!(r, Err(ErrorCode::TitleTooLong));
    let r = initialize_goal(&mut counter, owner(), goal_key(), String::new(), "d".repeat(501), MIN_AMOUNT, NOW + 1, FailAction::Burn, panel(), NOW, 0);
    assert_eq!(r, Err(ErrorCode::DescriptionTooLong));
    assert_eq!(counter.count, 0);
    let r = initialize_goal(&mut counter, owner(), goal_key(), ok_title, "d".repeat(500), MIN_AMOUNT, NOW + 1, FailAction::Burn, panel(), NOW, 0);
    assert!(r.is_ok());
}

#[test]
fn amount_bounds() {
    let mut counter = initialize_counter(owner(), 255);
    assert_eq!(create(&mut counter, 99_999_999, FailAction::Burn), Err(ErrorCode::AmountTooLow));
    assert_eq!(create(&mut counter, 10_000_000_001, FailAction::Burn), Err(ErrorCode::AmountTooHigh));
    assert!(create(&mut counter, 100_000_000, FailAction::Burn).is_ok());
    let mut counter = initialize_counter(owner(), 255);
    assert!(create(&mut counter, 10_000_000_000, FailAction::Burn).is_ok());
}

#[test]
fn deadline_must_be_in_the_future() {
    let mut counter = initialize_counter(owner(), 255);
    let r = initialize_goal(&mut counter, owner(), goal_key(), String::new(), String::new(), MIN_AMOUNT, NOW, FailAction::Burn, panel(), NOW, 0);
    assert_eq!(r, Err(ErrorCode::DeadlineInPast));
    let r = initialize_goal(&mut counter, owner(), goal_key(), String::new(), String::new(), MIN_AMOUNT, NOW + 1, FailAction::Burn, panel(), NOW, 0);
    assert!(r.is_ok());
}

#[test]
fn submission_opens_voting_window() {
    let (_, goal, v) = submitted(FailAction::Burn);
    assert_eq!(goal.status, GoalStatus::Submitted);
    assert_eq!(goal.verification, Some(verification_key()));
    assert_eq!(v.goal, goal_key());
    assert_eq!(v.verifiers, panel());
    assert_eq!(v.votes_cast, [false, false, false]);
    assert_eq!((v.yes_votes, v.no_votes), (0, 0));
    assert!(!v.finalized);
    assert_eq!(v.result, None);
    assert_eq!(v.verification_deadline, NOW + 604_800);
    assert_eq!(VOTING_WINDOW, 604_800);
}

#[test]
fn only_owner_submits_and_only_once() {
    let mut counter = initialize_counter(owner(), 255);
    let mut goal = create(&mut counter, UNITS_PER_COIN, FailAction::Burn).unwrap().goal;
    let r = submit_for_verification(&mut goal, goal_key(), key(9), verification_key(), NOW, 0);
    assert_eq!(r, Err(ErrorCode::Unauthorized));
    assert_eq!(goal.status, GoalStatus::Active);
    submit_for_verification(&mut goal, goal_key(), owner(), verification_key(), NOW, 0).unwrap();
    let r = submit_for_verification(&mut goal, goal_key(), owner(), verification_key(), NOW, 0);
    assert_eq!(r, Err(ErrorCode::InvalidGoalStatus));
}

#[test]
fn outsider_vote_is_refused() {
    let (_, _, mut v) = submitted(FailAction::Burn);
    let before = v;
    assert_eq!(cast_vote(&mut v, key(13), true), Err(ErrorCode::NotAVerifier));
    assert_eq!(cast_vote(&mut v, owner(), false), Err(ErrorCode::NotAVerifier));
    assert_eq!(v, before);
}

#[test]
fn second_vote_by_same_verifier_is_refused() {
    let (_, _, mut v) = submitted(FailAction::Burn);
    let ev = cast_vote(&mut v, key(11), true).unwrap();
    assert_eq!((ev.yes_votes, ev.no_votes, ev.verifier, ev.vote), (1, 0, key(11), true));
    assert_eq!(v.votes_cast, [false, true, false]);
    let after_first = v;
    assert_eq!(cast_vote(&mut v, key(11), false), Err(ErrorCode::AlreadyVoted));
    assert_eq!(cast_vote(&mut v, key(11), true), Err(ErrorCode::AlreadyVoted));
    assert_eq!(v, after_first);
    let ev = cast_vote(&mut v, key(12), false).unwrap();
    assert_eq!((ev.yes_votes, ev.no_votes), (1, 1));
}

#[test]
fn vote_after_finalize_is_refused() {
    let (_, _, mut v) = submitted(FailAction::Burn);
    finalize_verification(&mut v, NOW + VOTING_WINDOW).unwrap();
    assert_eq!(cast_vote(&mut v, key(10), true), Err(ErrorCode::AlreadyFinalized));
    assert_eq!(finalize_verification(&mut v, NOW + VOTING_WINDOW), Err(ErrorCode::AlreadyFinalized));
}

#[test]
fn full_panel_majority_decides() {
    let (_, _, mut v) = submitted(FailAction::Burn);
    cast_vote(&mut v, key(12), true).unwrap();
    cast_vote(&mut v, key(10), false).unwrap();
    cast_vote(&mut v, key(11), true).unwrap();
    assert_eq!(finalize_verification(&mut v, NOW).unwrap().result, VerificationResult::Success);
    assert_eq!(v.result, Some(VerificationResult::Success));

    let (_, _, mut v) = submitted(FailAction::Burn);
    cast_vote(&mut v, key(10), true).unwrap();
    cast_vote(&mut v, key(11), false).unwrap();
    cast_vote(&mut v, key(12), false).unwrap();
    assert_eq!(finalize_verification(&mut v, NOW).unwrap().result, VerificationResult::Failure);
    assert!(v.finalized);
}

#[test]
fn early_finalize_is_refused() {
    let (_, _, mut v) = submitted(FailAction::Burn);
    assert_eq!(finalize_verification(&mut v, NOW), Err(ErrorCode::VerificationNotComplete));
    cast_vote(&mut v, key(10), false).unwrap();
    cast_vote(&mut v, key(11), false).unwrap();
    let before = v;
    assert_eq!(
        finalize_verification(&mut v, NOW + VOTING_WINDOW - 1),
        Err(ErrorCode::VerificationNotComplete)
    );
    assert_eq!(v, before);
}

#[test]
fn silent_panel_fails_after_deadline() {
    let (_, _, mut v) = submitted(FailAction::Burn);
    let fin = finalize_verification(&mut v, NOW + VOTING_WINDOW).unwrap();
    assert_eq!(fin.result, VerificationResult::Failure);
}

#[test]
fn partial_votes_after_deadline_use_majority() {
    let (_, _, mut v) = submitted(FailAction::Burn);
    cast_vote(&mut v, key(10), true).unwrap();
    assert_eq!(finalize_verification(&mut v, NOW + VOTING_WINDOW + 5).unwrap().result, VerificationResult::Success);

    let (_, _, mut v) = submitted(FailAction::Burn);
    cast_vote(&mut v, key(10), true).unwrap();
    cast_vote(&mut v, key(11), false).unwrap();
    assert_eq!(finalize_verification(&mut v, NOW + VOTING_WINDOW).unwrap().result, VerificationResult::Failure);
}

#[test]
fn failure_with_burn_sends_to_void() {
    let (mut counter, mut goal, mut v) = submitted(FailAction::Burn);
    cast_vote(&mut v, key(10), false).unwrap();
    finalize_verification(&mut v, NOW + VOTING_WINDOW).unwrap();
    let s = claim_or_distribute(&mut goal, goal_key(), &mut counter, &v, burn(), company()).unwrap();
    assert_eq!(s.payout, Transfer { from: goal_key(), to: burn(), amount: UNITS_PER_COIN });
    assert_eq!(s.event, SettlementEvent::Burned(FundsBurned { goal: goal_key(), amount: UNITS_PER_COIN }));
    assert_eq!(goal.status, GoalStatus::Failed);
    assert_eq!(counter.active_goal, None);
}

#[test]
fn failure_with_company_wallet_sends_to_company() {
    let (mut counter, mut goal, mut v) = submitted(FailAction::CompanyWallet);
    finalize_verification(&mut v, NOW + VOTING_WINDOW).unwrap();
    let s = claim_or_distribute(&mut goal, goal_key(), &mut counter, &v, burn(), company()).unwrap();
    assert_eq!(s.payout, Transfer { from: goal_key(), to: company(), amount: UNITS_PER_COIN });
    assert_eq!(
        s.event,
        SettlementEvent::SentToCompany(FundsSentToCompany { goal: goal_key(), amount: UNITS_PER_COIN, recipient: company() })
    );
    assert_eq!(goal.status, GoalStatus::Failed);
}

#[test]
fn claim_before_finalize_is_refused() {
    let (mut counter, mut goal, v) = submitted(FailAction::Burn);
    let (g0, c0) = (goal.clone(), counter);
    let r = claim_or_distribute(&mut goal, goal_key(), &mut counter, &v, burn(), company());
    assert_eq!(r, Err(ErrorCode::VerificationNotFinalized));
    assert_eq!((goal, counter), (g0, c0));
}

#[test]
fn claim_without_result_is_refused() {
    let (mut counter, mut goal, mut v) = submitted(FailAction::Burn);
    v.finalized = true;
    let r = claim_or_distribute(&mut goal, goal_key(), &mut counter, &v, burn(), company());
    assert_eq!(r, Err(ErrorCode::NoVerificationResult));
}

#[test]
fn claim_on_active_goal_is_refused() {
    let mut counter = initialize_counter(owner(), 255);
    let mut goal = create(&mut counter, UNITS_PER_COIN, FailAction::Burn).unwrap().goal;
    let (_, _, mut v) = submitted(FailAction::Burn);
    finalize_verification(&mut v, NOW + VOTING_WINDOW).unwrap();
    let r = claim_or_distribute(&mut goal, goal_key(), &mut counter, &v, burn(), company());
    assert_eq!(r, Err(ErrorCode::InvalidGoalStatus));
    assert_eq!(counter.active_goal, Some(0));
}

#[test]
fn settled_goal_rejects_everything_and_reopens_counter() {
    let (mut counter, mut goal, mut v) = submitted(FailAction::Burn);
    cast_vote(&mut v, key(10), true).unwrap();
    cast_vote(&mut v, key(11), true).unwrap();
    cast_vote(&mut v, key(12), true).unwrap();
    finalize_verification(&mut v, NOW).unwrap();
    claim_or_distribute(&mut goal, goal_key(), &mut counter, &v, burn(), company()).unwrap();
    let r = claim_or_distribute(&mut goal, goal_key(), &mut counter, &v, burn(), company());
    assert_eq!(r, Err(ErrorCode::InvalidGoalStatus));
    let r = submit_for_verification(&mut goal, goal_key(), owner(), verification_key(), NOW, 0);
    assert_eq!(r, Err(ErrorCode::InvalidGoalStatus));
    assert_eq!(cast_vote(&mut v, key(10), false), Err(ErrorCode::AlreadyFinalized));
    assert_eq!(finalize_verification(&mut v, NOW), Err(ErrorCode::AlreadyFinalized));
    let next = create(&mut counter, UNITS_PER_COIN, FailAction::Burn).unwrap();
    assert_eq!(next.goal.goal_number, 1);
    assert_eq!(counter.active_goal, Some(1));
    assert_eq!(counter.count, 2);
}

#[test]
fn keys_compare_by_every_byte() {
    let mut a = key(7);
    let b = key(7);
    assert!(a.same_as(&b));
    a.bytes[31] = 8;
    assert!(!a.same_as(&b));
}
