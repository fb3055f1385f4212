use vstd::prelude::*;

use crate::consensus::{finalize_outcome, vote_recorded, vote_refusal};
use crate::errors::ErrorCode;
use crate::lifecycle::{creation_refusal, submission_refusal};
use crate::settlement::{settled_status, settlement_of, settlement_refusal};
use crate::state::{
    slot_of, FailAction, Goal, GoalCounter, GoalStatus, Pubkey, Verification, VerificationResult,
    MAX_AMOUNT, MAX_DESCRIPTION_LEN, MAX_TITLE_LEN, MIN_AMOUNT,
};

verus! {

/// While a goal is open, creating another one is refused with
/// `ActiveGoalExists`, whatever its title, description, amount or deadline.
pub proof fn lemma_open_goal_blocks_creation(
    counter: GoalCounter,
    title: Seq<char>,
    description: Seq<char>,
    amount: u64,
    deadline: i64,
    now: i64,
)
    requires
        counter.active_goal.is_some(),
    ensures
        creation_refusal(counter, title, description, amount, deadline, now) == Some(
            ErrorCode::ActiveGoalExists,
        ),
{
}

/// Someone who holds no slot of the panel is always refused with `NotAVerifier`.
pub proof fn lemma_outsider_cannot_vote(verification: Verification, voter: Pubkey)
    requires
        slot_of(verification.verifiers, voter).is_none(),
    ensures
        vote_refusal(verification, voter) == Some(ErrorCode::NotAVerifier),
{
}

/// Once a verifier's vote has been recorded, a second vote by the same
/// verifier is refused with `AlreadyVoted`, whichever way either vote went.
pub proof fn lemma_second_vote_refused(
    pre: Verification,
    post: Verification,
    voter: Pubkey,
    vote: bool,
)
    requires
        vote_refusal(pre, voter).is_none(),
        vote_recorded(pre, post, slot_of(pre.verifiers, voter).unwrap(), vote),
    ensures
        vote_refusal(post, voter) == Some(ErrorCode::AlreadyVoted),
{
    let i = slot_of(pre.verifiers, voter).unwrap();
    assert(post.votes_cast@[i]);
}

/// With the whole panel voted, two yes-votes give `Success` and two no-votes
/// give `Failure`, at any time.
pub proof fn lemma_full_panel_decides(verification: Verification, now: i64)
    requires
        verification.wf(),
        verification.all_cast(),
        !verification.finalized,
    ensures
        verification.yes_votes == 2 ==> finalize_outcome(verification, now) == Ok::<
            VerificationResult,
            ErrorCode,
        >(VerificationResult::Success),
        verification.no_votes == 2 ==> finalize_outcome(verification, now) == Ok::<
            VerificationResult,
            ErrorCode,
        >(VerificationResult::Failure),
{
}

/// Before the whole panel has voted and before the voting deadline,
/// finalizing is refused with `VerificationNotComplete`.
pub proof fn lemma_early_finalize_refused(verification: Verification, now: i64)
    requires
        !verification.finalized,
        !verification.all_cast(),
        now < verification.verification_deadline,
    ensures
        finalize_outcome(verification, now) == Err::<VerificationResult, ErrorCode>(
            ErrorCode::VerificationNotComplete,
        ),
{
}

/// A panel that never voted gives `Failure` once the deadline has passed.
pub proof fn lemma_silent_panel_fails(verification: Verification, now: i64)
    requires
        !verification.finalized,
        verification.yes_votes == 0,
        verification.no_votes == 0,
        now >= verification.verification_deadline,
    ensures
        finalize_outcome(verification, now) == Ok::<VerificationResult, ErrorCode>(
            VerificationResult::Failure,
        ),
{
}

/// A settlement moves the whole locked amount out of the goal's escrow: to
/// the owner on success, with the goal `Claimed`; on failure to the burn
/// address or the company wallet, as the fail action says, with the goal
/// `Failed`.
pub proof fn lemma_settlement_moves_locked_amount(
    goal: Goal,
    goal_key: Pubkey,
    result: VerificationResult,
    burn_address: Pubkey,
    company_wallet: Pubkey,
)
    ensures
        settlement_of(goal, goal_key, result, burn_address, company_wallet).payout.from == goal_key,
        settlement_of(goal, goal_key, result, burn_address, company_wallet).payout.amount
            == goal.amount,
        result == VerificationResult::Success ==> {
            &&& settlement_of(goal, goal_key, result, burn_address, company_wallet).payout.to
                == goal.user
            &&& settled_status(result) == GoalStatus::Claimed
        },
        result == VerificationResult::Failure ==> {
            &&& settled_status(result) == GoalStatus::Failed
            &&& goal.fail_action == FailAction::Burn ==> settlement_of(
                goal,
                goal_key,
                result,
                burn_address,
                company_wallet,
            ).payout.to == burn_address
            &&& goal.fail_action == FailAction::CompanyWallet ==> settlement_of(
                goal,
                goal_key,
                result,
                burn_address,
                company_wallet,
            ).payout.to == company_wallet
        },
{
}

/// After a goal has been settled, every further operation on it or on its
/// verification is refused, and the owner can create a new goal with any
/// valid inputs.
pub proof fn lemma_settled_goal_is_closed(
    pre_goal: Goal,
    post_goal: Goal,
    pre_counter: GoalCounter,
    post_counter: GoalCounter,
    verification: Verification,
    signer: Pubkey,
    voter: Pubkey,
    now: i64,
    title: Seq<char>,
    description: Seq<char>,
    amount: u64,
    deadline: i64,
)
    requires
        settlement_refusal(pre_goal, verification).is_none(),
        post_goal == (Goal { status: settled_status(verification.result.unwrap()), ..pre_goal }),
        post_counter == (GoalCounter { active_goal: None, ..pre_counter }),
        title.len() <= MAX_TITLE_LEN,
        description.len() <= MAX_DESCRIPTION_LEN,
        MIN_AMOUNT <= amount <= MAX_AMOUNT,
        deadline > now,
    ensures
        post_goal.status.is_terminal(),
        submission_refusal(post_goal, signer).is_some(),
        settlement_refusal(post_goal, verification) == Some(ErrorCode::InvalidGoalStatus),
        vote_refusal(verification, voter).is_some(),
        finalize_outcome(verification, now) == Err::<VerificationResult, ErrorCode>(
            ErrorCode::AlreadyFinalized,
        ),
        post_counter.active_goal.is_none(),
        creation_refusal(post_counter, title, description, amount, deadline, now).is_none(),
{
    assert(post_goal.status != GoalStatus::Active);
}

} // verus!
