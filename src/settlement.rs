use vstd::prelude::*;

use crate::errors::ErrorCode;
use crate::state::{
    FailAction, FundsBurned, FundsClaimed, FundsSentToCompany, Goal, GoalCounter, GoalStatus,
    Pubkey, Transfer, Verification, VerificationResult,
};

verus! {

/// The notification that goes with a settlement.
#[derive(Clone, Copy, Debug, PartialEq, Eq)]
pub enum SettlementEvent {
    Claimed(FundsClaimed),
    Burned(FundsBurned),
    SentToCompany(FundsSentToCompany),
}

/// What settling a goal yields: the one outbound movement of the locked
/// amount, and its notification.
#[derive(Clone, Copy, Debug, PartialEq, Eq)]
pub struct Settlement {
    pub payout: Transfer,
    pub event: SettlementEvent,
}

/// Why settling `goal` against `verification` is refused, or `None`.
pub open spec fn settlement_refusal(goal: Goal, verification: Verification) -> Option<ErrorCode> {
    if goal.status != GoalStatus::Submitted {
        Some(ErrorCode::InvalidGoalStatus)
    } else if !verification.finalized {
        Some(ErrorCode::VerificationNotFinalized)
    } else if verification.result.is_none() {
        Some(ErrorCode::NoVerificationResult)
    } else {
        None
    }
}

/// The terminal status that `result` leads to.
pub open spec fn settled_status(result: VerificationResult) -> GoalStatus {
    match result {
        VerificationResult::Success => GoalStatus::Claimed,
        VerificationResult::Failure => GoalStatus::Failed,
    }
}

/// Where the amount locked in `goal` (held at `goal_key`) goes for `result`:
/// back to the owner on success; on failure to `burn_address` or to
/// `company_wallet`, as the goal's fail action says.
pub open spec fn settlement_of(
    goal: Goal,
    goal_key: Pubkey,
    result: VerificationResult,
    burn_address: Pubkey,
    company_wallet: Pubkey,
) -> Settlement {
    match result {
        VerificationResult::Success => Settlement {
            payout: Transfer { from: goal_key, to: goal.user, amount: goal.amount },
            event: SettlementEvent::Claimed(
                FundsClaimed { goal: goal_key, user: goal.user, amount: goal.amount },
            ),
        },
        VerificationResult::Failure => match goal.fail_action {
            FailAction::Burn => Settlement {
                payout: Transfer { from: goal_key, to: burn_address, amount: goal.amount },
                event: SettlementEvent::Burned(FundsBurned { goal: goal_key, amount: goal.amount }),
            },
            FailAction::CompanyWallet => Settlement {
                payout: Transfer { from: goal_key, to: company_wallet, amount: goal.amount },
                event: SettlementEvent::SentToCompany(
                    FundsSentToCompany {
                        goal: goal_key,
                        amount: goal.amount,
                        recipient: company_wallet,
                    },
                ),
            },
        },
    }
}

/// Settles a submitted goal once its verification is final: releases the
/// whole locked amount as `settlement_of` says, makes the goal terminal
/// (`Claimed` on success, `Failed` on failure) and clears the owner's open
/// goal. A refusal changes nothing; a settled goal is refused with
/// `InvalidGoalStatus`, so the amount leaves the escrow once.
pub fn claim_or_distribute(
    goal: &mut Goal,
    goal_key: Pubkey,
    counter: &mut GoalCounter,
    verification: &Verification,
    burn_address: Pubkey,
    company_wallet: Pubkey,
) -> (r: Result<Settlement, ErrorCode>)
    ensures
        match settlement_refusal(*old(goal), *verification) {
            Some(e) => {
                &&& r == Err::<Settlement, ErrorCode>(e)
                &&& *final(goal) == *old(goal)
                &&& *final(counter) == *old(counter)
            },
            None => {
                &&& r == Ok::<Settlement, ErrorCode>(
                    settlement_of(
                        *old(goal),
                        goal_key,
                        verification.result.unwrap(),
                        burn_address,
                        company_wallet,
                    ),
                )
                &&& *final(goal) == (Goal {
                    status: settled_status(verification.result.unwrap()),
                    ..*old(goal)
                })
                &&& *final(counter) == (GoalCounter { active_goal: None, ..*old(counter) })
            },
        },
{
    if goal.status != GoalStatus::Submitted {
        return Err(ErrorCode::InvalidGoalStatus);
    }
    if !verification.finalized {
        return Err(ErrorCode::VerificationNotFinalized);
    }
    let result = match verification.result {
        None => return Err(ErrorCode::NoVerificationResult),
        Some(res) => res,
    };
    let amount = goal.amount;
    let settlement = match result {
        VerificationResult::Success => {
            goal.status = GoalStatus::Claimed;
            Settlement {
                payout: Transfer { from: goal_key, to: goal.user, amount },
                event: SettlementEvent::Claimed(
                    FundsClaimed { goal: goal_key, user: goal.user, amount },
                ),
            }
        },
        VerificationResult::Failure => {
            goal.status = GoalStatus::Failed;
            match goal.fail_action {
                FailAction::Burn => Settlement {
                    payout: Transfer { from: goal_key, to: burn_address, amount },
                    event: SettlementEvent::Burned(FundsBurned { goal: goal_key, amount }),
                },
                FailAction::CompanyWallet => Settlement {
                    payout: Transfer { from: goal_key, to: company_wallet, amount },
                    event: SettlementEvent::SentToCompany(
                        FundsSentToCompany { goal: goal_key, amount, recipient: company_wallet },
                    ),
                },
            }
        },
    };
    counter.active_goal = None;
    Ok(settlement)
}

} // verus!
