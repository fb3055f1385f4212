use vstd::prelude::*;

use crate::errors::ErrorCode;
use crate::state::{
    FailAction, Goal, GoalCounter, GoalCreated, GoalStatus, GoalSubmitted, Pubkey, Transfer,
    Verification, MAX_AMOUNT, MAX_DESCRIPTION_LEN, MAX_TITLE_LEN, MIN_AMOUNT, VOTING_WINDOW,
};

verus! {

/// What a successful goal creation yields: the record, the deposit that locks
/// the amount in the goal's escrow, and the notification.
#[derive(Clone, Debug, PartialEq, Eq)]
pub struct GoalCreation {
    pub goal: Goal,
    pub deposit: Transfer,
    pub event: GoalCreated,
}

/// What a successful submission yields: the fresh verification record and the
/// notification.
#[derive(Clone, Copy, Debug, PartialEq, Eq)]
pub struct Submission {
    pub verification: Verification,
    pub event: GoalSubmitted,
}

/// Why creating a goal is refused, or `None` when it is accepted. An open goal
/// is checked first, so it refuses whatever the other inputs are.
pub open spec fn creation_refusal(
    counter: GoalCounter,
    title: Seq<char>,
    description: Seq<char>,
    amount: u64,
    deadline: i64,
    now: i64,
) -> Option<ErrorCode> {
    if counter.active_goal.is_some() {
        Some(ErrorCode::ActiveGoalExists)
    } else if title.len() > MAX_TITLE_LEN {
        Some(ErrorCode::TitleTooLong)
    } else if description.len() > MAX_DESCRIPTION_LEN {
        Some(ErrorCode::DescriptionTooLong)
    } else if amount < MIN_AMOUNT {
        Some(ErrorCode::AmountTooLow)
    } else if amount > MAX_AMOUNT {
        Some(ErrorCode::AmountTooHigh)
    } else if deadline <= now {
        Some(ErrorCode::DeadlineInPast)
    } else {
        None
    }
}

/// Why submitting `goal` on behalf of `signer` is refused, or `None`.
pub open spec fn submission_refusal(goal: Goal, signer: Pubkey) -> Option<ErrorCode> {
    if goal.user@ != signer@ {
        Some(ErrorCode::Unauthorized)
    } else if goal.status != GoalStatus::Active {
        Some(ErrorCode::InvalidGoalStatus)
    } else {
        None
    }
}

/// A fresh counter for `user`: no goal created yet, none open.
pub fn initialize_counter(user: Pubkey, bump: u8) -> (r: GoalCounter)
    ensures
        r == (GoalCounter { user, count: 0, active_goal: None, bump }),
{
    GoalCounter { user, count: 0, active_goal: None, bump }
}

/// Creates goal number `count` for `user`, stored at `goal_key`, and locks
/// `amount` from the user into that goal's escrow. The counter then counts one
/// more goal and holds the new one as open. A refusal changes nothing.
pub fn initialize_goal(
    counter: &mut GoalCounter,
    user: Pubkey,
    goal_key: Pubkey,
    title: String,
    description: String,
    amount: u64,
    deadline: i64,
    fail_action: FailAction,
    verifiers: [Pubkey; 3],
    now: i64,
    bump: u8,
) -> (r: Result<GoalCreation, ErrorCode>)
    requires
        old(counter).count < u64::MAX,
    ensures
        match creation_refusal(*old(counter), title@, description@, amount, deadline, now) {
            Some(e) => r == Err::<GoalCreation, ErrorCode>(e) && *final(counter) == *old(counter),
            None => r matches Ok(c) && {
                &&& c.goal.user == user
                &&& c.goal.title@ == title@
                &&& c.goal.description@ == description@
                &&& c.goal.amount == amount
                &&& c.goal.deadline == deadline
                &&& c.goal.fail_action == fail_action
                &&& c.goal.status == GoalStatus::Active
                &&& c.goal.verifiers == verifiers
                &&& c.goal.verification.is_none()
                &&& c.goal.created_at == now
                &&& c.goal.goal_number == old(counter).count
                &&& c.goal.bump == bump
                &&& c.deposit == (Transfer { from: user, to: goal_key, amount })
                &&& c.event == (GoalCreated {
                    goal: goal_key,
                    user,
                    amount,
                    deadline,
                    goal_number: old(counter).count,
                })
                &&& *final(counter) == (GoalCounter {
                    count: (old(counter).count + 1) as u64,
                    active_goal: Some(old(counter).count),
                    ..*old(counter)
                })
            },
        },
{
    if counter.active_goal.is_some() {
        return Err(ErrorCode::ActiveGoalExists);
    }
    if title.as_str().unicode_len() > MAX_TITLE_LEN {
        return Err(ErrorCode::TitleTooLong);
    }
    if description.as_str().unicode_len() > MAX_DESCRIPTION_LEN {
        return Err(ErrorCode::DescriptionTooLong);
    }
    if amount < MIN_AMOUNT {
        return Err(ErrorCode::AmountTooLow);
    }
    if amount > MAX_AMOUNT {
        return Err(ErrorCode::AmountTooHigh);
    }
    if deadline <= now {
        return Err(ErrorCode::DeadlineInPast);
    }
    let goal_number = counter.count;
    counter.count = goal_number + 1;
    counter.active_goal = Some(goal_number);
    let goal = Goal {
        user,
        title,
        description,
        amount,
        deadline,
        fail_action,
        status: GoalStatus::Active,
        verifiers,
        verification: None,
        created_at: now,
        goal_number,
        bump,
    };
    Ok(
        GoalCreation {
            goal,
            deposit: Transfer { from: user, to: goal_key, amount },
            event: GoalCreated { goal: goal_key, user, amount, deadline, goal_number },
        },
    )
}

/// Hands an active goal to its panel: only the owner may, and only once. The
/// new verification record, stored at `verification_key`, copies the panel and
/// closes its voting window `VOTING_WINDOW` seconds after `now`.
pub fn submit_for_verification(
    goal: &mut Goal,
    goal_key: Pubkey,
    signer: Pubkey,
    verification_key: Pubkey,
    now: i64,
    bump: u8,
) -> (r: Result<Submission, ErrorCode>)
    requires
        now <= i64::MAX - VOTING_WINDOW,
    ensures
        match submission_refusal(*old(goal), signer) {
            Some(e) => r == Err::<Submission, ErrorCode>(e) && *final(goal) == *old(goal),
            None => r matches Ok(s) && {
                &&& *final(goal) == (Goal {
                    status: GoalStatus::Submitted,
                    verification: Some(verification_key),
                    ..*old(goal)
                })
                &&& s.verification.goal == goal_key
                &&& s.verification.verifiers == old(goal).verifiers
                &&& s.verification.yes_votes == 0
                &&& s.verification.no_votes == 0
                &&& !s.verification.votes_cast[0]
                &&& !s.verification.votes_cast[1]
                &&& !s.verification.votes_cast[2]
                &&& !s.verification.finalized
                &&& s.verification.result.is_none()
                &&& s.verification.verification_deadline == now + VOTING_WINDOW
                &&& s.verification.bump == bump
                &&& s.verification.wf()
                &&& s.event == (GoalSubmitted {
                    goal: goal_key,
                    verification_deadline: (now + VOTING_WINDOW) as i64,
                })
            },
        },
{
    if !goal.user.same_as(&signer) {
        return Err(ErrorCode::Unauthorized);
    }
    if goal.status != GoalStatus::Active {
        return Err(ErrorCode::InvalidGoalStatus);
    }
    let verification_deadline = now + VOTING_WINDOW;
    goal.status = GoalStatus::Submitted;
    goal.verification = Some(verification_key);
    let verification = Verification {
        goal: goal_key,
        verifiers: goal.verifiers,
        yes_votes: 0,
        no_votes: 0,
        votes_cast: [false, false, false],
        finalized: false,
        result: None,
        verification_deadline,
        bump,
    };
    Ok(
        Submission {
            verification,
            event: GoalSubmitted { goal: goal_key, verification_deadline },
        },
    )
}

} // verus!
