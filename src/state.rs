use vstd::prelude::*;

verus! {

/// A 32-byte account identifier.
#[derive(Clone, Copy, Debug, PartialEq, Eq)]
pub struct Pubkey {
    pub bytes: [u8; 32],
}

impl View for Pubkey {
    type V = Seq<u8>;

    open spec fn view(&self) -> Seq<u8> {
        self.bytes@
    }
}

impl Pubkey {
    /// Compares two identifiers byte by byte.
    pub fn same_as(&self, other: &Pubkey) -> (r: bool)
        ensures
            r == (self@ == other@),
    {
        let mut i: usize = 0;
        while i < 32
            invariant
                0 <= i <= 32,
                forall|j: int| 0 <= j < i ==> self.bytes[j] == other.bytes[j],
            decreases 32 - i,
        {
            if self.bytes[i] != other.bytes[i] {
                return false;
            }
            i = i + 1;
        }
        assert(self@ =~= other@);
        true
    }
}


/// Longest accepted goal title, in characters.
pub const MAX_TITLE_LEN: usize = 100;

/// Longest accepted goal description, in characters.
pub const MAX_DESCRIPTION_LEN: usize = 500;

/// Base units in one whole unit of the native currency.
pub const UNITS_PER_COIN: u64 = 1_000_000_000;

/// Smallest amount that can be locked: a tenth of a coin.
pub const MIN_AMOUNT: u64 = 100_000_000;

/// Largest amount that can be locked: ten coins.
pub const MAX_AMOUNT: u64 = 10_000_000_000;

/// Length of the voting window opened at submission, in seconds (seven days).
pub const VOTING_WINDOW: i64 = 604_800;

/// Where the locked amount goes when a goal fails.
#[derive(Clone, Copy, Debug, PartialEq, Eq, Structural)]
pub enum FailAction {
    Burn,
    CompanyWallet,
}

/// Lifecycle of a goal: `Active -> Submitted -> Claimed | Failed`.
#[derive(Clone, Copy, Debug, PartialEq, Eq, Structural)]
pub enum GoalStatus {
    Active,
    Submitted,
    Claimed,
    Failed,
}

/// Outcome of a finalized vote.
#[derive(Clone, Copy, Debug, PartialEq, Eq, Structural)]
pub enum VerificationResult {
    Success,
    Failure,
}

impl GoalStatus {
    /// `Claimed` and `Failed` admit no further operation.
    pub open spec fn is_terminal(self) -> bool {
        self == GoalStatus::Claimed || self == GoalStatus::Failed
    }
}

/// A goal with an amount locked in escrow until the panel has decided.
#[derive(Clone, Debug, PartialEq, Eq)]
pub struct Goal {
    pub user: Pubkey,
    pub title: String,
    pub description: String,
    pub amount: u64,
    pub deadline: i64,
    pub fail_action: FailAction,
    pub status: GoalStatus,
    /// The panel chosen at creation; copied into the verification record.
    pub verifiers: [Pubkey; 3],
    /// The verification record, once the goal has been submitted.
    pub verification: Option<Pubkey>,
    pub created_at: i64,
    pub goal_number: u64,
    pub bump: u8,
}

/// Per-user bookkeeping: how many goals were ever created, and which is open.
#[derive(Clone, Copy, Debug, PartialEq, Eq)]
pub struct GoalCounter {
    pub user: Pubkey,
    pub count: u64,
    pub active_goal: Option<u64>,
    pub bump: u8,
}

/// The panel's votes on one submitted goal.
#[derive(Clone, Copy, Debug, PartialEq, Eq)]
pub struct Verification {
    pub goal: Pubkey,
    pub verifiers: [Pubkey; 3],
    pub yes_votes: u8,
    pub no_votes: u8,
    pub votes_cast: [bool; 3],
    pub finalized: bool,
    pub result: Option<VerificationResult>,
    pub verification_deadline: i64,
    pub bump: u8,
}

/// Number of slots in `cast` that hold `true`.
pub open spec fn slots_used(cast: [bool; 3]) -> nat {
    (if cast[0] { 1nat } else { 0nat }) + (if cast[1] { 1nat } else { 0nat }) + (if cast[2] {
        1nat
    } else {
        0nat
    })
}

/// The first slot of the panel held by `who`, if any.
pub open spec fn slot_of(panel: [Pubkey; 3], who: Pubkey) -> Option<int> {
    if panel[0]@ == who@ {
        Some(0)
    } else if panel[1]@ == who@ {
        Some(1)
    } else if panel[2]@ == who@ {
        Some(2)
    } else {
        None
    }
}

/// Outcome by majority: `Success` exactly when yes-votes strictly exceed no-votes.
pub open spec fn majority(yes: nat, no: nat) -> VerificationResult {
    if yes > no {
        VerificationResult::Success
    } else {
        VerificationResult::Failure
    }
}

impl Verification {
    /// Each cast slot counted once in the tallies; a result exactly when finalized.
    pub open spec fn wf(self) -> bool {
        &&& self.yes_votes + self.no_votes == slots_used(self.votes_cast)
        &&& self.finalized <==> self.result.is_some()
    }

    /// Every verifier of the panel has voted.
    pub open spec fn all_cast(self) -> bool {
        self.votes_cast[0] && self.votes_cast[1] && self.votes_cast[2]
    }
}

/// A movement of native currency between two accounts.
#[derive(Clone, Copy, Debug, PartialEq, Eq)]
pub struct Transfer {
    pub from: Pubkey,
    pub to: Pubkey,
    pub amount: u64,
}

/// Notification that a goal was created and its amount locked.
#[derive(Clone, Copy, Debug, PartialEq, Eq)]
pub struct GoalCreated {
    pub goal: Pubkey,
    pub user: Pubkey,
    pub amount: u64,
    pub deadline: i64,
    pub goal_number: u64,
}

/// Notification that a goal went to its panel.
#[derive(Clone, Copy, Debug, PartialEq, Eq)]
pub struct GoalSubmitted {
    pub goal: Pubkey,
    pub verification_deadline: i64,
}

/// Notification of one vote, with the running tallies.
#[derive(Clone, Copy, Debug, PartialEq, Eq)]
pub struct VoteCast {
    pub goal: Pubkey,
    pub verifier: Pubkey,
    pub vote: bool,
    pub yes_votes: u8,
    pub no_votes: u8,
}

/// Notification that the panel's outcome is fixed.
#[derive(Clone, Copy, Debug, PartialEq, Eq)]
pub struct VerificationFinalized {
    pub goal: Pubkey,
    pub result: VerificationResult,
}

/// Notification that the owner got the locked amount back.
#[derive(Clone, Copy, Debug, PartialEq, Eq)]
pub struct FundsClaimed {
    pub goal: Pubkey,
    pub user: Pubkey,
    pub amount: u64,
}

/// Notification that the locked amount was burned.
#[derive(Clone, Copy, Debug, PartialEq, Eq)]
pub struct FundsBurned {
    pub goal: Pubkey,
    pub amount: u64,
}

/// Notification that the locked amount went to the company wallet.
#[derive(Clone, Copy, Debug, PartialEq, Eq)]
pub struct FundsSentToCompany {
    pub goal: Pubkey,
    pub amount: u64,
    pub recipient: Pubkey,
}

} // verus!
