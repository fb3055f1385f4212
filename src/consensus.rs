use vstd::prelude::*;

use crate::errors::ErrorCode;
use crate::state::{
    majority, slot_of, slots_used, Pubkey, Verification, VerificationFinalized, VerificationResult,
    VoteCast,
};

verus! {

/// Why a vote by `voter` is refused, or `None` when it is accepted.
pub open spec fn vote_refusal(v: Verification, voter: Pubkey) -> Option<ErrorCode> {
    match slot_of(v.verifiers, voter) {
        None => Some(ErrorCode::NotAVerifier),
        Some(i) => if v.finalized {
            Some(ErrorCode::AlreadyFinalized)
        } else if v.votes_cast[i] {
            Some(ErrorCode::AlreadyVoted)
        } else {
            None
        },
    }
}

/// `post` is `pre` with one more vote, `vote`, recorded in `slot`.
pub open spec fn vote_recorded(pre: Verification, post: Verification, slot: int, vote: bool) -> bool {
    &&& post.votes_cast@ == pre.votes_cast@.update(slot, true)
    &&& post.yes_votes == pre.yes_votes + if vote { 1int } else { 0int }
    &&& post.no_votes == pre.no_votes + if vote { 0int } else { 1int }
    &&& post.goal == pre.goal
    &&& post.verifiers == pre.verifiers
    &&& post.finalized == pre.finalized
    &&& post.result == pre.result
    &&& post.verification_deadline == pre.verification_deadline
    &&& post.bump == pre.bump
}

/// What finalizing `v` at time `now` decides: either condition suffices, a full
/// panel or a passed deadline, and both decide by majority of the votes cast.
pub open spec fn finalize_outcome(v: Verification, now: i64) -> Result<VerificationResult, ErrorCode> {
    if v.finalized {
        Err(ErrorCode::AlreadyFinalized)
    } else if v.all_cast() || now >= v.verification_deadline {
        Ok(majority(v.yes_votes as nat, v.no_votes as nat))
    } else {
        Err(ErrorCode::VerificationNotComplete)
    }
}

/// The slot of the panel that `who` holds, searching from the first.
fn panel_slot(panel: &[Pubkey; 3], who: &Pubkey) -> (r: Option<usize>)
    ensures
        match slot_of(*panel, *who) {
            None => r.is_none(),
            Some(i) => r == Some(i as usize),
        },
{
    if panel[0].same_as(who) {
        Some(0)
    } else if panel[1].same_as(who) {
        Some(1)
    } else if panel[2].same_as(who) {
        Some(2)
    } else {
        None
    }
}

/// Records `voter`'s vote. Refused with `NotAVerifier` for anyone off the
/// panel, then `AlreadyFinalized` once the outcome is fixed, then
/// `AlreadyVoted` for a slot that has voted; a refusal changes nothing.
pub fn cast_vote(verification: &mut Verification, voter: Pubkey, vote: bool) -> (r: Result<
    VoteCast,
    ErrorCode,
>)
    requires
        old(verification).wf(),
    ensures
        final(verification).wf(),
        match vote_refusal(*old(verification), voter) {
            Some(e) => r == Err::<VoteCast, ErrorCode>(e) && *final(verification) == *old(
                verification,
            ),
            None => {
                &&& vote_recorded(
                    *old(verification),
                    *final(verification),
                    slot_of(old(verification).verifiers, voter).unwrap(),
                    vote,
                )
                &&& r == Ok::<VoteCast, ErrorCode>(
                    (VoteCast {
                        goal: old(verification).goal,
                        verifier: voter,
                        vote,
                        yes_votes: final(verification).yes_votes,
                        no_votes: final(verification).no_votes,
                    }),
                )
            },
        },
{
    let slot = match panel_slot(&verification.verifiers, &voter) {
        None => return Err(ErrorCode::NotAVerifier),
        Some(i) => i,
    };
    if verification.finalized {
        return Err(ErrorCode::AlreadyFinalized);
    }
    if verification.votes_cast[slot] {
        return Err(ErrorCode::AlreadyVoted);
    }
    let cast = verification.votes_cast;
    verification.votes_cast = [cast[0] || slot == 0, cast[1] || slot == 1, cast[2] || slot == 2];
    assert(verification.votes_cast@ =~= cast@.update(slot as int, true));
    if vote {
        verification.yes_votes = verification.yes_votes + 1;
    } else {
        verification.no_votes = verification.no_votes + 1;
    }
    Ok(
        VoteCast {
            goal: verification.goal,
            verifier: voter,
            vote,
            yes_votes: verification.yes_votes,
            no_votes: verification.no_votes,
        },
    )
}

/// Fixes the outcome when every verifier has voted or the voting window has
/// closed (`now >= verification_deadline`): `Success` exactly when yes-votes
/// strictly exceed no-votes, so a tie, and no vote at all, give `Failure`.
/// Refused with `AlreadyFinalized` a second time and with
/// `VerificationNotComplete` while neither condition holds.
pub fn finalize_verification(verification: &mut Verification, now: i64) -> (r: Result<
    VerificationFinalized,
    ErrorCode,
>)
    requires
        old(verification).wf(),
    ensures
        final(verification).wf(),
        match finalize_outcome(*old(verification), now) {
            Err(e) => r == Err::<VerificationFinalized, ErrorCode>(e) && *final(verification)
                == *old(verification),
            Ok(res) => {
                &&& r == Ok::<VerificationFinalized, ErrorCode>(
                    (VerificationFinalized { goal: old(verification).goal, result: res }),
                )
                &&& *final(verification) == (Verification {
                    finalized: true,
                    result: Some(res),
                    ..*old(verification)
                })
            },
        },
{
    if verification.finalized {
        return Err(ErrorCode::AlreadyFinalized);
    }
    let full = verification.votes_cast[0] && verification.votes_cast[1]
        && verification.votes_cast[2];
    if !full && now < verification.verification_deadline {
        return Err(ErrorCode::VerificationNotComplete);
    }
    let result = if verification.yes_votes > verification.no_votes {
        VerificationResult::Success
    } else {
        VerificationResult::Failure
    };
    verification.finalized = true;
    verification.result = Some(result);
    Ok(VerificationFinalized { goal: verification.goal, result })
}

} // verus!
