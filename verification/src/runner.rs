use vstd::prelude::*;

use crate::response::spec_claim_accepted;
use crate::response::spec_return_code;
use crate::response::SignResponse;
use crate::response::ALREADY_SIGNED_RETCODE;
use vstd::string::StringExecFns;

verus! {

/// Why one account failed on one game.
#[derive(Debug, Clone, PartialEq, Eq)]
pub enum FailureReason {
    /// The first status check could not be completed or reported an error.
    StatusCheck(String),
    /// The claim call could not be completed or reported an error.
    Claim(String),
    /// The claim call was accepted, but the reverification did not show the
    /// reward as granted: a remote-side inconsistency.
    RewardNotGranted,
}

/// The outcome of one account on one game.
#[derive(Debug, Clone, PartialEq, Eq)]
pub enum CheckinOutcome {
    /// The day was already signed before this run; nothing was claimed.
    AlreadyClaimed,
    /// The claim was made and the reverification confirmed it.
    ClaimedNow,
    Failed(FailureReason),
}

/// Where the runner stands in the status -> claim -> reverify sequence.
#[derive(Debug, Clone, Copy, PartialEq, Eq, Structural)]
pub enum Phase {
    /// Waiting for the result of the first status check.
    StatusCheck,
    /// Waiting for the result of the claim call.
    Claim,
    /// Waiting for the result of the status check that verifies the claim.
    Reverify,
    Done,
}

/// What the caller should do next on the runner's behalf.
#[derive(Debug, Clone, PartialEq, Eq, Structural)]
pub enum Action {
    /// Issue a status check against the game's status endpoint and feed the
    /// decoded result back.
    CheckStatus,
    /// Issue a claim against the game's claim endpoint and feed the decoded
    /// result back.
    Claim,
    /// The run for this pair is over, with the given success.
    Finished(bool),
}

/// Whether an outcome counts as success for the overall flag.
pub open spec fn outcome_success(o: CheckinOutcome) -> bool {
    match o {
        CheckinOutcome::AlreadyClaimed => true,
        CheckinOutcome::ClaimedNow => true,
        CheckinOutcome::Failed(_) => false,
    }
}

pub fn outcome_is_success(o: &CheckinOutcome) -> (b: bool)
    ensures
        b == outcome_success(*o),
{
    match o {
        CheckinOutcome::Failed(_) => false,
        _ => true,
    }
}

/// Drives the check-in protocol for one account on one game. The runner only
/// decides; its caller performs the calls it asks for through `next_action`
/// and feeds the decoded results back. The counters record how many results
/// of each kind have been fed.
#[derive(Debug, Clone)]
pub struct Runner {
    pub phase: Phase,
    pub outcome: Option<CheckinOutcome>,
    pub status_calls: u32,
    pub claim_calls: u32,
}

/// A freshly started runner: about to ask for the first status check.
pub open spec fn spec_new() -> Runner {
    Runner { phase: Phase::StatusCheck, outcome: None, status_calls: 0, claim_calls: 0 }
}

/// The transition taken when a decoded status-check result arrives. The
/// first status check decides between terminal success, claiming, and
/// terminal failure; the reverification ends the run either way, and only a
/// confirmed signed state counts as success.
pub open spec fn spec_feed_status(r: Runner, status: Result<bool, String>) -> Runner
    recommends
        r.phase is StatusCheck || r.phase is Reverify,
{
    let n = ((r.status_calls + 1) as u32);
    if r.phase is StatusCheck {
        match status {
            Result::Ok(true) => Runner {
                phase: Phase::Done,
                outcome: Some(CheckinOutcome::AlreadyClaimed),
                status_calls: n,
                ..r
            },
            Result::Ok(false) => Runner { phase: Phase::Claim, status_calls: n, ..r },
            Result::Err(e) => Runner {
                phase: Phase::Done,
                outcome: Some(CheckinOutcome::Failed(FailureReason::StatusCheck(e))),
                status_calls: n,
                ..r
            },
        }
    } else {
        match status {
            Result::Ok(true) => Runner {
                phase: Phase::Done,
                outcome: Some(CheckinOutcome::ClaimedNow),
                status_calls: n,
                ..r
            },
            _ => Runner {
                phase: Phase::Done,
                outcome: Some(CheckinOutcome::Failed(FailureReason::RewardNotGranted)),
                status_calls: n,
                ..r
            },
        }
    }
}

/// The transition taken when a decoded claim result arrives: an accepted
/// claim moves on to reverification, a rejected one ends the run.
pub open spec fn spec_feed_claim(r: Runner, claim: Result<(), String>) -> Runner
    recommends
        r.phase is Claim,
{
    let n = ((r.claim_calls + 1) as u32);
    match claim {
        Result::Ok(_) => Runner { phase: Phase::Reverify, claim_calls: n, ..r },
        Result::Err(e) => Runner {
            phase: Phase::Done,
            outcome: Some(CheckinOutcome::Failed(FailureReason::Claim(e))),
            claim_calls: n,
            ..r
        },
    }
}

/// The action a runner in the given state asks its caller to perform.
pub open spec fn spec_next_action(r: Runner) -> Action {
    match r.phase {
        Phase::StatusCheck => Action::CheckStatus,
        Phase::Claim => Action::Claim,
        Phase::Reverify => Action::CheckStatus,
        Phase::Done => Action::Finished(
            match r.outcome {
                Some(o) => outcome_success(o),
                None => false,
            },
        ),
    }
}

impl Runner {
    /// What always holds of a runner between calls: the counters follow the
    /// phase, and an outcome exists exactly at the end.
    pub open spec fn inv(self) -> bool {
        match self.phase {
            Phase::StatusCheck => self.status_calls == 0 && self.claim_calls == 0
                && self.outcome is None,
            Phase::Claim => self.status_calls == 1 && self.claim_calls == 0
                && self.outcome is None,
            Phase::Reverify => self.status_calls == 1 && self.claim_calls == 1
                && self.outcome is None,
            Phase::Done => self.status_calls <= 2 && self.claim_calls <= 1
                && self.outcome is Some,
        }
    }

    pub fn new() -> (r: Runner)
        ensures
            r == spec_new(),
            r.inv(),
    {
        Runner { phase: Phase::StatusCheck, outcome: None, status_calls: 0, claim_calls: 0 }
    }

    pub fn next_action(&self) -> (a: Action)
        ensures
            a == spec_next_action(*self),
    {
        match self.phase {
            Phase::StatusCheck => Action::CheckStatus,
            Phase::Claim => Action::Claim,
            Phase::Reverify => Action::CheckStatus,
            Phase::Done => Action::Finished(
                match &self.outcome {
                    Some(o) => outcome_is_success(o),
                    None => false,
                },
            ),
        }
    }

    /// Feeds the decoded result of the status check the runner asked for.
    pub fn feed_status(&mut self, status: Result<bool, String>)
        requires
            old(self).inv(),
            old(self).phase is StatusCheck || old(self).phase is Reverify,
        ensures
            *final(self) == spec_feed_status(*old(self), status),
            final(self).inv(),
    {
        self.status_calls = self.status_calls + 1;
        match self.phase {
            Phase::StatusCheck => {
                match status {
                    Ok(true) => {
                        self.phase = Phase::Done;
                        self.outcome = Some(CheckinOutcome::AlreadyClaimed);
                    },
                    Ok(false) => {
                        self.phase = Phase::Claim;
                    },
                    Err(e) => {
                        self.phase = Phase::Done;
                        self.outcome = Some(CheckinOutcome::Failed(FailureReason::StatusCheck(e)));
                    },
                }
            },
            _ => {
                match status {
                    Ok(true) => {
                        self.phase = Phase::Done;
                        self.outcome = Some(CheckinOutcome::ClaimedNow);
                    },
                    _ => {
                        self.phase = Phase::Done;
                        self.outcome = Some(
                            CheckinOutcome::Failed(FailureReason::RewardNotGranted),
                        );
                    },
                }
            },
        }
    }

    /// Feeds the decoded result of the claim call the runner asked for.
    pub fn feed_claim(&mut self, claim: Result<(), String>)
        requires
            old(self).inv(),
            old(self).phase is Claim,
        ensures
            *final(self) == spec_feed_claim(*old(self), claim),
            final(self).inv(),
    {
        self.claim_calls = self.claim_calls + 1;
        match claim {
            Ok(_) => {
                self.phase = Phase::Reverify;
            },
            Err(e) => {
                self.phase = Phase::Done;
                self.outcome = Some(CheckinOutcome::Failed(FailureReason::Claim(e)));
            },
        }
    }
}

/// Law: when the first status check reports the day as already signed, the
/// runner ends at once in success, with no claim call ever asked for.
pub proof fn lemma_already_signed_skips_claim(r: Runner)
    requires
        r == spec_feed_status(spec_new(), Result::<bool, String>::Ok(true)),
    ensures
        r.phase is Done,
        r.outcome == Some(CheckinOutcome::AlreadyClaimed),
        spec_next_action(r) == Action::Finished(true),
        r.claim_calls == 0,
        r.status_calls == 1,
{
}

/// Law: when the first status check reports not signed, the claim is
/// accepted, and the reverification reports signed, the runner ends in
/// success after exactly two status checks and one claim call.
pub proof fn lemma_claim_and_reverify_succeed(r1: Runner, r2: Runner, r3: Runner)
    requires
        r1 == spec_feed_status(spec_new(), Result::<bool, String>::Ok(false)),
        r2 == spec_feed_claim(r1, Result::<(), String>::Ok(())),
        r3 == spec_feed_status(r2, Result::<bool, String>::Ok(true)),
    ensures
        spec_next_action(r1) == Action::Claim,
        spec_next_action(r2) == Action::CheckStatus,
        r3.phase is Done,
        r3.outcome == Some(CheckinOutcome::ClaimedNow),
        spec_next_action(r3) == Action::Finished(true),
        r3.status_calls == 2,
        r3.claim_calls == 1,
{
}

/// Law: a claim response carrying the already-signed sentinel is accepted,
/// and the runner then proceeds to reverification rather than failing.
pub proof fn lemma_sentinel_counts_as_claim_success(resp: SignResponse, r1: Runner, r2: Runner)
    requires
        spec_return_code(resp) == ALREADY_SIGNED_RETCODE as int,
        r1.phase is Claim,
        r1.inv(),
        r2 == spec_feed_claim(r1, Result::<(), String>::Ok(())),
    ensures
        spec_claim_accepted(resp),
        r2.phase is Reverify,
        r2.outcome is None,
        spec_next_action(r2) == Action::CheckStatus,
{
}

/// Law: when the claim was accepted but the reverification does not report
/// the day as signed, the runner fails with the reward-not-granted outcome,
/// even though no transport error occurred.
pub proof fn lemma_unverified_claim_fails(r: Runner, status: Result<bool, String>, r2: Runner)
    requires
        r.phase is Reverify,
        r.inv(),
        !(status matches Result::Ok(true)),
        r2 == spec_feed_status(r, status),
    ensures
        r2.phase is Done,
        r2.outcome == Some(CheckinOutcome::Failed(FailureReason::RewardNotGranted)),
        spec_next_action(r2) == Action::Finished(false),
{
}

/// The console line reported for one account on one game, in the portal
/// tool's message templates.
pub open spec fn spec_outcome_line(account: Seq<char>, game: Seq<char>, o: CheckinOutcome) -> Seq<
    char,
> {
    match o {
        CheckinOutcome::AlreadyClaimed => "Daily check-in already done for "@ + account + " on "@
            + game + "!"@,
        CheckinOutcome::ClaimedNow => "Daily check-in successful for "@ + account + " on "@ + game
            + "!"@,
        CheckinOutcome::Failed(FailureReason::StatusCheck(e)) => "Failed check-in for "@ + account
            + " on "@ + game + ": "@ + e@,
        CheckinOutcome::Failed(FailureReason::Claim(e)) => "Failed to sign in for "@ + account
            + " on "@ + game + ": "@ + e@,
        CheckinOutcome::Failed(FailureReason::RewardNotGranted) => {
            "ERROR: Unable to claim check-in rewards for "@ + account + " on "@ + game
        },
    }
}

/// Renders the one console line for an outcome.
pub fn outcome_line(account: &str, game: &str, o: &CheckinOutcome) -> (r: String)
    ensures
        r@ == spec_outcome_line(account@, game@, *o),
{
    match o {
        CheckinOutcome::AlreadyClaimed => {
            let mut s = String::from_str("Daily check-in already done for ");
            s.append(account);
            s.append(" on ");
            s.append(game);
            s.append("!");
            s
        },
        CheckinOutcome::ClaimedNow => {
            let mut s = String::from_str("Daily check-in successful for ");
            s.append(account);
            s.append(" on ");
            s.append(game);
            s.append("!");
            s
        },
        CheckinOutcome::Failed(FailureReason::StatusCheck(e)) => {
            let mut s = String::from_str("Failed check-in for ");
            s.append(account);
            s.append(" on ");
            s.append(game);
            s.append(": ");
            s.append(e.as_str());
            s
        },
        CheckinOutcome::Failed(FailureReason::Claim(e)) => {
            let mut s = String::from_str("Failed to sign in for ");
            s.append(account);
            s.append(" on ");
            s.append(game);
            s.append(": ");
            s.append(e.as_str());
            s
        },
        CheckinOutcome::Failed(FailureReason::RewardNotGranted) => {
            let mut s = String::from_str("ERROR: Unable to claim check-in rewards for ");
            s.append(account);
            s.append(" on ");
            s.append(game);
            s
        },
    }
}

} // verus!
