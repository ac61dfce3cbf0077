//! The search for a worker that starts and answers its health check.
//!
//! The candidates are tried in order. The caller starts the current
//! candidate, runs the health check, and records what happened; the search
//! says what to do with the process and moves on.

use vstd::prelude::*;
use crate::bridge::{candidate_models, launch_candidates, launch_models, LaunchSpec};

verus! {

/// What happened when a candidate was tried.
#[derive(Clone, Debug, PartialEq, Eq)]
pub enum AttemptOutcome {
    /// The process could not be started; the text says why.
    SpawnFailed(String),
    /// The process started without a pipe to its input.
    NoStdin,
    /// The process started without a pipe from its output.
    NoStdout,
    /// The health check was answered with a well-formed reply.
    HealthReplied,
    /// The health check failed; the text says why.
    HealthFailed(String),
    /// The health check was not answered in time.
    HealthTimedOut,
}

/// What to do after an attempt.
#[derive(Copy, Clone, Debug, PartialEq, Eq)]
pub enum AttemptVerdict {
    /// Keep the process as the worker and stop searching.
    Adopt,
    /// Kill the process and go on with the next candidate.
    KillAndContinue,
    /// There is no process; go on with the next candidate.
    Continue,
}

/// The state of a search: the candidates, how many of them have failed, and
/// the error of the latest failure.
#[derive(Clone, Debug)]
pub struct SpawnSearch {
    pub candidates: Vec<LaunchSpec>,
    pub position: usize,
    pub last_error: String,
}

/// What to do after an attempt with the given outcome.
pub open spec fn verdict_of(outcome: AttemptOutcome) -> AttemptVerdict {
    match outcome {
        AttemptOutcome::HealthReplied => AttemptVerdict::Adopt,
        AttemptOutcome::SpawnFailed(_) => AttemptVerdict::Continue,
        _ => AttemptVerdict::KillAndContinue,
    }
}

/// The error that a failed attempt leaves behind: the candidate's program,
/// then what went wrong. A successful attempt leaves none.
pub open spec fn failure_message(program: Seq<char>, outcome: AttemptOutcome) -> Option<Seq<char>> {
    match outcome {
        AttemptOutcome::SpawnFailed(e) => Some(program + ": "@ + e@),
        AttemptOutcome::NoStdin => Some(program + ": no stdin pipe"@),
        AttemptOutcome::NoStdout => Some(program + ": no stdout pipe"@),
        AttemptOutcome::HealthReplied => None,
        AttemptOutcome::HealthFailed(e) => Some(program + ": health request failed: "@ + e@),
        AttemptOutcome::HealthTimedOut => Some(program + ": health request timed out"@),
    }
}

/// The error of a search in which nothing was tried yet.
pub open spec fn nothing_attempted() -> Seq<char> {
    "no python candidates attempted"@
}

impl SpawnSearch {
    /// The search has not gone past the end of its candidates.
    pub open spec fn wf(&self) -> bool {
        self.position <= self.candidates@.len()
    }

    /// Whether every candidate has failed.
    pub open spec fn is_exhausted(&self) -> bool {
        self.position >= self.candidates@.len()
    }

    /// Starts a search at the first candidate. The candidates are the
    /// operator's override, unless absent or blank, and then the built-in
    /// ones.
    pub fn begin(custom: Option<&str>) -> (r: SpawnSearch)
        ensures
            r.wf(),
            r.position == 0,
            !r.is_exhausted(),
            r.last_error@ == nothing_attempted(),
            launch_models(r.candidates@) == candidate_models(
                match custom {
                    Some(c) => Some(c@),
                    None => None,
                },
            ),
    {
        SpawnSearch {
            candidates: launch_candidates(custom),
            position: 0,
            last_error: String::from_str("no python candidates attempted"),
        }
    }

    /// Tells whether the search is well-formed.
    pub fn is_well_formed(&self) -> (r: bool)
        ensures
            r == self.wf(),
    {
        self.position <= self.candidates.len()
    }

    /// Tells whether every candidate has failed.
    pub fn exhausted(&self) -> (r: bool)
        ensures
            r == self.is_exhausted(),
    {
        self.position >= self.candidates.len()
    }

    /// Returns the candidate to try now, or nothing if all have failed.
    pub fn current(&self) -> (r: Option<&LaunchSpec>)
        ensures
            r is Some <==> !self.is_exhausted(),
            r matches Some(c) ==> *c == self.candidates@[self.position as int],
    {
        if self.position < self.candidates.len() {
            Some(&self.candidates[self.position])
        } else {
            None
        }
    }

    /// Records the outcome of trying the current candidate and says what to
    /// do next. A candidate that answered its health check is adopted and the
    /// search stays where it is. Any other outcome leaves its error behind
    /// and moves the search to the next candidate. With no candidate left
    /// there is nothing to record and nothing changes.
    pub fn record(&mut self, outcome: &AttemptOutcome) -> (r: Option<AttemptVerdict>)
        requires
            old(self).wf(),
        ensures
            final(self).wf(),
            final(self).candidates == old(self).candidates,
            old(self).is_exhausted() ==> r is None && *final(self) == *old(self),
            !old(self).is_exhausted() ==> r == Some(verdict_of(*outcome)),
            !old(self).is_exhausted() && *outcome == AttemptOutcome::HealthReplied ==> *final(self) == *old(self),
            !old(self).is_exhausted() && *outcome != AttemptOutcome::HealthReplied ==> {
                &&& final(self).position == old(self).position + 1
                &&& Some(final(self).last_error@) == failure_message(
                    old(self).candidates@[old(self).position as int].program@,
                    *outcome,
                )
            },
    {
        if self.position >= self.candidates.len() {
            return None;
        }
        let mut message = self.candidates[self.position].program.clone();
        let verdict = match outcome {
            AttemptOutcome::HealthReplied => {
                return Some(AttemptVerdict::Adopt);
            },
            AttemptOutcome::SpawnFailed(e) => {
                message.append(": ");
                message.append(e.as_str());
                AttemptVerdict::Continue
            },
            AttemptOutcome::NoStdin => {
                message.append(": no stdin pipe");
                AttemptVerdict::KillAndContinue
            },
            AttemptOutcome::NoStdout => {
                message.append(": no stdout pipe");
                AttemptVerdict::KillAndContinue
            },
            AttemptOutcome::HealthFailed(e) => {
                message.append(": health request failed: ");
                message.append(e.as_str());
                AttemptVerdict::KillAndContinue
            },
            AttemptOutcome::HealthTimedOut => {
                message.append(": health request timed out");
                AttemptVerdict::KillAndContinue
            },
        };
        self.last_error = message;
        self.position = self.position + 1;
        Some(verdict)
    }

    /// Ends the search and returns the error of the latest failure, which is
    /// what a search that ran out of candidates reports.
    pub fn into_error(self) -> (r: String)
        ensures
            r == self.last_error,
    {
        self.last_error
    }
}

/// Every outcome but a health reply leaves an error behind, and none of
/// them has the process adopted.
pub proof fn lemma_failure_always_has_message(program: Seq<char>, outcome: AttemptOutcome)
    requires
        outcome != AttemptOutcome::HealthReplied,
    ensures
        failure_message(program, outcome) is Some,
        verdict_of(outcome) != AttemptVerdict::Adopt,
{
}

} // verus!
