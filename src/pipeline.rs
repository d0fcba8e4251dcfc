//! The tracking of one repository as a state machine.
//!
//! A pipeline probes the remote digest, then either stops (the repository is
//! fresh) or clones, lints and persists. The machine decides; the caller does
//! the work that each action names and reports back what came of it.

use crate::report::{CheckWeights, Report};
use crate::score::{calculate_with_weights, merge, merge_of, rating, rating_of, score_of, Score};
use vstd::prelude::*;

verus! {

/// Milliseconds in a day: a repository is re-evaluated at least this often.
pub const DAY_MILLIS: i64 = 86_400_000;

/// Where a pipeline stands.
#[derive(Clone, Copy, Debug, PartialEq, Eq, Structural)]
pub enum Stage {
    Probing,
    Cloning,
    Linting,
    Persisting,
    Done,
}

/// What came of the last action.
#[derive(Clone, Debug)]
pub enum Event {
    /// The remote default branch's digest was read at `now` (milliseconds
    /// since the epoch).
    DigestFetched { digest: String, now: i64 },
    /// The repository was cloned.
    Cloned,
    /// The check engine produced a report.
    Linted(Report),
    /// The check engine failed with this message.
    LintFailed(String),
    /// The persisting transaction committed.
    Committed,
    /// Reading the digest, cloning, or the transaction failed.
    Failed(String),
}

/// How a pipeline ended.
#[derive(Clone, Debug, PartialEq, Eq)]
pub enum Outcome {
    /// The repository was fresh: nothing was cloned, linted or written.
    Skipped,
    /// The tracking results were committed.
    Completed,
    /// The cycle was aborted with this error; nothing was written.
    Failed(String),
}

/// The writes of one transaction: the report row (report and error text),
/// the repository's score when there is a report, the project's merged score,
/// and the repository's digest.
#[derive(Clone, Debug)]
pub struct PersistPlan {
    pub report: Option<Report>,
    pub errors: Option<String>,
    pub score: Option<Score>,
    pub digest: String,
}

/// What the caller is to do next.
#[derive(Clone, Debug)]
pub enum Action {
    FetchDigest,
    Clone,
    Lint,
    Persist(PersistPlan),
    Finish(Outcome),
    /// The event does not fit the stage: nothing changed.
    Ignore,
}

/// The tracking state of one repository.
#[derive(Clone, Debug)]
pub struct Pipeline {
    pub stage: Stage,
    /// The digest stored when the repository was last tracked.
    pub stored_digest: Option<String>,
    /// When the repository was last tracked, in milliseconds since the epoch.
    pub updated_at: i64,
    /// The digest read from the remote in this cycle.
    pub remote_digest: Option<String>,
}

/// A repository is fresh when its digest is unchanged and it was tracked
/// less than a day before `now`.
pub open spec fn fresh(stored: Option<String>, remote: Seq<char>, updated_at: i64, now: i64) -> bool {
    &&& stored matches Some(d) && d@ == remote
    &&& updated_at > now - DAY_MILLIS
}

/// Whether a repository can be skipped in this cycle.
pub fn is_fresh(stored: &Option<String>, remote: &String, updated_at: i64, now: i64) -> (b: bool)
    ensures
        b == fresh(*stored, remote@, updated_at, now),
{
    match stored {
        Some(d) => {
            if d.eq(remote) {
                (updated_at as i128) > (now as i128) - (DAY_MILLIS as i128)
            } else {
                false
            }
        },
        None => false,
    }
}

/// The plan for a report, or for the error that took its place.
pub open spec fn plan_of(
    lint: Result<Report, String>,
    digest: Option<String>,
    w: CheckWeights,
) -> PersistPlan {
    match lint {
        Ok(r) => PersistPlan {
            report: Some(r),
            errors: None,
            score: Some(score_of(r, w)),
            digest: digest.unwrap(),
        },
        Err(e) => PersistPlan { report: None, errors: Some(e), score: None, digest: digest.unwrap() },
    }
}

impl Pipeline {
    pub open spec fn with_stage(self, s: Stage) -> Pipeline {
        Pipeline { stage: s, ..self }
    }

    /// The transition on an event: the next state and the action to take.
    pub open spec fn step(self, e: Event, w: CheckWeights) -> (Pipeline, Action) {
        match (self.stage, e) {
            (Stage::Probing, Event::DigestFetched { digest, now }) => {
                if fresh(self.stored_digest, digest@, self.updated_at, now) {
                    (self.with_stage(Stage::Done), Action::Finish(Outcome::Skipped))
                } else {
                    (
                        Pipeline { stage: Stage::Cloning, remote_digest: Some(digest), ..self },
                        Action::Clone,
                    )
                }
            },
            (Stage::Cloning, Event::Cloned) => (self.with_stage(Stage::Linting), Action::Lint),
            (Stage::Linting, Event::Linted(r)) => (
                self.with_stage(Stage::Persisting),
                Action::Persist(plan_of(Ok(r), self.remote_digest, w)),
            ),
            (Stage::Linting, Event::LintFailed(msg)) => (
                self.with_stage(Stage::Persisting),
                Action::Persist(plan_of(Err(msg), self.remote_digest, w)),
            ),
            (Stage::Persisting, Event::Committed) => (
                self.with_stage(Stage::Done),
                Action::Finish(Outcome::Completed),
            ),
            (Stage::Probing, Event::Failed(msg)) => (
                self.with_stage(Stage::Done),
                Action::Finish(Outcome::Failed(msg)),
            ),
            (Stage::Cloning, Event::Failed(msg)) => (
                self.with_stage(Stage::Done),
                Action::Finish(Outcome::Failed(msg)),
            ),
            (Stage::Persisting, Event::Failed(msg)) => (
                self.with_stage(Stage::Done),
                Action::Finish(Outcome::Failed(msg)),
            ),
            _ => (self, Action::Ignore),
        }
    }

    /// The remote digest is known from cloning on.
    pub open spec fn wf(self) -> bool {
        match self.stage {
            Stage::Cloning | Stage::Linting | Stage::Persisting => self.remote_digest is Some,
            _ => true,
        }
    }

    /// Start tracking a repository: the first action reads its remote digest.
    pub fn new(stored_digest: Option<String>, updated_at: i64) -> (r: (Pipeline, Action))
        ensures
            r.0 == (Pipeline { stage: Stage::Probing, stored_digest, updated_at, remote_digest: None }),
            r.1 == Action::FetchDigest,
            r.0.wf(),
    {
        (Pipeline { stage: Stage::Probing, stored_digest, updated_at, remote_digest: None }, Action::FetchDigest)
    }

    /// Advance on an event and return the action to take.
    pub fn on_event(&mut self, e: Event, weights: &CheckWeights) -> (a: Action)
        requires
            old(self).wf(),
        ensures
            (*final(self), a) == old(self).step(e, *weights),
            final(self).wf(),
    {
        match (self.stage, e) {
            (Stage::Probing, Event::DigestFetched { digest, now }) => {
                if is_fresh(&self.stored_digest, &digest, self.updated_at, now) {
                    self.stage = Stage::Done;
                    Action::Finish(Outcome::Skipped)
                } else {
                    self.stage = Stage::Cloning;
                    self.remote_digest = Some(digest);
                    Action::Clone
                }
            },
            (Stage::Cloning, Event::Cloned) => {
                self.stage = Stage::Linting;
                Action::Lint
            },
            (Stage::Linting, Event::Linted(r)) => {
                self.stage = Stage::Persisting;
                let score = calculate_with_weights(&r, weights);
                let digest = self.remote_digest.clone().unwrap();
                Action::Persist(PersistPlan { report: Some(r), errors: None, score: Some(score), digest })
            },
            (Stage::Linting, Event::LintFailed(msg)) => {
                self.stage = Stage::Persisting;
                let digest = self.remote_digest.clone().unwrap();
                Action::Persist(PersistPlan { report: None, errors: Some(msg), score: None, digest })
            },
            (Stage::Persisting, Event::Committed) => {
                self.stage = Stage::Done;
                Action::Finish(Outcome::Completed)
            },
            (Stage::Probing, Event::Failed(msg))
            | (Stage::Cloning, Event::Failed(msg))
            | (Stage::Persisting, Event::Failed(msg)) => {
                self.stage = Stage::Done;
                Action::Finish(Outcome::Failed(msg))
            },
            _ => Action::Ignore,
        }
    }
}

/// The project's new score and rating, from the current scores of all its
/// repositories; `None`, nothing to write, when none of them has a score.
pub fn project_update(scores: Vec<Score>) -> (r: Option<(Score, char)>)
    requires
        forall|i: int| 0 <= i < scores@.len() ==> scores@[i].is_raw(),
    ensures
        scores@.len() == 0 ==> r is None,
        scores@.len() > 0 ==> r == Some((merge_of(scores@), rating_of(merge_of(scores@).global))),
{
    if scores.len() == 0 {
        return None;
    }
    let merged = merge(scores);
    let c = rating(merged.global);
    Some((merged, c))
}

/// A fresh repository is skipped at once: the pipeline ends on reading the
/// digest, and no later event makes it clone, lint or persist.
pub proof fn lemma_fresh_repository_is_skipped(
    p: Pipeline,
    digest: String,
    now: i64,
    w: CheckWeights,
    later: Event,
)
    requires
        p.stage == Stage::Probing,
        fresh(p.stored_digest, digest@, p.updated_at, now),
    ensures
        p.step(Event::DigestFetched { digest, now }, w) == (
            p.with_stage(Stage::Done),
            Action::Finish(Outcome::Skipped),
        ),
        p.with_stage(Stage::Done).step(later, w) == (p.with_stage(Stage::Done), Action::Ignore),
{
}

/// A lint failure persists its message as the report's error and no score,
/// so the repository's stored score stays as it was; the digest is still
/// updated to the one just read.
pub proof fn lemma_lint_failure_keeps_score(p: Pipeline, msg: String, w: CheckWeights)
    requires
        p.stage == Stage::Linting,
        p.wf(),
    ensures
        p.step(Event::LintFailed(msg), w).1 matches Action::Persist(plan) && plan.score is None
            && plan.errors == Some(msg) && plan.report is None && Some(plan.digest)
            == p.remote_digest,
{
}

} // verus!
