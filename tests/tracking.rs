use clomonitor::pipeline::{is_fresh, project_update, Action, Event, Outcome, Pipeline, Stage, DAY_MILLIS};
use clomonitor::report::{
    BestPractices, CheckResult, CheckWeights, Documentation, Legal, License, Report, Security,
};
use clomonitor::scheduler::{Scheduler, Step};
use clomonitor::score::{calculate, Ratio};

const NOW: i64 = 1_700_000_000_000;

fn report(readme_passed: bool) -> Report {
    Report {
        documentation: Documentation {
            adopters: None,
            changelog: None,
            code_of_conduct: None,
            contributing: None,
            governance: None,
            maintainers: None,
            readme: Some(CheckResult { passed: readme_passed, exempt: false, value: None, details: None }),
            roadmap: None,
            website: None,
        },
        license: License { approved: None, scanning: None, spdx_id: None },
        best_practices: BestPractices {
            artifacthub_badge: None,
            community_meeting: None,
            dco: None,
            openssf_badge: None,
            recent_release: None,
            slack_presence: None,
        },
        security: Security { sbom: None, security_policy: None },
        legal: Legal { trademark_disclaimer: None },
    }
}

fn digest(p: &mut Pipeline, d: &str, now: i64) -> Action {
    p.on_event(Event::DigestFetched { digest: d.to_string(), now }, &CheckWeights::standard())
}

#[test]
fn fresh_repository_is_skipped_without_clone_lint_or_persist() {
    let (mut p, a) = Pipeline::new(Some("abc".to_string()), NOW - 1000);
    assert!(matches!(a, Action::FetchDigest));
    let a = digest(&mut p, "abc", NOW);
    assert!(matches!(a, Action::Finish(Outcome::Skipped)));
    assert_eq!(p.stage, Stage::Done);
    let w = CheckWeights::standard();
    assert!(matches!(p.on_event(Event::Cloned, &w), Action::Ignore));
    assert!(matches!(p.on_event(Event::Linted(report(true)), &w), Action::Ignore));
    assert!(matches!(p.on_event(Event::Committed, &w), Action::Ignore));
}

#[test]
fn changed_digest_is_tracked() {
    let (mut p, _) = Pipeline::new(Some("abc".to_string()), NOW - 1000);
    assert!(matches!(digest(&mut p, "def", NOW), Action::Clone));
    assert_eq!(p.stage, Stage::Cloning);
}

#[test]
fn stale_repository_is_tracked_even_with_same_digest() {
    let (mut p, _) = Pipeline::new(Some("abc".to_string()), NOW - DAY_MILLIS);
    assert!(matches!(digest(&mut p, "abc", NOW), Action::Clone));
}

#[test]
fn never_tracked_repository_is_tracked() {
    let (mut p, _) = Pipeline::new(None, NOW);
    assert!(matches!(digest(&mut p, "abc", NOW), Action::Clone));
}

#[test]
fn freshness_rule() {
    let d = Some("x".to_string());
    assert!(is_fresh(&d, &"x".to_string(), NOW - DAY_MILLIS + 1, NOW));
    assert!(!is_fresh(&d, &"x".to_string(), NOW - DAY_MILLIS, NOW));
    assert!(!is_fresh(&d, &"y".to_string(), NOW, NOW));
    assert!(!is_fresh(&None, &"x".to_string(), NOW, NOW));
    assert!(is_fresh(&d, &"x".to_string(), i64::MAX, i64::MIN));
    assert!(!is_fresh(&d, &"x".to_string(), i64::MIN, i64::MAX));
}

#[test]
fn successful_lint_persists_report_score_and_digest() {
    let w = CheckWeights::standard();
    let (mut p, _) = Pipeline::new(Some("old".to_string()), NOW - 10 * DAY_MILLIS);
    assert!(matches!(digest(&mut p, "new", NOW), Action::Clone));
    assert!(matches!(p.on_event(Event::Cloned, &w), Action::Lint));
    match p.on_event(Event::Linted(report(true)), &w) {
        Action::Persist(plan) => {
            assert_eq!(plan.report, Some(report(true)));
            assert_eq!(plan.errors, None);
            assert_eq!(plan.score, Some(calculate(&report(true))));
            assert_eq!(plan.digest, "new");
        }
        _ => panic!("expected a persist action"),
    }
    assert!(matches!(p.on_event(Event::Committed, &w), Action::Finish(Outcome::Completed)));
}

#[test]
fn lint_failure_records_error_and_keeps_score() {
    let w = CheckWeights::standard();
    let (mut p, _) = Pipeline::new(None, NOW);
    digest(&mut p, "d1", NOW);
    p.on_event(Event::Cloned, &w);
    match p.on_event(Event::LintFailed("engine crashed".to_string()), &w) {
        Action::Persist(plan) => {
            assert_eq!(plan.report, None);
            assert_eq!(plan.score, None);
            assert_eq!(plan.errors, Some("engine crashed".to_string()));
            assert_eq!(plan.digest, "d1");
        }
        _ => panic!("expected a persist action"),
    }
    assert_eq!(p.stage, Stage::Persisting);
}

#[test]
fn hard_failures_abort_the_cycle() {
    let w = CheckWeights::standard();
    let (mut p, _) = Pipeline::new(None, NOW);
    match p.on_event(Event::Failed("ls-remote failed".to_string()), &w) {
        Action::Finish(Outcome::Failed(e)) => assert_eq!(e, "ls-remote failed"),
        _ => panic!("expected a failure"),
    }
    let (mut p, _) = Pipeline::new(None, NOW);
    digest(&mut p, "d", NOW);
    assert!(matches!(
        p.on_event(Event::Failed("clone failed".to_string()), &w),
        Action::Finish(Outcome::Failed(_))
    ));
    let (mut p, _) = Pipeline::new(None, NOW);
    digest(&mut p, "d", NOW);
    p.on_event(Event::Cloned, &w);
    p.on_event(Event::Linted(report(false)), &w);
    assert!(matches!(
        p.on_event(Event::Failed("tx failed".to_string()), &w),
        Action::Finish(Outcome::Failed(_))
    ));
    assert_eq!(p.stage, Stage::Done);
}

#[test]
fn unexpected_event_changes_nothing() {
    let w = CheckWeights::standard();
    let (mut p, _) = Pipeline::new(None, NOW);
    assert!(matches!(p.on_event(Event::Committed, &w), Action::Ignore));
    assert_eq!(p.stage, Stage::Probing);
}

#[test]
fn project_update_merges_and_rates() {
    assert!(project_update(vec![]).is_none());
    let (s, c) = project_update(vec![calculate(&report(true)), calculate(&report(false))]).unwrap();
    assert_eq!(s.global, Ratio { num: 1000, den: 20 });
    assert_eq!(c, 'b');
}

fn run_batch(total: usize, limit: usize, fail_every: usize) -> (Scheduler, usize) {
    let mut s = Scheduler::new(total, limit);
    let mut running: Vec<usize> = Vec::new();
    let mut peak = 0;
    let mut ended = 0;
    loop {
        match s.next() {
            Step::Launch(i) => {
                assert_eq!(i, s.launched);
                s.launch();
                running.push(i);
                peak = peak.max(running.len());
            }
            Step::Wait => {
                let i = running.remove(0);
                ended += 1;
                s.end(fail_every == 0 || i % fail_every != 0);
            }
            Step::Done => break,
        }
    }
    assert_eq!(ended, total);
    (s, peak)
}

#[test]
fn pool_never_exceeds_limit_and_finishes_all() {
    let (s, peak) = run_batch(10, 3, 0);
    assert_eq!(peak, 3);
    assert_eq!(s.finished, 10);
    assert_eq!(s.in_flight, 0);
    assert_eq!(s.failed, 0);
}

#[test]
fn pool_refills_as_soon_as_one_ends() {
    let mut s = Scheduler::new(5, 2);
    assert_eq!(s.next(), Step::Launch(0));
    s.launch();
    assert_eq!(s.next(), Step::Launch(1));
    s.launch();
    assert_eq!(s.next(), Step::Wait);
    s.end(true);
    assert_eq!(s.next(), Step::Launch(2));
}

#[test]
fn failures_do_not_stop_the_batch() {
    let (s, _) = run_batch(7, 2, 2);
    assert_eq!(s.finished, 7);
    assert_eq!(s.failed, 4);
    assert_eq!(s.next(), Step::Done);
}

#[test]
fn empty_batch_is_done_at_once() {
    let s = Scheduler::new(0, 4);
    assert_eq!(s.next(), Step::Done);
}
