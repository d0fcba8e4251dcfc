//! The report that the check engine produces for one repository, and the
//! table of check weights.

use vstd::prelude::*;

verus! {

/// What one check found in a repository.
///
/// A check that did not apply to the repository has no `CheckResult` at all:
/// its slot in the report is `None`.
#[derive(Clone, Debug, PartialEq, Eq)]
pub struct CheckResult {
    pub passed: bool,
    pub exempt: bool,
    pub value: Option<String>,
    pub details: Option<String>,
}

/// Whether a check slot counts toward scoring: `None` when the check is absent,
/// otherwise whether it passed or is exempt.
pub open spec fn counts(r: Option<CheckResult>) -> Option<bool> {
    match r {
        Some(c) => Some(c.passed || c.exempt),
        None => None,
    }
}

/// Collapses a check slot to "absent", "counts" or "does not count".
pub fn should_score(r: &Option<CheckResult>) -> (s: Option<bool>)
    ensures
        s == counts(*r),
{
    match r {
        Some(c) => Some(c.passed || c.exempt),
        None => None,
    }
}

#[derive(Clone, Debug, PartialEq, Eq)]
pub struct Documentation {
    pub adopters: Option<CheckResult>,
    pub changelog: Option<CheckResult>,
    pub code_of_conduct: Option<CheckResult>,
    pub contributing: Option<CheckResult>,
    pub governance: Option<CheckResult>,
    pub maintainers: Option<CheckResult>,
    pub readme: Option<CheckResult>,
    pub roadmap: Option<CheckResult>,
    pub website: Option<CheckResult>,
}

#[derive(Clone, Debug, PartialEq, Eq)]
pub struct License {
    pub approved: Option<CheckResult>,
    pub scanning: Option<CheckResult>,
    pub spdx_id: Option<CheckResult>,
}

#[derive(Clone, Debug, PartialEq, Eq)]
pub struct BestPractices {
    pub artifacthub_badge: Option<CheckResult>,
    pub community_meeting: Option<CheckResult>,
    pub dco: Option<CheckResult>,
    pub openssf_badge: Option<CheckResult>,
    pub recent_release: Option<CheckResult>,
    pub slack_presence: Option<CheckResult>,
}

#[derive(Clone, Debug, PartialEq, Eq)]
pub struct Security {
    pub sbom: Option<CheckResult>,
    pub security_policy: Option<CheckResult>,
}

#[derive(Clone, Debug, PartialEq, Eq)]
pub struct Legal {
    pub trademark_disclaimer: Option<CheckResult>,
}

/// The outcome of every check for one repository, grouped by category.
#[derive(Clone, Debug, PartialEq, Eq)]
pub struct Report {
    pub documentation: Documentation,
    pub license: License,
    pub best_practices: BestPractices,
    pub security: Security,
    pub legal: Legal,
}

/// The weight of each check. The table is built once and handed to the
/// scoring functions by reference; it is never changed afterwards.
#[derive(Clone, Copy, Debug, PartialEq, Eq, Structural)]
pub struct CheckWeights {
    pub adopters: u32,
    pub changelog: u32,
    pub code_of_conduct: u32,
    pub contributing: u32,
    pub governance: u32,
    pub maintainers: u32,
    pub readme: u32,
    pub roadmap: u32,
    pub website: u32,
    pub license_approved: u32,
    pub license_scanning: u32,
    pub license_spdx_id: u32,
    pub artifacthub_badge: u32,
    pub community_meeting: u32,
    pub dco: u32,
    pub openssf_badge: u32,
    pub recent_release: u32,
    pub slack_presence: u32,
    pub sbom: u32,
    pub security_policy: u32,
    pub trademark_disclaimer: u32,
}

impl CheckWeights {
    /// Every weight is a positive integer.
    pub open spec fn wf(&self) -> bool {
        &&& self.adopters > 0
        &&& self.changelog > 0
        &&& self.code_of_conduct > 0
        &&& self.contributing > 0
        &&& self.governance > 0
        &&& self.maintainers > 0
        &&& self.readme > 0
        &&& self.roadmap > 0
        &&& self.website > 0
        &&& self.license_approved > 0
        &&& self.license_scanning > 0
        &&& self.license_spdx_id > 0
        &&& self.artifacthub_badge > 0
        &&& self.community_meeting > 0
        &&& self.dco > 0
        &&& self.openssf_badge > 0
        &&& self.recent_release > 0
        &&& self.slack_presence > 0
        &&& self.sbom > 0
        &&& self.security_policy > 0
        &&& self.trademark_disclaimer > 0
    }

    pub open spec fn standard_spec() -> CheckWeights {
        CheckWeights {
            adopters: 1,
            changelog: 1,
            code_of_conduct: 2,
            contributing: 4,
            governance: 3,
            maintainers: 3,
            readme: 10,
            roadmap: 1,
            website: 5,
            license_approved: 10,
            license_scanning: 5,
            license_spdx_id: 5,
            artifacthub_badge: 1,
            community_meeting: 3,
            dco: 5,
            openssf_badge: 5,
            recent_release: 5,
            slack_presence: 1,
            sbom: 5,
            security_policy: 10,
            trademark_disclaimer: 5,
        }
    }

    /// The weight table used for every repository.
    pub fn standard() -> (w: CheckWeights)
        ensures
            w == Self::standard_spec(),
            w.wf(),
    {
        CheckWeights {
            adopters: 1,
            changelog: 1,
            code_of_conduct: 2,
            contributing: 4,
            governance: 3,
            maintainers: 3,
            readme: 10,
            roadmap: 1,
            website: 5,
            license_approved: 10,
            license_scanning: 5,
            license_spdx_id: 5,
            artifacthub_badge: 1,
            community_meeting: 3,
            dco: 5,
            openssf_badge: 5,
            recent_release: 5,
            slack_presence: 1,
            sbom: 5,
            security_policy: 10,
            trademark_disclaimer: 5,
        }
    }
}

/// The checks of the documentation category, each with its weight and whether
/// it counts.
pub open spec fn documentation_checks(d: Documentation, w: CheckWeights) -> Seq<(u32, Option<bool>)> {
    seq![
        (w.adopters, counts(d.adopters)),
        (w.changelog, counts(d.changelog)),
        (w.code_of_conduct, counts(d.code_of_conduct)),
        (w.contributing, counts(d.contributing)),
        (w.governance, counts(d.governance)),
        (w.maintainers, counts(d.maintainers)),
        (w.readme, counts(d.readme)),
        (w.roadmap, counts(d.roadmap)),
        (w.website, counts(d.website)),
    ]
}

pub open spec fn license_checks(l: License, w: CheckWeights) -> Seq<(u32, Option<bool>)> {
    seq![
        (w.license_approved, counts(l.approved)),
        (w.license_scanning, counts(l.scanning)),
        (w.license_spdx_id, counts(l.spdx_id)),
    ]
}

pub open spec fn best_practices_checks(b: BestPractices, w: CheckWeights) -> Seq<(u32, Option<bool>)> {
    seq![
        (w.artifacthub_badge, counts(b.artifacthub_badge)),
        (w.community_meeting, counts(b.community_meeting)),
        (w.dco, counts(b.dco)),
        (w.openssf_badge, counts(b.openssf_badge)),
        (w.recent_release, counts(b.recent_release)),
        (w.slack_presence, counts(b.slack_presence)),
    ]
}

pub open spec fn security_checks(s: Security, w: CheckWeights) -> Seq<(u32, Option<bool>)> {
    seq![(w.sbom, counts(s.sbom)), (w.security_policy, counts(s.security_policy))]
}

pub open spec fn legal_checks(l: Legal, w: CheckWeights) -> Seq<(u32, Option<bool>)> {
    seq![(w.trademark_disclaimer, counts(l.trademark_disclaimer))]
}

} // verus!
