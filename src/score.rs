//! Weighted scores: one per category and a global one for a repository, and
//! the merge of several repositories' scores into a project score.
//!
//! Scores are exact fractions. A category's value is `100 * passing / weight`,
//! where `weight` sums the weights of the checks present in the category and
//! `passing` those of the present checks that passed or are exempt.

use crate::report::{
    best_practices_checks, documentation_checks, legal_checks, license_checks, security_checks,
    should_score, CheckWeights, Report,
};
use vstd::prelude::*;

verus! {

/// Upper bound of the weight of a per-repository score (of a category or the
/// global one). A table of 21 checks with `u32` weights stays below it.
pub const MAX_SCORE_WEIGHT: u64 = 1_099_511_627_776;

/// An exact fraction `num / den`, used for values between 0 and 100.
#[derive(Clone, Copy, Debug, PartialEq, Eq, Structural)]
pub struct Ratio {
    pub num: u128,
    pub den: u128,
}

/// The global part of a score, or one of its five categories.
#[derive(Clone, Copy, Debug, PartialEq, Eq, Structural)]
pub enum Part {
    Global,
    Documentation,
    License,
    BestPractices,
    Security,
    Legal,
}

/// Score information.
///
/// A category's value is present exactly when its weight is, and then the
/// weight is positive. `global_weight` sums the present categories' weights,
/// and `global` is 0 when that sum is 0. A score produced by `merge` has its
/// weights cleared.
#[derive(Clone, Copy, Debug, PartialEq, Eq, Structural)]
pub struct Score {
    pub global: Ratio,
    pub global_weight: u64,
    pub documentation: Option<Ratio>,
    pub documentation_weight: Option<u64>,
    pub license: Option<Ratio>,
    pub license_weight: Option<u64>,
    pub best_practices: Option<Ratio>,
    pub best_practices_weight: Option<u64>,
    pub security: Option<Ratio>,
    pub security_weight: Option<u64>,
    pub legal: Option<Ratio>,
    pub legal_weight: Option<u64>,
}

/// Summed weight of the checks that are present.
pub open spec fn present_weight(checks: Seq<(u32, Option<bool>)>) -> int
    decreases checks.len(),
{
    if checks.len() == 0 {
        0
    } else {
        present_weight(checks.drop_last()) + if checks.last().1 is Some {
            checks.last().0 as int
        } else {
            0
        }
    }
}

/// Summed weight of the checks that are present and count toward scoring.
pub open spec fn passing_weight(checks: Seq<(u32, Option<bool>)>) -> int
    decreases checks.len(),
{
    if checks.len() == 0 {
        0
    } else {
        passing_weight(checks.drop_last()) + if checks.last().1 == Some(true) {
            checks.last().0 as int
        } else {
            0
        }
    }
}

/// A category's value and weight: `(None, None)` when its present checks
/// weigh nothing, else `100 * passing / weight` and `weight`.
pub open spec fn section_of(checks: Seq<(u32, Option<bool>)>) -> (Option<Ratio>, Option<u64>) {
    let w = present_weight(checks);
    if w == 0 {
        (None, None)
    } else {
        (
            Some(Ratio { num: (100 * passing_weight(checks)) as u128, den: w as u128 }),
            Some(w as u64),
        )
    }
}

pub open spec fn weight_or_zero(w: Option<u64>) -> int {
    match w {
        Some(w) => w as int,
        None => 0,
    }
}

/// `value * weight`: what a present part brings to a weighted mean.
pub open spec fn mass(v: Option<Ratio>, w: Option<u64>) -> int {
    match (v, w) {
        (Some(r), Some(w)) => if r.den == 0 {
            0
        } else {
            (r.num as int) * (w as int) / (r.den as int)
        },
        _ => 0,
    }
}

/// `mass / weight`, or 0 when nothing weighs.
pub open spec fn weighted_mean(m: int, w: int) -> Ratio {
    if w == 0 {
        Ratio { num: 0, den: 1 }
    } else {
        Ratio { num: m as u128, den: w as u128 }
    }
}

/// A score from its five categories' values and weights: the global value is
/// the mean of the present categories' values, weighted by their weights.
pub open spec fn score_from_sections(
    d: (Option<Ratio>, Option<u64>),
    l: (Option<Ratio>, Option<u64>),
    b: (Option<Ratio>, Option<u64>),
    s: (Option<Ratio>, Option<u64>),
    g: (Option<Ratio>, Option<u64>),
) -> Score {
    let gw = weight_or_zero(d.1) + weight_or_zero(l.1) + weight_or_zero(b.1) + weight_or_zero(s.1)
        + weight_or_zero(g.1);
    let gm = mass(d.0, d.1) + mass(l.0, l.1) + mass(b.0, b.1) + mass(s.0, s.1) + mass(g.0, g.1);
    Score {
        global: weighted_mean(gm, gw),
        global_weight: gw as u64,
        documentation: d.0,
        documentation_weight: d.1,
        license: l.0,
        license_weight: l.1,
        best_practices: b.0,
        best_practices_weight: b.1,
        security: s.0,
        security_weight: s.1,
        legal: g.0,
        legal_weight: g.1,
    }
}

/// The score of a report under a weight table: each category from its own
/// checks, and the global value from the categories.
pub open spec fn score_of(r: Report, w: CheckWeights) -> Score {
    score_from_sections(
        section_of(documentation_checks(r.documentation, w)),
        section_of(license_checks(r.license, w)),
        section_of(best_practices_checks(r.best_practices, w)),
        section_of(security_checks(r.security, w)),
        section_of(legal_checks(r.legal, w)),
    )
}

/// A part as a per-repository score holds it: at most `MAX_SCORE_WEIGHT`, and
/// when the weight is positive the value is `num / weight` and at most 100.
pub open spec fn part_is_raw(v: Option<Ratio>, w: Option<u64>) -> bool {
    match (v, w) {
        (Some(r), Some(w)) => w <= MAX_SCORE_WEIGHT && (w > 0 ==> r.den == w && r.num <= 100
            * r.den),
        (None, None) => true,
        _ => false,
    }
}

/// Summed weight of a part over several scores.
pub open spec fn total_weight(s: Seq<Score>, p: Part) -> int
    decreases s.len(),
{
    if s.len() == 0 {
        0
    } else {
        total_weight(s.drop_last(), p) + weight_or_zero(s.last().part_weight(p))
    }
}

/// Summed mass of a part over several scores.
pub open spec fn total_mass(s: Seq<Score>, p: Part) -> int
    decreases s.len(),
{
    if s.len() == 0 {
        0
    } else {
        total_mass(s.drop_last(), p) + mass(s.last().part_value(p), s.last().part_weight(p))
    }
}

/// A category of the merged score: absent when no member weighs in it, else
/// the members' values averaged by their weights.
pub open spec fn merged_value(s: Seq<Score>, p: Part) -> Option<Ratio> {
    if total_weight(s, p) == 0 {
        None
    } else {
        Some(Ratio { num: total_mass(s, p) as u128, den: total_weight(s, p) as u128 })
    }
}

/// The merge of several per-repository scores; its weights are cleared.
pub open spec fn merge_of(s: Seq<Score>) -> Score {
    Score {
        global: weighted_mean(total_mass(s, Part::Global), total_weight(s, Part::Global)),
        global_weight: 0,
        documentation: merged_value(s, Part::Documentation),
        documentation_weight: None,
        license: merged_value(s, Part::License),
        license_weight: None,
        best_practices: merged_value(s, Part::BestPractices),
        best_practices_weight: None,
        security: merged_value(s, Part::Security),
        security_weight: None,
        legal: merged_value(s, Part::Legal),
        legal_weight: None,
    }
}

/// The rating of a value, by its integer part: `[75, 100]` is 'a', `[50, 75)`
/// 'b', `[25, 50)` 'c', `[0, 25)` 'd'; anything else is '?'.
pub open spec fn rating_of(r: Ratio) -> char {
    if r.den == 0 {
        '?'
    } else {
        let q = r.num / r.den;
        if q > 100 || (q == 100 && r.num % r.den != 0) {
            '?'
        } else if q >= 75 {
            'a'
        } else if q >= 50 {
            'b'
        } else if q >= 25 {
            'c'
        } else {
            'd'
        }
    }
}

impl Score {
    pub open spec fn part_value(self, p: Part) -> Option<Ratio> {
        match p {
            Part::Global => Some(self.global),
            Part::Documentation => self.documentation,
            Part::License => self.license,
            Part::BestPractices => self.best_practices,
            Part::Security => self.security,
            Part::Legal => self.legal,
        }
    }

    pub open spec fn part_weight(self, p: Part) -> Option<u64> {
        match p {
            Part::Global => Some(self.global_weight),
            Part::Documentation => self.documentation_weight,
            Part::License => self.license_weight,
            Part::BestPractices => self.best_practices_weight,
            Part::Security => self.security_weight,
            Part::Legal => self.legal_weight,
        }
    }

    /// A per-repository score, as `calculate` makes it and `merge` takes it.
    pub open spec fn is_raw(self) -> bool {
        &&& part_is_raw(Some(self.global), Some(self.global_weight))
        &&& part_is_raw(self.documentation, self.documentation_weight)
        &&& part_is_raw(self.license, self.license_weight)
        &&& part_is_raw(self.best_practices, self.best_practices_weight)
        &&& part_is_raw(self.security, self.security_weight)
        &&& part_is_raw(self.legal, self.legal_weight)
        &&& self.documentation_weight != Some(0u64)
        &&& self.license_weight != Some(0u64)
        &&& self.best_practices_weight != Some(0u64)
        &&& self.security_weight != Some(0u64)
        &&& self.legal_weight != Some(0u64)
    }

    /// Create a new empty score.
    pub fn new() -> (s: Score)
        ensures
            s.global == (Ratio { num: 0, den: 1 }),
            s.global_weight == 0,
            s.documentation is None && s.documentation_weight is None,
            s.license is None && s.license_weight is None,
            s.best_practices is None && s.best_practices_weight is None,
            s.security is None && s.security_weight is None,
            s.legal is None && s.legal_weight is None,
    {
        Score {
            global: Ratio { num: 0, den: 1 },
            global_weight: 0,
            documentation: None,
            documentation_weight: None,
            license: None,
            license_weight: None,
            best_practices: None,
            best_practices_weight: None,
            security: None,
            security_weight: None,
            legal: None,
            legal_weight: None,
        }
    }

    /// Whether this is a per-repository score that `merge` takes.
    pub fn check_raw(&self) -> (b: bool)
        ensures
            b == self.is_raw(),
    {
        part_ok(Some(self.global), Some(self.global_weight)) && part_ok(
            self.documentation,
            self.documentation_weight,
        ) && part_ok(self.license, self.license_weight) && part_ok(
            self.best_practices,
            self.best_practices_weight,
        ) && part_ok(self.security, self.security_weight) && part_ok(self.legal, self.legal_weight)
            && !matches!(self.documentation_weight, Some(0)) && !matches!(self.license_weight, Some(0))
            && !matches!(self.best_practices_weight, Some(0)) && !matches!(self.security_weight, Some(0))
            && !matches!(self.legal_weight, Some(0))
    }

    /// The value and weight of one part; the global part always has both.
    pub fn part(&self, p: Part) -> (r: (Option<Ratio>, Option<u64>))
        ensures
            r == (self.part_value(p), self.part_weight(p)),
    {
        match p {
            Part::Global => (Some(self.global), Some(self.global_weight)),
            Part::Documentation => (self.documentation, self.documentation_weight),
            Part::License => (self.license, self.license_weight),
            Part::BestPractices => (self.best_practices, self.best_practices_weight),
            Part::Security => (self.security, self.security_weight),
            Part::Legal => (self.legal, self.legal_weight),
        }
    }

    /// Return the score's global value.
    pub fn global(&self) -> (g: Ratio)
        ensures
            g == self.global,
    {
        self.global
    }

    /// Return the score's rating (a, b, c or d).
    pub fn rating(&self) -> (c: char)
        ensures
            c == rating_of(self.global),
    {
        rating(self.global)
    }
}

/// Return the rating (a, b, c or d) of a value; '?' for one outside 0..=100.
pub fn rating(score: Ratio) -> (c: char)
    ensures
        c == rating_of(score),
{
    if score.den == 0 {
        return '?';
    }
    let q = score.num / score.den;
    if q > 100 || (q == 100 && score.num % score.den != 0) {
        '?'
    } else if q >= 75 {
        'a'
    } else if q >= 50 {
        'b'
    } else if q >= 25 {
        'c'
    } else {
        'd'
    }
}

proof fn lemma_section_bounds(checks: Seq<(u32, Option<bool>)>)
    ensures
        0 <= passing_weight(checks) <= present_weight(checks) <= checks.len() * 0xFFFF_FFFF,
    decreases checks.len(),
{
    if checks.len() > 0 {
        lemma_section_bounds(checks.drop_last());
    }
}

/// For a part whose value has the weight as denominator, the mass is the
/// numerator.
proof fn lemma_mass_of_raw(r: Ratio, w: u64)
    requires
        r.den == w,
    ensures
        mass(Some(r), Some(w)) == if w == 0 { 0 } else { r.num as int },
{
    if w > 0 {
        assert((r.num as int) * (w as int) == (w as int) * (r.num as int)) by (nonlinear_arith);
        vstd::arithmetic::div_mod::lemma_div_multiples_vanish(r.num as int, w as int);
    }
}

/// Calculate a category's value and weight from its checks.
fn calculate_section_score_and_weight(checks: &[(u32, Option<bool>)]) -> (r: (
    Option<Ratio>,
    Option<u64>,
))
    requires
        checks@.len() <= 9,
    ensures
        r == section_of(checks@),
        part_is_raw(r.0, r.1),
        r.1 != Some(0u64),
        weight_or_zero(r.1) <= 9 * 0xFFFF_FFFF,
{
    let mut weight: u64 = 0;
    let mut passing: u64 = 0;
    let mut i: usize = 0;
    while i < checks.len()
        invariant
            i <= checks@.len() <= 9,
            weight as int == present_weight(checks@.subrange(0, i as int)),
            passing as int == passing_weight(checks@.subrange(0, i as int)),
        decreases checks.len() - i,
    {
        proof {
            assert(checks@.subrange(0, i as int + 1).drop_last() =~= checks@.subrange(0, i as int));
            lemma_section_bounds(checks@.subrange(0, i as int));
        }
        let (w, s) = checks[i];
        match s {
            Some(c) => {
                weight = weight + w as u64;
                if c {
                    passing = passing + w as u64;
                }
            },
            None => {},
        }
        i = i + 1;
    }
    proof {
        assert(checks@.subrange(0, checks@.len() as int) =~= checks@);
        lemma_section_bounds(checks@);
    }
    if weight == 0 {
        (None, None)
    } else {
        (Some(Ratio { num: 100 * (passing as u128), den: weight as u128 }), Some(weight))
    }
}

fn part_ok(v: Option<Ratio>, w: Option<u64>) -> (b: bool)
    ensures
        b == part_is_raw(v, w),
{
    match (v, w) {
        (Some(r), Some(w)) => w <= MAX_SCORE_WEIGHT && (w == 0 || (r.den == w as u128 && r.num / 100
            <= r.den && (r.num / 100 < r.den || r.num % 100 == 0))),
        (None, None) => true,
        _ => false,
    }
}

/// The value's numerator of a present part, 0 for an absent one.
fn num_or_zero(v: Option<Ratio>) -> (n: u128)
    ensures
        n == match v {
            Some(r) => r.num,
            None => 0,
        },
{
    match v {
        Some(r) => r.num,
        None => 0,
    }
}

fn weight_or_zero_of(w: Option<u64>) -> (n: u64)
    ensures
        n == weight_or_zero(w),
{
    match w {
        Some(w) => w,
        None => 0,
    }
}

/// Calculate the score of a report under the standard weight table.
pub fn calculate(report: &Report) -> (s: Score)
    ensures
        s == score_of(*report, CheckWeights::standard_spec()),
        s.is_raw(),
{
    calculate_with_weights(report, &CheckWeights::standard())
}

/// Calculate the score of a report under the given weight table.
pub fn calculate_with_weights(report: &Report, weights: &CheckWeights) -> (s: Score)
    ensures
        s == score_of(*report, *weights),
        s.is_raw(),
        s.global_weight == weight_or_zero(s.documentation_weight) + weight_or_zero(
            s.license_weight,
        ) + weight_or_zero(s.best_practices_weight) + weight_or_zero(s.security_weight)
            + weight_or_zero(s.legal_weight),
        s.global_weight == 0 ==> s.global == (Ratio { num: 0, den: 1 }),
{
    let w = weights;
    let d = &report.documentation;
    let doc_checks = [
        (w.adopters, should_score(&d.adopters)),
        (w.changelog, should_score(&d.changelog)),
        (w.code_of_conduct, should_score(&d.code_of_conduct)),
        (w.contributing, should_score(&d.contributing)),
        (w.governance, should_score(&d.governance)),
        (w.maintainers, should_score(&d.maintainers)),
        (w.readme, should_score(&d.readme)),
        (w.roadmap, should_score(&d.roadmap)),
        (w.website, should_score(&d.website)),
    ];
    assert(doc_checks@ =~= documentation_checks(*d, *w));
    let (documentation, documentation_weight) = calculate_section_score_and_weight(&doc_checks);

    let l = &report.license;
    let lic_checks = [
        (w.license_approved, should_score(&l.approved)),
        (w.license_scanning, should_score(&l.scanning)),
        (w.license_spdx_id, should_score(&l.spdx_id)),
    ];
    assert(lic_checks@ =~= license_checks(*l, *w));
    let (license, license_weight) = calculate_section_score_and_weight(&lic_checks);

    let bp = &report.best_practices;
    let bp_checks = [
        (w.artifacthub_badge, should_score(&bp.artifacthub_badge)),
        (w.community_meeting, should_score(&bp.community_meeting)),
        (w.dco, should_score(&bp.dco)),
        (w.openssf_badge, should_score(&bp.openssf_badge)),
        (w.recent_release, should_score(&bp.recent_release)),
        (w.slack_presence, should_score(&bp.slack_presence)),
    ];
    assert(bp_checks@ =~= best_practices_checks(*bp, *w));
    let (best_practices, best_practices_weight) = calculate_section_score_and_weight(&bp_checks);

    let sec = &report.security;
    let sec_checks = [
        (w.sbom, should_score(&sec.sbom)),
        (w.security_policy, should_score(&sec.security_policy)),
    ];
    assert(sec_checks@ =~= security_checks(*sec, *w));
    let (security, security_weight) = calculate_section_score_and_weight(&sec_checks);

    let lg = &report.legal;
    let legal_checks_ = [(w.trademark_disclaimer, should_score(&lg.trademark_disclaimer))];
    assert(legal_checks_@ =~= legal_checks(*lg, *w));
    let (legal, legal_weight) = calculate_section_score_and_weight(&legal_checks_);

    assemble(
        (documentation, documentation_weight),
        (license, license_weight),
        (best_practices, best_practices_weight),
        (security, security_weight),
        (legal, legal_weight),
    )
}

/// Build a score from its five categories.
fn assemble(
    d: (Option<Ratio>, Option<u64>),
    l: (Option<Ratio>, Option<u64>),
    b: (Option<Ratio>, Option<u64>),
    s: (Option<Ratio>, Option<u64>),
    g: (Option<Ratio>, Option<u64>),
) -> (r: Score)
    requires
        part_is_raw(d.0, d.1) && d.1 != Some(0u64) && weight_or_zero(d.1) <= 9 * 0xFFFF_FFFF,
        part_is_raw(l.0, l.1) && l.1 != Some(0u64) && weight_or_zero(l.1) <= 9 * 0xFFFF_FFFF,
        part_is_raw(b.0, b.1) && b.1 != Some(0u64) && weight_or_zero(b.1) <= 9 * 0xFFFF_FFFF,
        part_is_raw(s.0, s.1) && s.1 != Some(0u64) && weight_or_zero(s.1) <= 9 * 0xFFFF_FFFF,
        part_is_raw(g.0, g.1) && g.1 != Some(0u64) && weight_or_zero(g.1) <= 9 * 0xFFFF_FFFF,
    ensures
        r == score_from_sections(d, l, b, s, g),
        r.is_raw(),
{
    proof {
        lemma_mass_of_raw_part(d.0, d.1);
        lemma_mass_of_raw_part(l.0, l.1);
        lemma_mass_of_raw_part(b.0, b.1);
        lemma_mass_of_raw_part(s.0, s.1);
        lemma_mass_of_raw_part(g.0, g.1);
    }
    let global_weight = weight_or_zero_of(d.1) + weight_or_zero_of(l.1) + weight_or_zero_of(b.1)
        + weight_or_zero_of(s.1) + weight_or_zero_of(g.1);
    let global_mass = num_or_zero(d.0) + num_or_zero(l.0) + num_or_zero(b.0) + num_or_zero(s.0)
        + num_or_zero(g.0);
    let global = if global_weight == 0 {
        Ratio { num: 0, den: 1 }
    } else {
        Ratio { num: global_mass, den: global_weight as u128 }
    };
    Score {
        global,
        global_weight,
        documentation: d.0,
        documentation_weight: d.1,
        license: l.0,
        license_weight: l.1,
        best_practices: b.0,
        best_practices_weight: b.1,
        security: s.0,
        security_weight: s.1,
        legal: g.0,
        legal_weight: g.1,
    }
}

/// For a raw part, the mass is the value's numerator, and it is at most 100
/// times the weight.
proof fn lemma_mass_of_raw_part(v: Option<Ratio>, w: Option<u64>)
    requires
        part_is_raw(v, w),
    ensures
        mass(v, w) == match v {
            Some(r) => if weight_or_zero(w) == 0 { 0 } else { r.num as int },
            None => 0,
        },
        0 <= mass(v, w) <= 100 * weight_or_zero(w),
{
    match (v, w) {
        (Some(r), Some(x)) => {
            if x > 0 {
                lemma_mass_of_raw(r, x);
            } else if r.den > 0 {
                assert((r.num as int) * 0 == 0);
                assert(0int / (r.den as int) == 0) by (nonlinear_arith)
                    requires r.den > 0;
            }
        },
        _ => {},
    }
}

/// Summed mass and weight of one part over the scores.
fn merged_part(scores: &Vec<Score>, p: Part) -> (r: (u128, u128))
    requires
        forall|i: int| 0 <= i < scores@.len() ==> scores@[i].is_raw(),
    ensures
        r.0 == total_mass(scores@, p),
        r.1 == total_weight(scores@, p),
{
    let mut m: u128 = 0;
    let mut w: u128 = 0;
    let mut i: usize = 0;
    while i < scores.len()
        invariant
            i <= scores@.len(),
            forall|j: int| 0 <= j < scores@.len() ==> scores@[j].is_raw(),
            m == total_mass(scores@.subrange(0, i as int), p),
            w == total_weight(scores@.subrange(0, i as int), p),
            w <= i * MAX_SCORE_WEIGHT,
            m <= 100 * w,
        decreases scores.len() - i,
    {
        let (v, x) = scores[i].part(p);
        proof {
            assert(scores@.subrange(0, i as int + 1).drop_last() =~= scores@.subrange(0, i as int));
            assert(part_is_raw(v, x));
            lemma_mass_of_raw_part(v, x);
            assert((i + 1) * MAX_SCORE_WEIGHT <= 0x1_0000_0000_0000_0000 * MAX_SCORE_WEIGHT)
                by (nonlinear_arith)
                requires i < 0x1_0000_0000_0000_0000;
            assert(i * MAX_SCORE_WEIGHT + MAX_SCORE_WEIGHT == (i + 1) * MAX_SCORE_WEIGHT)
                by (nonlinear_arith);
        }
        match (v, x) {
            (Some(r), Some(x)) => {
                if x > 0 {
                    m = m + r.num;
                    w = w + x as u128;
                }
            },
            _ => {},
        }
        i = i + 1;
    }
    proof {
        assert(scores@.subrange(0, scores@.len() as int) =~= scores@);
    }
    (m, w)
}

/// One category of the merged score.
fn merged_section(scores: &Vec<Score>, p: Part) -> (r: Option<Ratio>)
    requires
        forall|i: int| 0 <= i < scores@.len() ==> scores@[i].is_raw(),
    ensures
        r == merged_value(scores@, p),
{
    let (m, w) = merged_part(scores, p);
    if w == 0 {
        None
    } else {
        Some(Ratio { num: m, den: w })
    }
}

/// Merge per-repository scores into one project score. Each member counts in
/// the global value in proportion to its global weight, and in a category in
/// proportion to its weight there; a category that no member has stays
/// absent. The weights of the result are cleared: it is not to be merged
/// again.
pub fn merge(scores: Vec<Score>) -> (m: Score)
    requires
        forall|i: int| 0 <= i < scores@.len() ==> scores@[i].is_raw(),
    ensures
        m == merge_of(scores@),
{
    let (gm, gw) = merged_part(&scores, Part::Global);
    let global = if gw == 0 {
        Ratio { num: 0, den: 1 }
    } else {
        Ratio { num: gm, den: gw }
    };
    let mut m = Score::new();
    m.global = global;
    m.documentation = merged_section(&scores, Part::Documentation);
    m.license = merged_section(&scores, Part::License);
    m.best_practices = merged_section(&scores, Part::BestPractices);
    m.security = merged_section(&scores, Part::Security);
    m.legal = merged_section(&scores, Part::Legal);
    m
}

/// The checks of one category of a report, with their weights; none for the
/// global part.
pub open spec fn category_checks(r: Report, w: CheckWeights, p: Part) -> Seq<(u32, Option<bool>)> {
    match p {
        Part::Global => Seq::empty(),
        Part::Documentation => documentation_checks(r.documentation, w),
        Part::License => license_checks(r.license, w),
        Part::BestPractices => best_practices_checks(r.best_practices, w),
        Part::Security => security_checks(r.security, w),
        Part::Legal => legal_checks(r.legal, w),
    }
}

/// A category's value and weight in a report's score come from its own checks.
pub proof fn lemma_score_of_category(r: Report, w: CheckWeights, p: Part)
    requires
        p != Part::Global,
    ensures
        (score_of(r, w).part_value(p), score_of(r, w).part_weight(p)) == section_of(
            category_checks(r, w, p),
        ),
{
}

proof fn lemma_absent_checks_weigh_nothing(checks: Seq<(u32, Option<bool>)>)
    requires
        forall|i: int| 0 <= i < checks.len() ==> checks[i].1 is None,
    ensures
        present_weight(checks) == 0,
    decreases checks.len(),
{
    if checks.len() > 0 {
        let rest = checks.drop_last();
        assert forall|i: int| 0 <= i < rest.len() implies rest[i].1 is None by {
            assert(rest[i] == checks[i]);
        }
        lemma_absent_checks_weigh_nothing(rest);
        assert(checks.last() == checks[checks.len() - 1]);
    }
}

/// A category in which no check is present has neither a value nor a weight.
pub proof fn lemma_category_without_checks(r: Report, w: CheckWeights, p: Part)
    requires
        p != Part::Global,
        forall|i: int|
            0 <= i < category_checks(r, w, p).len() ==> (#[trigger] category_checks(r, w, p)[i]).1 is None,
    ensures
        score_of(r, w).part_value(p) is None,
        score_of(r, w).part_weight(p) is None,
{
    lemma_absent_checks_weigh_nothing(category_checks(r, w, p));
    lemma_score_of_category(r, w, p);
}

/// A report in which no check is present scores 0 with global weight 0.
pub proof fn lemma_empty_report(r: Report, w: CheckWeights)
    requires
        forall|p: Part, i: int|
            p != Part::Global && 0 <= i < category_checks(r, w, p).len() ==> (#[trigger] category_checks(r, w, p)[i]).1 is None,
    ensures
        score_of(r, w).global_weight == 0,
        score_of(r, w).global == (Ratio { num: 0, den: 1 }),
{
    lemma_category_without_checks(r, w, Part::Documentation);
    lemma_category_without_checks(r, w, Part::License);
    lemma_category_without_checks(r, w, Part::BestPractices);
    lemma_category_without_checks(r, w, Part::Security);
    lemma_category_without_checks(r, w, Part::Legal);
}

proof fn lemma_all_counting_passes_everything(checks: Seq<(u32, Option<bool>)>)
    requires
        forall|i: int| 0 <= i < checks.len() ==> checks[i].1 != Some(false),
    ensures
        passing_weight(checks) == present_weight(checks),
    decreases checks.len(),
{
    if checks.len() > 0 {
        let rest = checks.drop_last();
        assert forall|i: int| 0 <= i < rest.len() implies rest[i].1 != Some(false) by {
            assert(rest[i] == checks[i]);
        }
        lemma_all_counting_passes_everything(rest);
        assert(checks.last() == checks[checks.len() - 1]);
        match checks.last().1 {
            Some(b) => assert(b),
            None => {},
        }
    }
}

proof fn lemma_full_section(checks: Seq<(u32, Option<bool>)>)
    requires
        checks.len() <= 9,
        forall|i: int| 0 <= i < checks.len() ==> checks[i].1 != Some(false),
    ensures
        part_is_raw(section_of(checks).0, section_of(checks).1),
        weight_or_zero(section_of(checks).1) <= 9 * 0xFFFF_FFFF,
        section_of(checks).0 matches Some(v) ==> v.num == 100 * v.den,
        mass(section_of(checks).0, section_of(checks).1) == 100 * weight_or_zero(
            section_of(checks).1,
        ),
{
    lemma_all_counting_passes_everything(checks);
    lemma_section_bounds(checks);
    lemma_mass_of_raw_part(section_of(checks).0, section_of(checks).1);
}

/// When every present check of a report passes or is exempt, every present
/// category scores exactly 100, and so does the global value unless no check
/// is present at all.
pub proof fn lemma_all_passing_scores_hundred(r: Report, w: CheckWeights)
    requires
        forall|p: Part, i: int|
            p != Part::Global && 0 <= i < category_checks(r, w, p).len() ==> (#[trigger] category_checks(r, w, p)[i]).1 != Some(false),
    ensures
        forall|p: Part|
            p != Part::Global ==> ((#[trigger] score_of(r, w).part_value(p)) matches Some(v)
                ==> v.num == 100 * v.den),
        score_of(r, w).global_weight > 0 ==> score_of(r, w).global.num == 100 * score_of(
            r,
            w,
        ).global.den,
{
    let d = category_checks(r, w, Part::Documentation);
    let l = category_checks(r, w, Part::License);
    let b = category_checks(r, w, Part::BestPractices);
    let s = category_checks(r, w, Part::Security);
    let g = category_checks(r, w, Part::Legal);
    lemma_full_section(d);
    lemma_full_section(l);
    lemma_full_section(b);
    lemma_full_section(s);
    lemma_full_section(g);
}

proof fn lemma_members_without_part(s: Seq<Score>, p: Part)
    requires
        forall|i: int| 0 <= i < s.len() ==> (#[trigger] s[i]).part_weight(p) is None,
    ensures
        total_weight(s, p) == 0,
    decreases s.len(),
{
    if s.len() > 0 {
        let rest = s.drop_last();
        assert forall|i: int| 0 <= i < rest.len() implies (#[trigger] rest[i]).part_weight(p) is None by {
            assert(rest[i] == s[i]);
        }
        lemma_members_without_part(rest, p);
        assert(s.last() == s[s.len() - 1]);
    }
}

/// A category absent from every merged score stays absent from the merge.
pub proof fn lemma_merge_keeps_absent_category(scores: Seq<Score>, p: Part)
    requires
        p != Part::Global,
        forall|i: int| 0 <= i < scores.len() ==> (#[trigger] scores[i]).is_raw(),
        forall|i: int| 0 <= i < scores.len() ==> (#[trigger] scores[i]).part_value(p) is None,
    ensures
        merge_of(scores).part_value(p) is None,
{
    assert forall|i: int| 0 <= i < scores.len() implies (#[trigger] scores[i]).part_weight(p) is None by {
        assert(scores[i].is_raw());
        assert(scores[i].part_value(p) is None);
    }
    lemma_members_without_part(scores, p);
}

} // verus!
