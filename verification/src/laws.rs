//! Properties that hold of every input: what the classification never
//! claims, how evidence orders candidates, and what the selection picks.

use vstd::prelude::*;

use crate::domain::{
    ArmArchitectureCompatibility, CpuArchitecture, FitAnalysisView, FitLevel, HardwareMatchLevel,
    ModelFitView,
};
use crate::optimization::{
    best_of_spec, candidate_spec, candidates_spec, explanation_text, recommendation_text,
    is_best_of, keys_spec, optimization_spec, runtime_availability_spec, pair_gt, preference_key,
    ranked_spec, ranking_spec, sort_key_spec, validation_status_spec,
    ArmValidationStatus, CandidateView, OptimizationProvenance, RuntimeAvailability,
    lemma_best_of_unique,
};
use crate::ranking::{is_ranking, key_gt, lemma_ranking_exists, lemma_ranking_unique, ranks_before};

verus! {

/// A status that claims an Arm hardware match is only given to a
/// measurement on an `Aarch64` machine; without a measurement the status
/// is "estimated only", and on any other machine a measurement stays
/// "unknown".
pub proof fn law_arm_match_needs_arm_measurement(
    arch: CpuArchitecture,
    level: HardwareMatchLevel,
    measured: bool,
)
    ensures
        ({
            let s = validation_status_spec(arch, level, measured);
            &&& (s == ArmValidationStatus::ExactHardwareMatch || s
                == ArmValidationStatus::HighConfidenceMatch || s
                == ArmValidationStatus::PartialMatch) ==> arch == CpuArchitecture::Aarch64
                && measured
            &&& s == ArmValidationStatus::ExactHardwareMatch <==> (arch == CpuArchitecture::Aarch64
                && level == HardwareMatchLevel::Exact && measured)
            &&& !measured ==> s == ArmValidationStatus::EstimatedOnly
            &&& measured && arch != CpuArchitecture::Aarch64 ==> s == ArmValidationStatus::Unknown
        }),
{
}

/// A candidate never claims a measurement that its fit does not have: it
/// is "measured", carries a measured throughput and is "benchmarked"
/// exactly when the fit has a measurement.
pub proof fn law_measurement_never_invented(a: FitAnalysisView, arch: CpuArchitecture)
    ensures
        ({
            let c = candidate_spec(a, arch);
            &&& (c.performance_provenance == OptimizationProvenance::Measured) == (
            a.fit.measured_tps is Some)
            &&& (c.measured_tps is Some) == (a.fit.measured_tps is Some)
            &&& (c.runtime_availability == RuntimeAvailability::Benchmarked) == (
            a.fit.measured_tps is Some)
            &&& (c.performance_provenance == OptimizationProvenance::Estimated) == (
            a.fit.measured_tps is None && a.fit.estimated_tps > 0)
        }),
{
}

/// With fit scores between 0 and 100 points, a candidate whose throughput
/// was measured ranks above every candidate whose throughput was not.
pub proof fn law_measured_outranks_unmeasured(m: CandidateView, e: CandidateView)
    requires
        m.performance_provenance == OptimizationProvenance::Measured,
        e.performance_provenance != OptimizationProvenance::Measured,
        0 <= m.fit.score <= 10000,
        0 <= e.fit.score <= 10000,
    ensures
        key_gt(sort_key_spec(m), sort_key_spec(e)),
{
}

/// The fit is too tight to run and has no throughput estimate.
pub open spec fn unusable_fit(fit: ModelFitView) -> bool {
    fit.fit_level == FitLevel::TooTight && fit.estimated_tps <= 0
}

/// The number of fits in the list that are not unusable.
pub open spec fn usable_fit_count(analyses: Seq<FitAnalysisView>) -> int
    decreases analyses.len(),
{
    if analyses.len() == 0 {
        0
    } else {
        usable_fit_count(analyses.drop_last()) + if unusable_fit(analyses.last().fit) {
            0int
        } else {
            1int
        }
    }
}

/// The candidates are built from the usable fits, one each, in list
/// order: `src[k]` is the position in the list of the fit of candidate `k`.
pub open spec fn candidates_follow_fits(
    analyses: Seq<FitAnalysisView>,
    arch: CpuArchitecture,
    cands: Seq<CandidateView>,
    src: Seq<int>,
) -> bool {
    &&& src.len() == cands.len()
    &&& forall|k: int|
        0 <= k < src.len() ==> 0 <= #[trigger] src[k] < analyses.len() && !unusable_fit(
            analyses[src[k]].fit,
        ) && cands[k] == candidate_spec(analyses[src[k]], arch)
    &&& forall|k: int, l: int| 0 <= k < l < src.len() ==> #[trigger] src[k] < #[trigger] src[l]
    &&& forall|i: int|
        0 <= i < analyses.len() && !unusable_fit(#[trigger] analyses[i].fit) ==> src.contains(i)
}

proof fn lemma_candidate_sources(analyses: Seq<FitAnalysisView>, arch: CpuArchitecture) -> (src:
    Seq<int>)
    ensures
        candidates_follow_fits(analyses, arch, candidates_spec(analyses, arch), src),
        candidates_spec(analyses, arch).len() == usable_fit_count(analyses),
    decreases analyses.len(),
{
    if analyses.len() == 0 {
        Seq::empty()
    } else {
        let n = analyses.len() - 1;
        let earlier = analyses.drop_last();
        let s0 = lemma_candidate_sources(earlier, arch);
        let cs = candidates_spec(analyses, arch);
        let src = if unusable_fit(analyses[n].fit) {
            s0
        } else {
            s0.push(n)
        };
        assert forall|k: int| 0 <= k < src.len() implies 0 <= #[trigger] src[k] < analyses.len()
            && !unusable_fit(analyses[src[k]].fit) && cs[k] == candidate_spec(
            analyses[src[k]],
            arch,
        ) by {
            if k < s0.len() {
                assert(analyses[s0[k]] == earlier[s0[k]]);
            }
        }
        assert forall|i: int| 0 <= i < analyses.len() && !unusable_fit(
            #[trigger] analyses[i].fit,
        ) implies src.contains(i) by {
            if i < n {
                assert(earlier[i] == analyses[i]);
                assert(s0.contains(i));
                let k = choose|k: int| 0 <= k < s0.len() && s0[k] == i;
                assert(src[k] == i);
            } else {
                assert(src[src.len() - 1] == n);
            }
        }
        src
    }
}

/// The candidates are the usable fits, in list order, one each: every
/// fit that is not too tight without an estimate gives exactly one
/// candidate, built from it, and no other fit gives one.
pub proof fn law_candidates_are_the_usable_fits(analyses: Seq<FitAnalysisView>, arch: CpuArchitecture)
    ensures
        exists|src: Seq<int>|
            candidates_follow_fits(analyses, arch, candidates_spec(analyses, arch), src),
        candidates_spec(analyses, arch).len() == usable_fit_count(analyses),
{
    let src = lemma_candidate_sources(analyses, arch);
}

/// A candidate carries the facts of its fit: the fit itself, its model,
/// its best quantization, runtime and effective context length, its
/// estimate, its measured throughput and match level (no match without a
/// measurement), its memory figures, and the Arm compatibility reported
/// for it (unknown where none is); no thread count or batch size is set.
pub proof fn law_candidate_carries_its_fit(a: FitAnalysisView, arch: CpuArchitecture)
    ensures
        ({
            let c = candidate_spec(a, arch);
            &&& c.fit == a.fit
            &&& c.model == a.fit.model
            &&& c.quantization == a.fit.best_quant
            &&& c.runtime == a.fit.runtime
            &&& c.context_length == a.fit.effective_context_length
            &&& c.thread_count is None
            &&& c.batch_size is None
            &&& c.estimated_tps == a.fit.estimated_tps
            &&& c.memory_required_gb == a.fit.memory_required_gb
            &&& c.memory_available_gb == a.fit.memory_available_gb
            &&& match a.fit.measured_tps {
                Some(m) => c.measured_tps == Some(m.tok_s) && c.benchmark_match_level
                    == m.match_level,
                None => c.measured_tps is None && c.benchmark_match_level
                    == HardwareMatchLevel::NoMatch,
            }
            &&& match a.arm_compatibility {
                Some(x) => c.compatibility_status == x,
                None => c.compatibility_status == ArmArchitectureCompatibility::Unknown,
            }
            &&& c.runtime_availability == runtime_availability_spec(a.fit)
            &&& c.validation_status == validation_status_spec(
                arch,
                c.benchmark_match_level,
                a.fit.measured_tps is Some,
            )
        }),
{
}

/// The chosen ranking order of a list of candidates is a stable ranking.
proof fn lemma_ranking_spec(cands: Seq<CandidateView>)
    ensures
        is_ranking(keys_spec(cands), ranking_spec(cands)),
{
    lemma_ranking_exists(keys_spec(cands));
}

/// The ranking order is determined by the candidates' keys: any stable
/// ranking of them, greatest key first and input order among equals, is
/// the one by which they are ranked.
pub proof fn law_ranking_is_determined(cands: Seq<CandidateView>, order: Seq<int>)
    requires
        is_ranking(keys_spec(cands), order),
    ensures
        ranking_spec(cands) == order,
{
    lemma_ranking_spec(cands);
    lemma_ranking_unique(keys_spec(cands), ranking_spec(cands), order);
}

/// The ranked candidates are distinct candidates, `pos[k]` being the
/// position among the candidates of ranked candidate `k`; they are in
/// order of their keys, greatest first, candidates with equal keys in
/// their order among the candidates; and they are as many as the limit
/// allows: `limit` of them where `limit` is positive and smaller than the
/// number of candidates, all otherwise.
pub proof fn law_ranking_is_ordered(
    analyses: Seq<FitAnalysisView>,
    arch: CpuArchitecture,
    limit: int,
)
    ensures
        ({
            let cands = candidates_spec(analyses, arch);
            let r = optimization_spec(analyses, arch, limit).ranked_candidates;
            let pos = ranking_spec(cands);
            &&& limit > 0 && limit < cands.len() ==> r.len() == limit
            &&& !(limit > 0 && limit < cands.len()) ==> r.len() == cands.len()
            &&& forall|k: int|
                0 <= k < r.len() ==> 0 <= #[trigger] pos[k] < cands.len() && r[k] == cands[pos[k]]
            &&& forall|k: int, l: int|
                0 <= k < l < r.len() ==> #[trigger] pos[k] != #[trigger] pos[l]
            &&& forall|k: int, l: int|
                0 <= k < l < r.len() ==> !key_gt(
                    sort_key_spec(#[trigger] r[l]),
                    sort_key_spec(#[trigger] r[k]),
                )
            &&& forall|k: int, l: int|
                0 <= k < l < r.len() && sort_key_spec(r[k]) == sort_key_spec(r[l])
                    ==> #[trigger] pos[k] < #[trigger] pos[l]
            &&& forall|k: int| 0 <= k < r.len() ==> !unusable_fit((#[trigger] r[k]).fit)
        }),
{
    let cands = candidates_spec(analyses, arch);
    let r = ranked_spec(cands, limit);
    let o = ranking_spec(cands);
    let keys = keys_spec(cands);
    lemma_ranking_spec(cands);
    let src = lemma_candidate_sources(analyses, arch);
    assert forall|k: int, l: int| 0 <= k < l < r.len() implies !key_gt(
        sort_key_spec(#[trigger] r[l]),
        sort_key_spec(#[trigger] r[k]),
    ) by {
        assert(ranks_before(keys, o[k], o[l]));
        assert(keys[o[k]] == sort_key_spec(cands[o[k]]));
        assert(keys[o[l]] == sort_key_spec(cands[o[l]]));
    }
    assert forall|k: int, l: int| 0 <= k < l < r.len() implies #[trigger] o[k] != #[trigger] o[l] by {
        assert(ranks_before(keys, o[k], o[l]));
    }
    assert forall|k: int, l: int|
        0 <= k < l < r.len() && sort_key_spec(r[k]) == sort_key_spec(r[l]) implies #[trigger] o[k]
        < #[trigger] o[l] by {
        assert(ranks_before(keys, o[k], o[l]));
        assert(keys[o[k]] == sort_key_spec(cands[o[k]]));
        assert(keys[o[l]] == sort_key_spec(cands[o[l]]));
    }
    assert forall|k: int| 0 <= k < r.len() implies !unusable_fit((#[trigger] r[k]).fit) by {
        assert(0 <= o[k] < cands.len());
        assert(r[k] == cands[o[k]]);
        assert(0 <= src[o[k]] < analyses.len());
    }
}

/// Where the limit keeps every candidate, every usable fit's candidate is
/// ranked.
pub proof fn law_ranking_keeps_every_candidate(
    analyses: Seq<FitAnalysisView>,
    arch: CpuArchitecture,
    limit: int,
)
    requires
        limit <= 0 || limit >= usable_fit_count(analyses),
    ensures
        ({
            let r = optimization_spec(analyses, arch, limit).ranked_candidates;
            forall|i: int|
                0 <= i < analyses.len() && !unusable_fit(analyses[i].fit) ==> r.contains(
                    candidate_spec(#[trigger] analyses[i], arch),
                )
        }),
{
    let cands = candidates_spec(analyses, arch);
    let r = ranked_spec(cands, limit);
    let o = ranking_spec(cands);
    lemma_ranking_spec(cands);
    let src = lemma_candidate_sources(analyses, arch);
    assert forall|i: int|
        0 <= i < analyses.len() && !unusable_fit(analyses[i].fit) implies r.contains(
        candidate_spec(#[trigger] analyses[i], arch),
    ) by {
        assert(src.contains(i));
        let j = choose|j: int| 0 <= j < src.len() && src[j] == i;
        assert(o.contains(j));
        let k = choose|k: int| 0 <= k < o.len() && o[k] == j;
        assert(r[k] == cands[j]);
    }
}

/// The best of a provenance, restricted to the first `n` candidates.
proof fn lemma_best_exists_upto(s: Seq<CandidateView>, p: OptimizationProvenance, n: int) -> (j:
    int)
    requires
        0 <= n <= s.len(),
        exists|k: int| 0 <= k < n && #[trigger] s[k].performance_provenance == p,
    ensures
        0 <= j < n,
        s[j].performance_provenance == p,
        forall|k: int|
            0 <= k < n && #[trigger] s[k].performance_provenance == p ==> !pair_gt(
                preference_key(s[k], p),
                preference_key(s[j], p),
            ),
        forall|k: int|
            j < k < n && #[trigger] s[k].performance_provenance == p ==> pair_gt(
                preference_key(s[j], p),
                preference_key(s[k], p),
            ),
    decreases n,
{
    if exists|k: int| 0 <= k < n - 1 && #[trigger] s[k].performance_provenance == p {
        let b = lemma_best_exists_upto(s, p, n - 1);
        if s[n - 1].performance_provenance == p && !pair_gt(
            preference_key(s[b], p),
            preference_key(s[n - 1], p),
        ) {
            n - 1
        } else {
            b
        }
    } else {
        assert(s[n - 1].performance_provenance == p);
        n - 1
    }
}

/// Wherever there is a candidate of a provenance, there is a best one.
proof fn lemma_best_exists(s: Seq<CandidateView>, p: OptimizationProvenance) -> (j: int)
    requires
        exists|k: int| 0 <= k < s.len() && #[trigger] s[k].performance_provenance == p,
    ensures
        is_best_of(s, p, j),
        best_of_spec(s, p) == Some(s[j]),
        best_of_spec(s, p) is Some,
        best_of_spec(s, p)->0.performance_provenance == p,
        s.contains(best_of_spec(s, p)->0),
{
    let j = lemma_best_exists_upto(s, p, s.len() as int);
    assert(is_best_of(s, p, j));
    let c = choose|i: int| is_best_of(s, p, i);
    lemma_best_of_unique(s, p, c, j);
    j
}

/// Where no candidate has a provenance, there is no best one of it.
proof fn lemma_best_absent(s: Seq<CandidateView>, p: OptimizationProvenance)
    requires
        forall|k: int| 0 <= k < s.len() ==> (#[trigger] s[k]).performance_provenance != p,
    ensures
        best_of_spec(s, p) is None,
{
    assert forall|j: int| !is_best_of(s, p, j) by {
        if 0 <= j < s.len() {
            assert(s[j].performance_provenance != p);
        }
    }
}

/// Measured evidence is preferred: where a ranked candidate was measured,
/// the selected candidate is the best measured one; where none was but
/// one was predicted, it is the best predicted one; where neither, it is
/// the first ranked one. It is one of the ranked candidates, there is
/// none only where nothing was ranked, and it is the best available one.
pub proof fn law_selection_prefers_measured(
    analyses: Seq<FitAnalysisView>,
    arch: CpuArchitecture,
    limit: int,
)
    ensures
        ({
            let res = optimization_spec(analyses, arch, limit);
            let r = res.ranked_candidates;
            &&& (exists|k: int| 0 <= k < r.len() && #[trigger] r[k].performance_provenance
                == OptimizationProvenance::Measured) ==> {
                &&& res.selected_candidate is Some
                &&& res.selected_candidate == res.best_measured
                &&& res.selected_candidate->0.performance_provenance
                    == OptimizationProvenance::Measured
            }
            &&& (forall|k: int| 0 <= k < r.len() ==> #[trigger] r[k].performance_provenance
                != OptimizationProvenance::Measured) ==> res.best_measured is None
            &&& ((forall|k: int| 0 <= k < r.len() ==> #[trigger] r[k].performance_provenance
                != OptimizationProvenance::Measured) && (exists|k: int| 0 <= k < r.len()
                && #[trigger] r[k].performance_provenance == OptimizationProvenance::Estimated))
                ==> {
                &&& res.selected_candidate is Some
                &&& res.selected_candidate == res.best_predicted
                &&& res.selected_candidate->0.performance_provenance
                    == OptimizationProvenance::Estimated
            }
            &&& ((forall|k: int| 0 <= k < r.len() ==> #[trigger] r[k].performance_provenance
                == OptimizationProvenance::Unavailable) && r.len() > 0) ==> res.selected_candidate
                == Some(r[0])
            &&& res.selected_candidate is Some ==> r.contains(res.selected_candidate->0)
            &&& (res.selected_candidate is None <==> r.len() == 0)
            &&& res.best_available == res.selected_candidate
        }),
{
    let res = optimization_spec(analyses, arch, limit);
    let r = res.ranked_candidates;
    let m = OptimizationProvenance::Measured;
    let e = OptimizationProvenance::Estimated;
    if exists|k: int| 0 <= k < r.len() && #[trigger] r[k].performance_provenance == m {
        lemma_best_exists(r, m);
    } else {
        lemma_best_absent(r, m);
        if exists|k: int| 0 <= k < r.len() && #[trigger] r[k].performance_provenance == e {
            lemma_best_exists(r, e);
        } else {
            lemma_best_absent(r, e);
            if r.len() > 0 {
                assert(r.contains(r[0]));
            }
        }
    }
}

/// The measured throughput of a candidate, zero where it has none.
pub open spec fn measured_or_zero(c: CandidateView) -> int {
    match c.measured_tps {
        Some(t) => t as int,
        None => 0,
    }
}

/// `a` is preferred to `b` by (first, then second): greater first, or
/// equal first and greater second.
pub open spec fn preferred(a1: int, a2: int, b1: int, b2: int) -> bool {
    a1 > b1 || (a1 == b1 && a2 > b2)
}

/// Ranked candidate `j` is predicted, no predicted candidate has a
/// greater estimated throughput (equal estimates broken by the fit score),
/// and every later predicted candidate has a lesser one.
pub open spec fn has_greatest_estimate(r: Seq<CandidateView>, j: int) -> bool {
    let e = OptimizationProvenance::Estimated;
    &&& 0 <= j < r.len()
    &&& r[j].performance_provenance == e
    &&& forall|k: int|
        0 <= k < r.len() && #[trigger] r[k].performance_provenance == e ==> !preferred(
            r[k].estimated_tps as int,
            r[k].fit.score as int,
            r[j].estimated_tps as int,
            r[j].fit.score as int,
        )
    &&& forall|k: int|
        j < k < r.len() && #[trigger] r[k].performance_provenance == e ==> preferred(
            r[j].estimated_tps as int,
            r[j].fit.score as int,
            r[k].estimated_tps as int,
            r[k].fit.score as int,
        )
}

/// Ranked candidate `j` is measured, no measured candidate has a greater
/// measured throughput (equal throughputs broken by the fit score), and
/// every later measured candidate has a lesser one.
pub open spec fn has_greatest_measurement(r: Seq<CandidateView>, j: int) -> bool {
    let m = OptimizationProvenance::Measured;
    &&& 0 <= j < r.len()
    &&& r[j].performance_provenance == m
    &&& forall|k: int|
        0 <= k < r.len() && #[trigger] r[k].performance_provenance == m ==> !preferred(
            measured_or_zero(r[k]),
            r[k].fit.score as int,
            measured_or_zero(r[j]),
            r[j].fit.score as int,
        )
    &&& forall|k: int|
        j < k < r.len() && #[trigger] r[k].performance_provenance == m ==> preferred(
            measured_or_zero(r[j]),
            r[j].fit.score as int,
            measured_or_zero(r[k]),
            r[k].fit.score as int,
        )
}

/// The best predicted candidate is the ranked predicted candidate with
/// the greatest estimated throughput, equal estimates broken by the
/// greater fit score, and of candidates equal in both the last ranked;
/// there is one exactly where a ranked candidate is predicted.
pub proof fn law_best_predicted_has_greatest_estimate(
    analyses: Seq<FitAnalysisView>,
    arch: CpuArchitecture,
    limit: int,
)
    ensures
        ({
            let res = optimization_spec(analyses, arch, limit);
            let r = res.ranked_candidates;
            &&& (exists|k: int|
                0 <= k < r.len() && #[trigger] r[k].performance_provenance
                    == OptimizationProvenance::Estimated) <==> res.best_predicted is Some
            &&& res.best_predicted is Some ==> exists|j: int|
                #[trigger] has_greatest_estimate(r, j) && res.best_predicted == Some(r[j])
        }),
{
    let res = optimization_spec(analyses, arch, limit);
    let r = res.ranked_candidates;
    let e = OptimizationProvenance::Estimated;
    if exists|k: int| 0 <= k < r.len() && #[trigger] r[k].performance_provenance == e {
        let j = lemma_best_exists(r, e);
        assert(has_greatest_estimate(r, j));
    } else {
        lemma_best_absent(r, e);
    }
}

/// The best measured candidate is the ranked measured candidate with the
/// greatest measured throughput, equal throughputs broken by the greater
/// fit score, and of candidates equal in both the last ranked; there is
/// one exactly where a ranked candidate is measured.
pub proof fn law_best_measured_has_greatest_measurement(
    analyses: Seq<FitAnalysisView>,
    arch: CpuArchitecture,
    limit: int,
)
    ensures
        ({
            let res = optimization_spec(analyses, arch, limit);
            let r = res.ranked_candidates;
            &&& (exists|k: int|
                0 <= k < r.len() && #[trigger] r[k].performance_provenance
                    == OptimizationProvenance::Measured) <==> res.best_measured is Some
            &&& res.best_measured is Some ==> exists|j: int|
                #[trigger] has_greatest_measurement(r, j) && res.best_measured == Some(r[j])
        }),
{
    let res = optimization_spec(analyses, arch, limit);
    let r = res.ranked_candidates;
    let m = OptimizationProvenance::Measured;
    if exists|k: int| 0 <= k < r.len() && #[trigger] r[k].performance_provenance == m {
        let j = lemma_best_exists(r, m);
        assert(has_greatest_measurement(r, j));
    } else {
        lemma_best_absent(r, m);
    }
}

/// The result reports the machine's architecture, is Arm-aware exactly on
/// an `Aarch64` machine, and explains and recommends the selected
/// candidate, or says that there is no recommendation.
pub proof fn law_result_reports_selection(
    analyses: Seq<FitAnalysisView>,
    arch: CpuArchitecture,
    limit: int,
)
    ensures
        ({
            let res = optimization_spec(analyses, arch, limit);
            &&& res.hardware_architecture == arch
            &&& res.is_arm_aware == (arch == CpuArchitecture::Aarch64)
            &&& match res.selected_candidate {
                Some(c) => res.explanation == explanation_text(c) && res.recommendation
                    == recommendation_text(Some(c)),
                None => res.explanation == "No optimization recommendation available"@
                    && res.recommendation == "No optimization recommendation available"@,
            }
        }),
{
}

} // verus!
