//! How the ranking key weighs each piece of evidence, and how a fit's
//! runtime state and a measurement's validation are classified, stated
//! over the fields themselves.

use vstd::prelude::*;

use crate::domain::{
    CpuArchitecture, FitLevel, HardwareMatchLevel, InferenceRuntime, ModelFitView,
};
use crate::optimization::{
    runtime_availability_spec, sort_key_spec, validation_status_spec, ArmValidationStatus,
    CandidateView, OptimizationProvenance, RuntimeAvailability,
};
use crate::ranking::key_gt;

verus! {

/// A candidate with everything weak: unavailable evidence, unknown
/// validation, no hardware match and a too-tight fit.
pub open spec fn is_weakest(c: CandidateView) -> bool {
    &&& c.performance_provenance == OptimizationProvenance::Unavailable
    &&& c.validation_status == ArmValidationStatus::Unknown
    &&& c.benchmark_match_level == HardwareMatchLevel::NoMatch
    &&& c.fit.fit_level == FitLevel::TooTight
}

/// `c` with another provenance.
pub open spec fn with_provenance(c: CandidateView, p: OptimizationProvenance) -> CandidateView {
    CandidateView { performance_provenance: p, ..c }
}

/// `c` with another validation status.
pub open spec fn with_validation(c: CandidateView, v: ArmValidationStatus) -> CandidateView {
    CandidateView { validation_status: v, ..c }
}

/// `c` with another benchmark match level.
pub open spec fn with_match(c: CandidateView, m: HardwareMatchLevel) -> CandidateView {
    CandidateView { benchmark_match_level: m, ..c }
}

/// `c` with another fit level.
pub open spec fn with_fit_level(c: CandidateView, f: FitLevel) -> CandidateView {
    CandidateView { fit: ModelFitView { fit_level: f, ..c.fit }, ..c }
}

/// The key's weights, in hundredths of a point. Measured evidence is
/// worth 300 points over estimated, estimated 200 over unavailable; each
/// step of validation 20 points (40 from partial match down to estimated
/// only); each step of hardware match 2.5 points (5 from partial to none);
/// each step of fit 10 points (20 from marginal to too tight). A candidate
/// weak in all of these has its fit score as its primary score. The
/// second part of the key is the measured throughput where there is one,
/// else the estimate; the third is the fit score.
pub proof fn law_sort_key_weights(c: CandidateView)
    ensures
        is_weakest(c) ==> sort_key_spec(c).0 == c.fit.score,
        sort_key_spec(c).1 == match c.measured_tps {
            Some(t) => t as int,
            None => c.estimated_tps as int,
        },
        sort_key_spec(c).2 == c.fit.score,
        sort_key_spec(with_provenance(c, OptimizationProvenance::Measured)).0 - sort_key_spec(
            with_provenance(c, OptimizationProvenance::Estimated),
        ).0 == 30000,
        sort_key_spec(with_provenance(c, OptimizationProvenance::Estimated)).0 - sort_key_spec(
            with_provenance(c, OptimizationProvenance::Unavailable),
        ).0 == 20000,
        sort_key_spec(with_validation(c, ArmValidationStatus::ExactHardwareMatch)).0
            - sort_key_spec(with_validation(c, ArmValidationStatus::HighConfidenceMatch)).0
            == 2000,
        sort_key_spec(with_validation(c, ArmValidationStatus::HighConfidenceMatch)).0
            - sort_key_spec(with_validation(c, ArmValidationStatus::PartialMatch)).0 == 2000,
        sort_key_spec(with_validation(c, ArmValidationStatus::PartialMatch)).0 - sort_key_spec(
            with_validation(c, ArmValidationStatus::EstimatedOnly),
        ).0 == 4000,
        sort_key_spec(with_validation(c, ArmValidationStatus::EstimatedOnly)).0 - sort_key_spec(
            with_validation(c, ArmValidationStatus::Unknown),
        ).0 == 2000,
        sort_key_spec(with_match(c, HardwareMatchLevel::Exact)).0 - sort_key_spec(
            with_match(c, HardwareMatchLevel::HighConfidence),
        ).0 == 250,
        sort_key_spec(with_match(c, HardwareMatchLevel::HighConfidence)).0 - sort_key_spec(
            with_match(c, HardwareMatchLevel::Partial),
        ).0 == 250,
        sort_key_spec(with_match(c, HardwareMatchLevel::Partial)).0 - sort_key_spec(
            with_match(c, HardwareMatchLevel::NoMatch),
        ).0 == 500,
        sort_key_spec(with_fit_level(c, FitLevel::Perfect)).0 - sort_key_spec(
            with_fit_level(c, FitLevel::Good),
        ).0 == 1000,
        sort_key_spec(with_fit_level(c, FitLevel::Good)).0 - sort_key_spec(
            with_fit_level(c, FitLevel::Marginal),
        ).0 == 1000,
        sort_key_spec(with_fit_level(c, FitLevel::Marginal)).0 - sort_key_spec(
            with_fit_level(c, FitLevel::TooTight),
        ).0 == 2000,
{
}

/// Fit level `a` is better than `b`: Perfect, then Good, then Marginal,
/// then TooTight.
pub open spec fn fit_level_better(a: FitLevel, b: FitLevel) -> bool {
    ||| a == FitLevel::Perfect && b != FitLevel::Perfect
    ||| a == FitLevel::Good && (b == FitLevel::Marginal || b == FitLevel::TooTight)
    ||| a == FitLevel::Marginal && b == FitLevel::TooTight
}

/// Validation `a` is better than `b`: exact match, then high-confidence,
/// then partial, then estimated only, then unknown.
pub open spec fn validation_better(a: ArmValidationStatus, b: ArmValidationStatus) -> bool {
    ||| a == ArmValidationStatus::ExactHardwareMatch && b != ArmValidationStatus::ExactHardwareMatch
    ||| a == ArmValidationStatus::HighConfidenceMatch && (b == ArmValidationStatus::PartialMatch
        || b == ArmValidationStatus::EstimatedOnly || b == ArmValidationStatus::Unknown)
    ||| a == ArmValidationStatus::PartialMatch && (b == ArmValidationStatus::EstimatedOnly || b
        == ArmValidationStatus::Unknown)
    ||| a == ArmValidationStatus::EstimatedOnly && b == ArmValidationStatus::Unknown
}

/// Hardware match `a` is closer than `b`: exact, then high-confidence,
/// then partial, then none.
pub open spec fn match_better(a: HardwareMatchLevel, b: HardwareMatchLevel) -> bool {
    ||| a == HardwareMatchLevel::Exact && b != HardwareMatchLevel::Exact
    ||| a == HardwareMatchLevel::HighConfidence && (b == HardwareMatchLevel::Partial || b
        == HardwareMatchLevel::NoMatch)
    ||| a == HardwareMatchLevel::Partial && b == HardwareMatchLevel::NoMatch
}

/// Evidence `a` is stronger than `b`: measured, then estimated, then
/// unavailable.
pub open spec fn evidence_better(a: OptimizationProvenance, b: OptimizationProvenance) -> bool {
    ||| a == OptimizationProvenance::Measured && b != OptimizationProvenance::Measured
    ||| a == OptimizationProvenance::Estimated && b == OptimizationProvenance::Unavailable
}

/// Between candidates equal in evidence, validation, hardware match and
/// fit score, the better fit level ranks higher.
pub proof fn law_better_fit_level_ranks_higher(a: CandidateView, b: CandidateView)
    requires
        a.performance_provenance == b.performance_provenance,
        a.validation_status == b.validation_status,
        a.benchmark_match_level == b.benchmark_match_level,
        a.fit.score == b.fit.score,
        fit_level_better(a.fit.fit_level, b.fit.fit_level),
    ensures
        key_gt(sort_key_spec(a), sort_key_spec(b)),
{
}

/// Between candidates equal in evidence, hardware match, fit level and
/// fit score, the better validated one ranks higher.
pub proof fn law_better_validation_ranks_higher(a: CandidateView, b: CandidateView)
    requires
        a.performance_provenance == b.performance_provenance,
        a.benchmark_match_level == b.benchmark_match_level,
        a.fit.fit_level == b.fit.fit_level,
        a.fit.score == b.fit.score,
        validation_better(a.validation_status, b.validation_status),
    ensures
        key_gt(sort_key_spec(a), sort_key_spec(b)),
{
}

/// Between candidates equal in evidence, validation, fit level and fit
/// score, the closer hardware match ranks higher.
pub proof fn law_closer_match_ranks_higher(a: CandidateView, b: CandidateView)
    requires
        a.performance_provenance == b.performance_provenance,
        a.validation_status == b.validation_status,
        a.fit.fit_level == b.fit.fit_level,
        a.fit.score == b.fit.score,
        match_better(a.benchmark_match_level, b.benchmark_match_level),
    ensures
        key_gt(sort_key_spec(a), sort_key_spec(b)),
{
}

/// Between candidates equal in validation, hardware match, fit level and
/// fit score, the stronger evidence ranks higher.
pub proof fn law_stronger_evidence_ranks_higher(a: CandidateView, b: CandidateView)
    requires
        a.validation_status == b.validation_status,
        a.benchmark_match_level == b.benchmark_match_level,
        a.fit.fit_level == b.fit.fit_level,
        a.fit.score == b.fit.score,
        evidence_better(a.performance_provenance, b.performance_provenance),
    ensures
        key_gt(sort_key_spec(a), sort_key_spec(b)),
{
}

/// Between candidates equal in every rank and in fit score, the one with
/// the greater throughput (measured where there is a measurement, else
/// estimated) ranks higher.
pub proof fn law_greater_throughput_ranks_higher(a: CandidateView, b: CandidateView)
    requires
        a.performance_provenance == b.performance_provenance,
        a.validation_status == b.validation_status,
        a.benchmark_match_level == b.benchmark_match_level,
        a.fit.fit_level == b.fit.fit_level,
        a.fit.score == b.fit.score,
        (match a.measured_tps {
            Some(t) => t as int,
            None => a.estimated_tps as int,
        }) > (match b.measured_tps {
            Some(t) => t as int,
            None => b.estimated_tps as int,
        }),
    ensures
        key_gt(sort_key_spec(a), sort_key_spec(b)),
{
}

/// The runtime state of a fit: benchmarked exactly when it has a
/// measurement; otherwise installed when installed; otherwise unavailable
/// when its runtime is unsupported, whatever its estimate; otherwise
/// benchmarkable with a positive estimate and unknown without one.
pub proof fn law_runtime_availability(fit: ModelFitView)
    ensures
        (runtime_availability_spec(fit) == RuntimeAvailability::Benchmarked) == (
        fit.measured_tps is Some),
        (runtime_availability_spec(fit) == RuntimeAvailability::Installed) == (fit.measured_tps is None
            && fit.installed),
        (runtime_availability_spec(fit) == RuntimeAvailability::Unavailable) == (fit.measured_tps is None
            && !fit.installed && fit.runtime == InferenceRuntime::Unsupported),
        (runtime_availability_spec(fit) == RuntimeAvailability::Benchmarkable) == (
        fit.measured_tps is None && !fit.installed && fit.runtime != InferenceRuntime::Unsupported
            && fit.estimated_tps > 0),
        (runtime_availability_spec(fit) == RuntimeAvailability::Unknown) == (fit.measured_tps is None
            && !fit.installed && fit.runtime != InferenceRuntime::Unsupported && fit.estimated_tps
            <= 0),
{
}

/// On an `Aarch64` machine a measurement's validation follows its
/// hardware match: exact, high-confidence and partial matches keep their
/// level, no match is estimated only.
pub proof fn law_arm_validation_follows_match(level: HardwareMatchLevel)
    ensures
        (level == HardwareMatchLevel::Exact) == (validation_status_spec(
            CpuArchitecture::Aarch64,
            level,
            true,
        ) == ArmValidationStatus::ExactHardwareMatch),
        (level == HardwareMatchLevel::HighConfidence) == (validation_status_spec(
            CpuArchitecture::Aarch64,
            level,
            true,
        ) == ArmValidationStatus::HighConfidenceMatch),
        (level == HardwareMatchLevel::Partial) == (validation_status_spec(
            CpuArchitecture::Aarch64,
            level,
            true,
        ) == ArmValidationStatus::PartialMatch),
        (level == HardwareMatchLevel::NoMatch) == (validation_status_spec(
            CpuArchitecture::Aarch64,
            level,
            true,
        ) == ArmValidationStatus::EstimatedOnly),
{
}

} // verus!
