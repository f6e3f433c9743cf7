//! What the explanation and recommendation texts say of a candidate,
//! stated over the candidate's fields.

use vstd::prelude::*;

use crate::domain::{runtime_label_text, FitLevel, HardwareMatchLevel, InferenceRuntime};
use crate::optimization::{
    explanation_text, recommendation_text, ArmValidationStatus, CandidateView,
    OptimizationProvenance, RuntimeAvailability,
};
use crate::text::{hundredths_text, tenths_text};

verus! {

/// `p` is how `s` begins.
pub open spec fn begins_with(s: Seq<char>, p: Seq<char>) -> bool {
    p.len() <= s.len() && s.subrange(0, p.len() as int) == p
}

/// `p` is how `s` ends.
pub open spec fn ends_with(s: Seq<char>, p: Seq<char>) -> bool {
    p.len() <= s.len() && s.subrange(s.len() - p.len(), s.len() as int) == p
}

/// The explanation of a measured candidate names it and shows its own
/// measured throughput (or says that it is unavailable), and ends with its
/// estimated throughput.
pub proof fn law_measured_explanation_shows_measurement(c: CandidateView)
    requires
        c.performance_provenance == OptimizationProvenance::Measured,
    ensures
        match c.measured_tps {
            Some(t) => begins_with(
                explanation_text(c),
                "Measured candidate: "@ + c.model.name + ". "@ + "Measured throughput: "@
                    + hundredths_text(t as int) + " tok/s"@,
            ),
            None => begins_with(
                explanation_text(c),
                "Measured candidate: "@ + c.model.name + ". "@
                    + "Measured throughput: unavailable"@,
            ),
        },
        ends_with(
            explanation_text(c),
            " GB memory. Estimated throughput: "@ + hundredths_text(c.estimated_tps as int)
                + " tok/s."@,
        ),
{
    let e = explanation_text(c);
    match c.measured_tps {
        Some(t) => {
            let p = "Measured candidate: "@ + c.model.name + ". "@ + "Measured throughput: "@
                + hundredths_text(t as int) + " tok/s"@;
            assert(e.subrange(0, p.len() as int) =~= p);
        },
        None => {
            let p = "Measured candidate: "@ + c.model.name + ". "@
                + "Measured throughput: unavailable"@;
            assert(e.subrange(0, p.len() as int) =~= p);
        },
    }
    let q = " GB memory. Estimated throughput: "@ + hundredths_text(c.estimated_tps as int)
        + " tok/s."@;
    assert(e.subrange(e.len() - q.len(), e.len() as int) =~= q);
}

/// The explanation of a predicted candidate names it and shows its
/// estimated throughput and its runtime, and ends with its memory figures.
pub proof fn law_predicted_explanation_shows_estimate(c: CandidateView)
    requires
        c.performance_provenance == OptimizationProvenance::Estimated,
    ensures
        begins_with(
            explanation_text(c),
            "Predicted candidate: "@ + c.model.name + ". Estimated throughput: "@
                + hundredths_text(c.estimated_tps as int) + " tok/s with "@ + runtime_label_text(
                c.runtime,
            ),
        ),
        ends_with(
            explanation_text(c),
            " (requires "@ + tenths_text(c.memory_required_gb as int) + " GB, available "@
                + tenths_text(c.memory_available_gb as int) + " GB)."@,
        ),
{
    let e = explanation_text(c);
    let p = "Predicted candidate: "@ + c.model.name + ". Estimated throughput: "@
        + hundredths_text(c.estimated_tps as int) + " tok/s with "@ + runtime_label_text(c.runtime);
    assert(e.subrange(0, p.len() as int) =~= p);
    let q = " (requires "@ + tenths_text(c.memory_required_gb as int) + " GB, available "@
        + tenths_text(c.memory_available_gb as int) + " GB)."@;
    assert(e.subrange(e.len() - q.len(), e.len() as int) =~= q);
}

/// The explanation of a candidate without throughput data names it, says
/// so, and ends with its memory figures.
pub proof fn law_unavailable_explanation_says_so(c: CandidateView)
    requires
        c.performance_provenance == OptimizationProvenance::Unavailable,
    ensures
        begins_with(
            explanation_text(c),
            "Candidate "@ + c.model.name + " has no measured or estimated throughput data. Fit: "@,
        ),
        ends_with(
            explanation_text(c),
            " with "@ + tenths_text(c.memory_required_gb as int) + " GB / "@ + tenths_text(
                c.memory_available_gb as int,
            ) + " GB memory."@,
        ),
{
    let e = explanation_text(c);
    let p = "Candidate "@ + c.model.name + " has no measured or estimated throughput data. Fit: "@;
    assert(e.subrange(0, p.len() as int) =~= p);
    let q = " with "@ + tenths_text(c.memory_required_gb as int) + " GB / "@ + tenths_text(
        c.memory_available_gb as int,
    ) + " GB memory."@;
    assert(e.subrange(e.len() - q.len(), e.len() as int) =~= q);
}

/// The recommendation names the selected candidate and the kind of its
/// evidence: measured, predicted or unavailable.
pub proof fn law_recommendation_names_evidence(c: CandidateView)
    ensures
        recommendation_text(Some(c)) == c.model.name + " is the best "@ + (match c.performance_provenance {
            OptimizationProvenance::Measured => "measured"@,
            OptimizationProvenance::Estimated => "predicted"@,
            OptimizationProvenance::Unavailable => "unavailable"@,
        }) + " fit for this machine"@,
        recommendation_text(None) == "No optimization recommendation available"@,
{
}

/// The full explanation of a candidate, by the evidence behind its
/// throughput: the runtime by its label (MLX, llama.cpp, vLLM,
/// Unsupported), runtime state, validation and fit level by the names of
/// their variants, and the hardware match in words.
pub proof fn law_explanation_full_text(c: CandidateView)
    ensures
        explanation_text(c) == match c.performance_provenance {
            OptimizationProvenance::Measured => "Measured candidate: "@ + c.model.name + ". "@ + (
            match c.measured_tps {
                Some(t) => "Measured throughput: "@ + hundredths_text(t as int) + " tok/s"@,
                None => "Measured throughput: unavailable"@,
            }) + " ("@ + (match c.benchmark_match_level {
                HardwareMatchLevel::Exact => "Exact hardware match"@,
                HardwareMatchLevel::HighConfidence => "High-confidence hardware match"@,
                HardwareMatchLevel::Partial => "Partial hardware match"@,
                HardwareMatchLevel::NoMatch => "No hardware match"@,
            }) + "). Runtime: "@ + (match c.runtime {
                InferenceRuntime::Mlx => "MLX"@,
                InferenceRuntime::LlamaCpp => "llama.cpp"@,
                InferenceRuntime::Vllm => "vLLM"@,
                InferenceRuntime::Unsupported => "Unsupported"@,
            }) + ". Runtime state: "@ + (match c.runtime_availability {
                RuntimeAvailability::Unknown => "Unknown"@,
                RuntimeAvailability::Unavailable => "Unavailable"@,
                RuntimeAvailability::Installed => "Installed"@,
                RuntimeAvailability::Benchmarkable => "Benchmarkable"@,
                RuntimeAvailability::Benchmarked => "Benchmarked"@,
            }) + "; validation: "@ + (match c.validation_status {
                ArmValidationStatus::ExactHardwareMatch => "ExactHardwareMatch"@,
                ArmValidationStatus::HighConfidenceMatch => "HighConfidenceMatch"@,
                ArmValidationStatus::PartialMatch => "PartialMatch"@,
                ArmValidationStatus::EstimatedOnly => "EstimatedOnly"@,
                ArmValidationStatus::Unknown => "Unknown"@,
            }) + ". Fit: "@ + (match c.fit.fit_level {
                FitLevel::Perfect => "Perfect"@,
                FitLevel::Good => "Good"@,
                FitLevel::Marginal => "Marginal"@,
                FitLevel::TooTight => "TooTight"@,
            }) + " with "@ + tenths_text(c.memory_required_gb as int) + " GB / "@ + tenths_text(
                c.memory_available_gb as int,
            ) + " GB memory. Estimated throughput: "@ + hundredths_text(c.estimated_tps as int)
                + " tok/s."@,
            OptimizationProvenance::Estimated => "Predicted candidate: "@ + c.model.name
                + ". Estimated throughput: "@ + hundredths_text(c.estimated_tps as int)
                + " tok/s with "@ + (match c.runtime {
                InferenceRuntime::Mlx => "MLX"@,
                InferenceRuntime::LlamaCpp => "llama.cpp"@,
                InferenceRuntime::Vllm => "vLLM"@,
                InferenceRuntime::Unsupported => "Unsupported"@,
            }) + " runtime. Runtime state: "@ + (match c.runtime_availability {
                RuntimeAvailability::Unknown => "Unknown"@,
                RuntimeAvailability::Unavailable => "Unavailable"@,
                RuntimeAvailability::Installed => "Installed"@,
                RuntimeAvailability::Benchmarkable => "Benchmarkable"@,
                RuntimeAvailability::Benchmarked => "Benchmarked"@,
            }) + "; validation: "@ + (match c.validation_status {
                ArmValidationStatus::ExactHardwareMatch => "ExactHardwareMatch"@,
                ArmValidationStatus::HighConfidenceMatch => "HighConfidenceMatch"@,
                ArmValidationStatus::PartialMatch => "PartialMatch"@,
                ArmValidationStatus::EstimatedOnly => "EstimatedOnly"@,
                ArmValidationStatus::Unknown => "Unknown"@,
            }) + ". Fit: "@ + (match c.fit.fit_level {
                FitLevel::Perfect => "Perfect"@,
                FitLevel::Good => "Good"@,
                FitLevel::Marginal => "Marginal"@,
                FitLevel::TooTight => "TooTight"@,
            }) + " (requires "@ + tenths_text(c.memory_required_gb as int) + " GB, available "@
                + tenths_text(c.memory_available_gb as int) + " GB)."@,
            OptimizationProvenance::Unavailable => "Candidate "@ + c.model.name
                + " has no measured or estimated throughput data. Fit: "@ + (
            match c.fit.fit_level {
                FitLevel::Perfect => "Perfect"@,
                FitLevel::Good => "Good"@,
                FitLevel::Marginal => "Marginal"@,
                FitLevel::TooTight => "TooTight"@,
            }) + " with "@ + tenths_text(c.memory_required_gb as int) + " GB / "@ + tenths_text(
                c.memory_available_gb as int,
            ) + " GB memory."@,
        },
{
}

} // verus!
