//! Classification, ranking and selection of optimization candidates.

use vstd::prelude::*;

use crate::domain::{
    runtime_label_text, ArmArchitectureCompatibility, CpuArchitecture, FitLevel,
    HardwareMatchLevel, InferenceRuntime, LlmModel, LlmModelView, ModelFit, ModelFitView,
    SystemSpecs, FitAnalysis, FitAnalysisView,
};
use crate::ranking::{is_ranking, key_of, lemma_ranking_unique, ranking_order, Key};
use crate::text::{hundredths_text, push_hundredths, push_tenths, tenths_text};

verus! {

/// Where a candidate's throughput figure comes from.
#[derive(Debug, Clone, Copy, PartialEq, Eq, Structural)]
pub enum OptimizationProvenance {
    Measured,
    Estimated,
    Unavailable,
}

/// How far a candidate's runtime is from being usable on this machine.
#[derive(Debug, Clone, Copy, PartialEq, Eq, Structural)]
pub enum RuntimeAvailability {
    Unknown,
    Unavailable,
    Installed,
    Benchmarkable,
    Benchmarked,
}

/// How well a measurement is validated for Arm hardware.
#[derive(Debug, Clone, Copy, PartialEq, Eq, Structural)]
pub enum ArmValidationStatus {
    ExactHardwareMatch,
    HighConfidenceMatch,
    PartialMatch,
    EstimatedOnly,
    Unknown,
}

/// The validation status owed to a benchmark of the given match level on
/// a machine of the given architecture.
pub open spec fn validation_status_spec(
    arch: CpuArchitecture,
    match_level: HardwareMatchLevel,
    measured: bool,
) -> ArmValidationStatus {
    if !measured {
        ArmValidationStatus::EstimatedOnly
    } else {
        match arch {
            CpuArchitecture::Aarch64 => match match_level {
                HardwareMatchLevel::Exact => ArmValidationStatus::ExactHardwareMatch,
                HardwareMatchLevel::HighConfidence => ArmValidationStatus::HighConfidenceMatch,
                HardwareMatchLevel::Partial => ArmValidationStatus::PartialMatch,
                HardwareMatchLevel::NoMatch => ArmValidationStatus::EstimatedOnly,
            },
            _ => ArmValidationStatus::Unknown,
        }
    }
}

/// Classifies how well a throughput figure is validated for this machine:
/// without a measurement it is an estimate only; a measurement counts as an
/// Arm hardware match only on an `Aarch64` machine.
pub fn validation_status_for_match(
    specs: &SystemSpecs,
    match_level: HardwareMatchLevel,
    measured: bool,
) -> (status: ArmValidationStatus)
    ensures
        status == validation_status_spec(specs.architecture, match_level, measured),
{
    if !measured {
        return ArmValidationStatus::EstimatedOnly;
    }
    match specs.architecture {
        CpuArchitecture::Aarch64 => match match_level {
            HardwareMatchLevel::Exact => ArmValidationStatus::ExactHardwareMatch,
            HardwareMatchLevel::HighConfidence => ArmValidationStatus::HighConfidenceMatch,
            HardwareMatchLevel::Partial => ArmValidationStatus::PartialMatch,
            HardwareMatchLevel::NoMatch => ArmValidationStatus::EstimatedOnly,
        },
        CpuArchitecture::X86_64 => ArmValidationStatus::Unknown,
        CpuArchitecture::Unknown => ArmValidationStatus::Unknown,
    }
}

/// The runtime state owed to a fit: a measurement makes it benchmarked;
/// otherwise an installed runtime makes it installed, an unsupported one
/// unavailable, and a positive throughput estimate benchmarkable.
pub open spec fn runtime_availability_spec(fit: ModelFitView) -> RuntimeAvailability {
    if fit.measured_tps is Some {
        RuntimeAvailability::Benchmarked
    } else if fit.installed {
        RuntimeAvailability::Installed
    } else if fit.runtime == InferenceRuntime::Unsupported {
        RuntimeAvailability::Unavailable
    } else if fit.estimated_tps > 0 {
        RuntimeAvailability::Benchmarkable
    } else {
        RuntimeAvailability::Unknown
    }
}

/// Classifies the state of a fit's runtime on this machine.
pub fn runtime_availability_for_fit(fit: &ModelFit) -> (availability: RuntimeAvailability)
    ensures
        availability == runtime_availability_spec(fit@),
{
    if fit.measured_tps.is_some() {
        RuntimeAvailability::Benchmarked
    } else if fit.installed {
        RuntimeAvailability::Installed
    } else if fit.runtime == InferenceRuntime::Unsupported {
        RuntimeAvailability::Unavailable
    } else if fit.estimated_tps > 0 {
        RuntimeAvailability::Benchmarkable
    } else {
        RuntimeAvailability::Unknown
    }
}

/// A configuration proposed for the machine. Throughput is in hundredths
/// of a token per second and memory in tenths of a gigabyte.
#[derive(Debug, Clone)]
pub struct OptimizationCandidate {
    pub model: LlmModel,
    pub quantization: String,
    pub runtime: InferenceRuntime,
    pub context_length: u32,
    pub thread_count: Option<usize>,
    pub batch_size: Option<u32>,
    pub fit: ModelFit,
    pub estimated_tps: i64,
    pub measured_tps: Option<i64>,
    pub benchmark_match_level: HardwareMatchLevel,
    pub performance_provenance: OptimizationProvenance,
    pub runtime_availability: RuntimeAvailability,
    pub validation_status: ArmValidationStatus,
    pub memory_required_gb: i64,
    pub memory_available_gb: i64,
    pub compatibility_status: ArmArchitectureCompatibility,
}

/// The mathematical value of an [`OptimizationCandidate`].
pub struct CandidateView {
    pub model: LlmModelView,
    pub quantization: Seq<char>,
    pub runtime: InferenceRuntime,
    pub context_length: u32,
    pub thread_count: Option<usize>,
    pub batch_size: Option<u32>,
    pub fit: ModelFitView,
    pub estimated_tps: i64,
    pub measured_tps: Option<i64>,
    pub benchmark_match_level: HardwareMatchLevel,
    pub performance_provenance: OptimizationProvenance,
    pub runtime_availability: RuntimeAvailability,
    pub validation_status: ArmValidationStatus,
    pub memory_required_gb: i64,
    pub memory_available_gb: i64,
    pub compatibility_status: ArmArchitectureCompatibility,
}

impl View for OptimizationCandidate {
    type V = CandidateView;

    open spec fn view(&self) -> CandidateView {
        CandidateView {
            model: self.model@,
            quantization: self.quantization@,
            runtime: self.runtime,
            context_length: self.context_length,
            thread_count: self.thread_count,
            batch_size: self.batch_size,
            fit: self.fit@,
            estimated_tps: self.estimated_tps,
            measured_tps: self.measured_tps,
            benchmark_match_level: self.benchmark_match_level,
            performance_provenance: self.performance_provenance,
            runtime_availability: self.runtime_availability,
            validation_status: self.validation_status,
            memory_required_gb: self.memory_required_gb,
            memory_available_gb: self.memory_available_gb,
            compatibility_status: self.compatibility_status,
        }
    }
}

impl OptimizationCandidate {
    /// A copy of this candidate.
    pub fn duplicate(&self) -> (r: Self)
        ensures
            r@ == self@,
    {
        OptimizationCandidate {
            model: self.model.duplicate(),
            quantization: self.quantization.clone(),
            runtime: self.runtime,
            context_length: self.context_length,
            thread_count: self.thread_count,
            batch_size: self.batch_size,
            fit: self.fit.duplicate(),
            estimated_tps: self.estimated_tps,
            measured_tps: self.measured_tps,
            benchmark_match_level: self.benchmark_match_level,
            performance_provenance: self.performance_provenance,
            runtime_availability: self.runtime_availability,
            validation_status: self.validation_status,
            memory_required_gb: self.memory_required_gb,
            memory_available_gb: self.memory_available_gb,
            compatibility_status: self.compatibility_status,
        }
    }
}

/// Rank of the evidence behind a throughput figure.
pub open spec fn evidence_rank(p: OptimizationProvenance) -> int {
    match p {
        OptimizationProvenance::Measured => 5,
        OptimizationProvenance::Estimated => 2,
        OptimizationProvenance::Unavailable => 0,
    }
}

/// Rank of a validation status.
pub open spec fn validation_rank(v: ArmValidationStatus) -> int {
    match v {
        ArmValidationStatus::ExactHardwareMatch => 5,
        ArmValidationStatus::HighConfidenceMatch => 4,
        ArmValidationStatus::PartialMatch => 3,
        ArmValidationStatus::EstimatedOnly => 1,
        ArmValidationStatus::Unknown => 0,
    }
}

/// Rank of a memory fit.
pub open spec fn fit_rank(f: FitLevel) -> int {
    match f {
        FitLevel::Perfect => 4,
        FitLevel::Good => 3,
        FitLevel::Marginal => 2,
        FitLevel::TooTight => 0,
    }
}

/// Bonus for a benchmark's hardware match, in quarters: 1, 0.75, 0.5, 0.
pub open spec fn benchmark_bonus_quarters(m: HardwareMatchLevel) -> int {
    match m {
        HardwareMatchLevel::Exact => 4,
        HardwareMatchLevel::HighConfidence => 3,
        HardwareMatchLevel::Partial => 2,
        HardwareMatchLevel::NoMatch => 0,
    }
}

/// The throughput by which candidates of equal standing are ordered: the
/// measured one where there is a measurement, else the estimate.
pub open spec fn ranking_throughput(c: CandidateView) -> int {
    match c.measured_tps {
        Some(t) => t as int,
        None => c.estimated_tps as int,
    }
}

/// The primary ranking score, in hundredths of a point:
/// `evidence * 100 + validation * 20 + bonus * 10 + fit * 10 + score`.
pub open spec fn primary_score(c: CandidateView) -> int {
    (evidence_rank(c.performance_provenance) * 100 + validation_rank(c.validation_status) * 20
        + fit_rank(c.fit.fit_level) * 10) * 100
        + benchmark_bonus_quarters(c.benchmark_match_level) * 250
        + c.fit.score
}

/// The key by which candidates are ranked, compared lexicographically,
/// greatest first.
pub open spec fn sort_key_spec(c: CandidateView) -> (int, int, int) {
    (primary_score(c), ranking_throughput(c), c.fit.score as int)
}

/// The ranking key of a candidate: its primary score, then its
/// throughput, then its fit score.
pub fn candidate_sort_key(candidate: &OptimizationCandidate) -> (key: (i128, i64, i64))
    ensures
        (key.0 as int, key.1 as int, key.2 as int) == sort_key_spec(candidate@),
{
    let throughput: i64 = match candidate.measured_tps {
        Some(t) => t,
        None => candidate.estimated_tps,
    };
    let fit_rank: i128 = match candidate.fit.fit_level {
        FitLevel::Perfect => 4,
        FitLevel::Good => 3,
        FitLevel::Marginal => 2,
        FitLevel::TooTight => 0,
    };
    let evidence_rank: i128 = match candidate.performance_provenance {
        OptimizationProvenance::Measured => 5,
        OptimizationProvenance::Estimated => 2,
        OptimizationProvenance::Unavailable => 0,
    };
    let validation_rank: i128 = match candidate.validation_status {
        ArmValidationStatus::ExactHardwareMatch => 5,
        ArmValidationStatus::HighConfidenceMatch => 4,
        ArmValidationStatus::PartialMatch => 3,
        ArmValidationStatus::EstimatedOnly => 1,
        ArmValidationStatus::Unknown => 0,
    };
    let bonus_quarters: i128 = match candidate.benchmark_match_level {
        HardwareMatchLevel::Exact => 4,
        HardwareMatchLevel::HighConfidence => 3,
        HardwareMatchLevel::Partial => 2,
        HardwareMatchLevel::NoMatch => 0,
    };
    let score: i128 = candidate.fit.score as i128;
    let primary: i128 = (evidence_rank * 100 + validation_rank * 20 + fit_rank * 10) * 100
        + bonus_quarters * 250 + score;
    (primary, throughput, candidate.fit.score)
}

/// The name under which a runtime state is reported.
pub open spec fn availability_name(a: RuntimeAvailability) -> Seq<char> {
    match a {
        RuntimeAvailability::Unknown => "Unknown"@,
        RuntimeAvailability::Unavailable => "Unavailable"@,
        RuntimeAvailability::Installed => "Installed"@,
        RuntimeAvailability::Benchmarkable => "Benchmarkable"@,
        RuntimeAvailability::Benchmarked => "Benchmarked"@,
    }
}

impl RuntimeAvailability {
    /// The name under which this runtime state is reported.
    pub fn name(&self) -> (r: &'static str)
        ensures
            r@ == availability_name(*self),
    {
        match self {
            RuntimeAvailability::Unknown => "Unknown",
            RuntimeAvailability::Unavailable => "Unavailable",
            RuntimeAvailability::Installed => "Installed",
            RuntimeAvailability::Benchmarkable => "Benchmarkable",
            RuntimeAvailability::Benchmarked => "Benchmarked",
        }
    }
}

/// The name under which a validation status is reported.
pub open spec fn validation_name(v: ArmValidationStatus) -> Seq<char> {
    match v {
        ArmValidationStatus::ExactHardwareMatch => "ExactHardwareMatch"@,
        ArmValidationStatus::HighConfidenceMatch => "HighConfidenceMatch"@,
        ArmValidationStatus::PartialMatch => "PartialMatch"@,
        ArmValidationStatus::EstimatedOnly => "EstimatedOnly"@,
        ArmValidationStatus::Unknown => "Unknown"@,
    }
}

impl ArmValidationStatus {
    /// The name under which this validation status is reported.
    pub fn name(&self) -> (r: &'static str)
        ensures
            r@ == validation_name(*self),
    {
        match self {
            ArmValidationStatus::ExactHardwareMatch => "ExactHardwareMatch",
            ArmValidationStatus::HighConfidenceMatch => "HighConfidenceMatch",
            ArmValidationStatus::PartialMatch => "PartialMatch",
            ArmValidationStatus::EstimatedOnly => "EstimatedOnly",
            ArmValidationStatus::Unknown => "Unknown",
        }
    }
}

/// The name under which a fit level is reported.
pub open spec fn fit_level_name(f: FitLevel) -> Seq<char> {
    match f {
        FitLevel::Perfect => "Perfect"@,
        FitLevel::Good => "Good"@,
        FitLevel::Marginal => "Marginal"@,
        FitLevel::TooTight => "TooTight"@,
    }
}

/// The name under which a fit level is reported.
fn fit_level_str(f: FitLevel) -> (r: &'static str)
    ensures
        r@ == fit_level_name(f),
{
    match f {
        FitLevel::Perfect => "Perfect",
        FitLevel::Good => "Good",
        FitLevel::Marginal => "Marginal",
        FitLevel::TooTight => "TooTight",
    }
}

/// How a benchmark's hardware match is described.
pub open spec fn match_label_text(m: HardwareMatchLevel) -> Seq<char> {
    match m {
        HardwareMatchLevel::Exact => "Exact hardware match"@,
        HardwareMatchLevel::HighConfidence => "High-confidence hardware match"@,
        HardwareMatchLevel::Partial => "Partial hardware match"@,
        HardwareMatchLevel::NoMatch => "No hardware match"@,
    }
}

/// How a benchmark's hardware match is described.
fn match_label_str(m: HardwareMatchLevel) -> (r: &'static str)
    ensures
        r@ == match_label_text(m),
{
    match m {
        HardwareMatchLevel::Exact => "Exact hardware match",
        HardwareMatchLevel::HighConfidence => "High-confidence hardware match",
        HardwareMatchLevel::Partial => "Partial hardware match",
        HardwareMatchLevel::NoMatch => "No hardware match",
    }
}

/// The sentence on a candidate's measured throughput.
pub open spec fn measured_sentence(measured: Option<i64>) -> Seq<char> {
    match measured {
        Some(t) => "Measured throughput: "@ + hundredths_text(t as int) + " tok/s"@,
        None => "Measured throughput: unavailable"@,
    }
}

/// The explanation of a candidate whose throughput was measured.
pub open spec fn measured_explanation(c: CandidateView) -> Seq<char> {
    "Measured candidate: "@ + c.model.name + ". "@ + measured_sentence(c.measured_tps) + " ("@
        + match_label_text(c.benchmark_match_level) + "). Runtime: "@ + runtime_label_text(c.runtime)
        + ". Runtime state: "@ + availability_name(c.runtime_availability) + "; validation: "@
        + validation_name(c.validation_status) + ". Fit: "@ + fit_level_name(c.fit.fit_level)
        + " with "@ + tenths_text(c.memory_required_gb as int) + " GB / "@ + tenths_text(
        c.memory_available_gb as int,
    ) + " GB memory. Estimated throughput: "@ + hundredths_text(c.estimated_tps as int)
        + " tok/s."@
}

/// The explanation of a candidate whose throughput is estimated.
pub open spec fn predicted_explanation(c: CandidateView) -> Seq<char> {
    "Predicted candidate: "@ + c.model.name + ". Estimated throughput: "@ + hundredths_text(
        c.estimated_tps as int,
    ) + " tok/s with "@ + runtime_label_text(c.runtime) + " runtime. Runtime state: "@
        + availability_name(c.runtime_availability) + "; validation: "@ + validation_name(
        c.validation_status,
    ) + ". Fit: "@ + fit_level_name(c.fit.fit_level) + " (requires "@ + tenths_text(
        c.memory_required_gb as int,
    ) + " GB, available "@ + tenths_text(c.memory_available_gb as int) + " GB)."@
}

/// The explanation of a candidate without throughput data.
pub open spec fn unavailable_explanation(c: CandidateView) -> Seq<char> {
    "Candidate "@ + c.model.name + " has no measured or estimated throughput data. Fit: "@
        + fit_level_name(c.fit.fit_level) + " with "@ + tenths_text(c.memory_required_gb as int)
        + " GB / "@ + tenths_text(c.memory_available_gb as int) + " GB memory."@
}

/// The explanation of a candidate, by the evidence behind its throughput.
pub open spec fn explanation_text(c: CandidateView) -> Seq<char> {
    match c.performance_provenance {
        OptimizationProvenance::Measured => measured_explanation(c),
        OptimizationProvenance::Estimated => predicted_explanation(c),
        OptimizationProvenance::Unavailable => unavailable_explanation(c),
    }
}

fn push_measured_sentence(s: &mut String, measured: Option<i64>)
    ensures
        final(s)@ == old(s)@ + measured_sentence(measured),
{
    match measured {
        Some(t) => {
            s.append("Measured throughput: ");
            push_hundredths(s, t);
            s.append(" tok/s");
        },
        None => {
            s.append("Measured throughput: unavailable");
        },
    }
    proof {
        assert(s@ =~= old(s)@ + measured_sentence(measured));
    }
}

fn explain_measured(candidate: &OptimizationCandidate) -> (text: String)
    ensures
        text@ == measured_explanation(candidate@),
{
    let mut s = String::from_str("Measured candidate: ");
    s.append(candidate.model.name.as_str());
    s.append(". ");
    push_measured_sentence(&mut s, candidate.measured_tps);
    s.append(" (");
    s.append(match_label_str(candidate.benchmark_match_level));
    s.append("). Runtime: ");
    s.append(candidate.runtime.label());
    s.append(". Runtime state: ");
    s.append(candidate.runtime_availability.name());
    s.append("; validation: ");
    s.append(candidate.validation_status.name());
    s.append(". Fit: ");
    s.append(fit_level_str(candidate.fit.fit_level));
    s.append(" with ");
    push_tenths(&mut s, candidate.memory_required_gb);
    s.append(" GB / ");
    push_tenths(&mut s, candidate.memory_available_gb);
    s.append(" GB memory. Estimated throughput: ");
    push_hundredths(&mut s, candidate.estimated_tps);
    s.append(" tok/s.");
    s
}

fn explain_predicted(candidate: &OptimizationCandidate) -> (text: String)
    ensures
        text@ == predicted_explanation(candidate@),
{
    let mut s = String::from_str("Predicted candidate: ");
    s.append(candidate.model.name.as_str());
    s.append(". Estimated throughput: ");
    push_hundredths(&mut s, candidate.estimated_tps);
    s.append(" tok/s with ");
    s.append(candidate.runtime.label());
    s.append(" runtime. Runtime state: ");
    s.append(candidate.runtime_availability.name());
    s.append("; validation: ");
    s.append(candidate.validation_status.name());
    s.append(". Fit: ");
    s.append(fit_level_str(candidate.fit.fit_level));
    s.append(" (requires ");
    push_tenths(&mut s, candidate.memory_required_gb);
    s.append(" GB, available ");
    push_tenths(&mut s, candidate.memory_available_gb);
    s.append(" GB).");
    s
}

fn explain_unavailable(candidate: &OptimizationCandidate) -> (text: String)
    ensures
        text@ == unavailable_explanation(candidate@),
{
    let mut s = String::from_str("Candidate ");
    s.append(candidate.model.name.as_str());
    s.append(" has no measured or estimated throughput data. Fit: ");
    s.append(fit_level_str(candidate.fit.fit_level));
    s.append(" with ");
    push_tenths(&mut s, candidate.memory_required_gb);
    s.append(" GB / ");
    push_tenths(&mut s, candidate.memory_available_gb);
    s.append(" GB memory.");
    s
}

/// Explains a candidate in a sentence or a few: what its throughput rests
/// on, its runtime and validation state, and how it fits in memory.
pub fn explain_candidate(candidate: &OptimizationCandidate) -> (text: String)
    ensures
        text@ == explanation_text(candidate@),
{
    match candidate.performance_provenance {
        OptimizationProvenance::Measured => explain_measured(candidate),
        OptimizationProvenance::Estimated => explain_predicted(candidate),
        OptimizationProvenance::Unavailable => explain_unavailable(candidate),
    }
}

/// Where the throughput figure of a fit comes from.
pub open spec fn provenance_spec(fit: ModelFitView) -> OptimizationProvenance {
    if fit.measured_tps is Some {
        OptimizationProvenance::Measured
    } else if fit.estimated_tps > 0 {
        OptimizationProvenance::Estimated
    } else {
        OptimizationProvenance::Unavailable
    }
}

/// A fit that neither fits in memory nor has any throughput estimate is
/// not a candidate.
pub open spec fn is_excluded(fit: ModelFitView) -> bool {
    fit.fit_level == FitLevel::TooTight && fit.estimated_tps <= 0
}

/// The benchmark match level behind a fit: that of its measurement, if
/// it has one.
pub open spec fn match_level_spec(fit: ModelFitView) -> HardwareMatchLevel {
    match fit.measured_tps {
        Some(m) => m.match_level,
        None => HardwareMatchLevel::NoMatch,
    }
}

/// The candidate that an analysed fit becomes on a machine of the given
/// architecture.
pub open spec fn candidate_spec(a: FitAnalysisView, arch: CpuArchitecture) -> CandidateView {
    CandidateView {
        model: a.fit.model,
        quantization: a.fit.best_quant,
        runtime: a.fit.runtime,
        context_length: a.fit.effective_context_length,
        thread_count: None,
        batch_size: None,
        fit: a.fit,
        estimated_tps: a.fit.estimated_tps,
        measured_tps: match a.fit.measured_tps {
            Some(m) => Some(m.tok_s),
            None => None,
        },
        benchmark_match_level: match_level_spec(a.fit),
        performance_provenance: provenance_spec(a.fit),
        runtime_availability: runtime_availability_spec(a.fit),
        validation_status: validation_status_spec(
            arch,
            match_level_spec(a.fit),
            a.fit.measured_tps is Some,
        ),
        memory_required_gb: a.fit.memory_required_gb,
        memory_available_gb: a.fit.memory_available_gb,
        compatibility_status: match a.arm_compatibility {
            Some(c) => c,
            None => ArmArchitectureCompatibility::Unknown,
        },
    }
}

/// The candidates that a list of analysed fits yields, in list order:
/// one for each fit that is not excluded.
pub open spec fn candidates_spec(analyses: Seq<FitAnalysisView>, arch: CpuArchitecture) -> Seq<
    CandidateView,
>
    decreases analyses.len(),
{
    if analyses.len() == 0 {
        Seq::empty()
    } else {
        let earlier = candidates_spec(analyses.drop_last(), arch);
        if is_excluded(analyses.last().fit) {
            earlier
        } else {
            earlier.push(candidate_spec(analyses.last(), arch))
        }
    }
}

/// The ranking keys of a list of candidates.
pub open spec fn keys_spec(cands: Seq<CandidateView>) -> Seq<Key> {
    cands.map_values(|c: CandidateView| sort_key_spec(c))
}

/// The stable ranking order of a list of candidates, greatest key first.
pub open spec fn ranking_spec(cands: Seq<CandidateView>) -> Seq<int> {
    choose|order: Seq<int>| is_ranking(keys_spec(cands), order)
}

/// How many ranked candidates are kept: at most `limit`, where `limit` is
/// positive; all of them otherwise.
pub open spec fn kept_count(n: int, limit: int) -> int {
    if limit > 0 && limit < n {
        limit
    } else {
        n
    }
}

/// The candidates in stable ranking order, greatest key first, cut to
/// the limit.
pub open spec fn ranked_spec(cands: Seq<CandidateView>, limit: int) -> Seq<CandidateView> {
    Seq::new(
        kept_count(cands.len() as int, limit) as nat,
        |k: int| cands[ranking_spec(cands)[k]],
    )
}

/// `a` is strictly greater than `b` in lexicographic order.
pub open spec fn pair_gt(a: (int, int), b: (int, int)) -> bool {
    a.0 > b.0 || (a.0 == b.0 && a.1 > b.1)
}

/// The key by which the best candidate of a provenance is chosen: the
/// measured throughput (zero where missing) for measured candidates, the
/// estimate for the others, then the fit score.
pub open spec fn preference_key(c: CandidateView, p: OptimizationProvenance) -> (int, int) {
    match p {
        OptimizationProvenance::Measured => (
            match c.measured_tps {
                Some(t) => t as int,
                None => 0,
            },
            c.fit.score as int,
        ),
        _ => (c.estimated_tps as int, c.fit.score as int),
    }
}

/// Candidate `j` is the best of provenance `p` in `s`: it has that
/// provenance, no candidate of it has a greater key, and none after it an
/// equal one.
pub open spec fn is_best_of(s: Seq<CandidateView>, p: OptimizationProvenance, j: int) -> bool {
    &&& 0 <= j < s.len()
    &&& s[j].performance_provenance == p
    &&& forall|k: int|
        0 <= k < s.len() && #[trigger] s[k].performance_provenance == p ==> !pair_gt(
            preference_key(s[k], p),
            preference_key(s[j], p),
        )
    &&& forall|k: int|
        j < k < s.len() && #[trigger] s[k].performance_provenance == p ==> pair_gt(
            preference_key(s[j], p),
            preference_key(s[k], p),
        )
}

/// The best candidate of provenance `p` in `s`, if `s` has one of it.
pub open spec fn best_of_spec(s: Seq<CandidateView>, p: OptimizationProvenance) -> Option<
    CandidateView,
> {
    if exists|j: int| is_best_of(s, p, j) {
        Some(s[choose|j: int| is_best_of(s, p, j)])
    } else {
        None
    }
}

/// The best available candidate: the best measured one, else the best
/// predicted one, else the first ranked one.
pub open spec fn best_available_spec(s: Seq<CandidateView>) -> Option<CandidateView> {
    match best_of_spec(s, OptimizationProvenance::Measured) {
        Some(c) => Some(c),
        None => match best_of_spec(s, OptimizationProvenance::Estimated) {
            Some(c) => Some(c),
            None => if s.len() > 0 {
                Some(s[0])
            } else {
                None
            },
        },
    }
}

/// The word for a provenance in a recommendation.
pub open spec fn provenance_word(p: OptimizationProvenance) -> Seq<char> {
    match p {
        OptimizationProvenance::Measured => "measured"@,
        OptimizationProvenance::Estimated => "predicted"@,
        OptimizationProvenance::Unavailable => "unavailable"@,
    }
}

/// What is said where there is no candidate.
pub open spec fn no_recommendation_text() -> Seq<char> {
    "No optimization recommendation available"@
}

/// The recommendation sentence for a selected candidate.
pub open spec fn recommendation_text(selected: Option<CandidateView>) -> Seq<char> {
    match selected {
        Some(c) => c.model.name + " is the best "@ + provenance_word(c.performance_provenance)
            + " fit for this machine"@,
        None => no_recommendation_text(),
    }
}

/// The explanation of a selected candidate.
pub open spec fn selected_explanation_text(selected: Option<CandidateView>) -> Seq<char> {
    match selected {
        Some(c) => explanation_text(c),
        None => no_recommendation_text(),
    }
}

/// The outcome of optimizing for a machine.
#[derive(Debug, Clone)]
pub struct OptimizationResult {
    pub hardware_architecture: CpuArchitecture,
    pub selected_candidate: Option<OptimizationCandidate>,
    pub best_available: Option<OptimizationCandidate>,
    pub best_measured: Option<OptimizationCandidate>,
    pub best_predicted: Option<OptimizationCandidate>,
    pub ranked_candidates: Vec<OptimizationCandidate>,
    pub explanation: String,
    pub recommendation: String,
    pub is_arm_aware: bool,
}

/// The view of an optional candidate.
pub open spec fn candidate_opt_view(c: Option<OptimizationCandidate>) -> Option<CandidateView> {
    match c {
        Some(c) => Some(c@),
        None => None,
    }
}

/// The mathematical value of an [`OptimizationResult`].
pub struct OptimizationResultView {
    pub hardware_architecture: CpuArchitecture,
    pub selected_candidate: Option<CandidateView>,
    pub best_available: Option<CandidateView>,
    pub best_measured: Option<CandidateView>,
    pub best_predicted: Option<CandidateView>,
    pub ranked_candidates: Seq<CandidateView>,
    pub explanation: Seq<char>,
    pub recommendation: Seq<char>,
    pub is_arm_aware: bool,
}

impl View for OptimizationResult {
    type V = OptimizationResultView;

    open spec fn view(&self) -> OptimizationResultView {
        OptimizationResultView {
            hardware_architecture: self.hardware_architecture,
            selected_candidate: candidate_opt_view(self.selected_candidate),
            best_available: candidate_opt_view(self.best_available),
            best_measured: candidate_opt_view(self.best_measured),
            best_predicted: candidate_opt_view(self.best_predicted),
            ranked_candidates: self.ranked_candidates@.map_values(|c: OptimizationCandidate| c@),
            explanation: self.explanation@,
            recommendation: self.recommendation@,
            is_arm_aware: self.is_arm_aware,
        }
    }
}

/// The outcome of optimizing for a machine of architecture `arch` over
/// the analysed fits, keeping at most `limit` ranked candidates where
/// `limit` is positive.
pub open spec fn optimization_spec(
    analyses: Seq<FitAnalysisView>,
    arch: CpuArchitecture,
    limit: int,
) -> OptimizationResultView {
    let ranked = ranked_spec(candidates_spec(analyses, arch), limit);
    let available = best_available_spec(ranked);
    OptimizationResultView {
        hardware_architecture: arch,
        selected_candidate: available,
        best_available: available,
        best_measured: best_of_spec(ranked, OptimizationProvenance::Measured),
        best_predicted: best_of_spec(ranked, OptimizationProvenance::Estimated),
        ranked_candidates: ranked,
        explanation: selected_explanation_text(available),
        recommendation: recommendation_text(available),
        is_arm_aware: arch == CpuArchitecture::Aarch64,
    }
}

/// The views of a list of candidates.
pub open spec fn candidate_views(v: Seq<OptimizationCandidate>) -> Seq<CandidateView> {
    v.map_values(|c: OptimizationCandidate| c@)
}

/// The views of a list of analysed fits.
pub open spec fn analysis_views(v: Seq<FitAnalysis>) -> Seq<FitAnalysisView> {
    v.map_values(|a: FitAnalysis| a@)
}

fn candidate_for(analysis: &FitAnalysis, specs: &SystemSpecs) -> (c: OptimizationCandidate)
    ensures
        c@ == candidate_spec(analysis@, specs.architecture),
{
    let fit = &analysis.fit;
    let measured_tps: Option<i64> = match &fit.measured_tps {
        Some(m) => Some(m.tok_s),
        None => None,
    };
    let benchmark_match_level = match &fit.measured_tps {
        Some(m) => m.match_level,
        None => HardwareMatchLevel::NoMatch,
    };
    let performance_provenance = if fit.measured_tps.is_some() {
        OptimizationProvenance::Measured
    } else if fit.estimated_tps > 0 {
        OptimizationProvenance::Estimated
    } else {
        OptimizationProvenance::Unavailable
    };
    let compatibility_status = match analysis.arm_compatibility {
        Some(c) => c,
        None => ArmArchitectureCompatibility::Unknown,
    };
    OptimizationCandidate {
        model: fit.model.duplicate(),
        quantization: fit.best_quant.clone(),
        runtime: fit.runtime,
        context_length: fit.effective_context_length,
        thread_count: None,
        batch_size: None,
        fit: fit.duplicate(),
        estimated_tps: fit.estimated_tps,
        measured_tps,
        benchmark_match_level,
        performance_provenance,
        runtime_availability: runtime_availability_for_fit(fit),
        validation_status: validation_status_for_match(
            specs,
            benchmark_match_level,
            fit.measured_tps.is_some(),
        ),
        memory_required_gb: fit.memory_required_gb,
        memory_available_gb: fit.memory_available_gb,
        compatibility_status,
    }
}

fn collect_candidates(analyses: &Vec<FitAnalysis>, specs: &SystemSpecs) -> (cands: Vec<
    OptimizationCandidate,
>)
    ensures
        candidate_views(cands@) == candidates_spec(analysis_views(analyses@), specs.architecture),
{
    let ghost av = analysis_views(analyses@);
    let mut cands: Vec<OptimizationCandidate> = Vec::new();
    for i in 0..analyses.len()
        invariant
            av == analysis_views(analyses@),
            candidate_views(cands@) == candidates_spec(av.take(i as int), specs.architecture),
    {
        proof {
            assert(av.take(i + 1).drop_last() =~= av.take(i as int));
            assert(av.take(i + 1).last() == analyses@[i as int]@);
        }
        let analysis = &analyses[i];
        if !(analysis.fit.fit_level == FitLevel::TooTight && analysis.fit.estimated_tps <= 0) {
            let c = candidate_for(analysis, specs);
            let ghost before = cands@;
            cands.push(c);
            proof {
                assert(candidate_views(cands@) =~= candidate_views(before).push(c@));
            }
        }
    }
    proof {
        assert(av.take(analyses.len() as int) =~= av);
    }
    cands
}

fn rank_candidates(cands: &Vec<OptimizationCandidate>, limit: usize) -> (ranked: Vec<
    OptimizationCandidate,
>)
    ensures
        candidate_views(ranked@) == ranked_spec(candidate_views(cands@), limit as int),
{
    let ghost cv = candidate_views(cands@);
    let n = cands.len();
    let mut keys: Vec<(i128, i64, i64)> = Vec::new();
    for i in 0..n
        invariant
            n == cands.len(),
            cv == candidate_views(cands@),
            keys.len() == i,
            forall|k: int| 0 <= k < i ==> key_of(#[trigger] keys@[k]) == sort_key_spec(cv[k]),
    {
        keys.push(candidate_sort_key(&cands[i]));
    }
    let order = ranking_order(&keys);
    let ghost o = order@.map_values(|i: usize| i as int);
    proof {
        assert(keys@.map_values(|k: (i128, i64, i64)| key_of(k)) =~= keys_spec(cv));
        assert(is_ranking(keys_spec(cv), o));
        lemma_ranking_unique(keys_spec(cv), ranking_spec(cv), o);
    }
    let m: usize = if limit > 0 && limit < n {
        limit
    } else {
        n
    };
    let mut ranked: Vec<OptimizationCandidate> = Vec::new();
    for k in 0..m
        invariant
            n == cands.len(),
            cv == candidate_views(cands@),
            m <= n,
            order.len() == n,
            o == order@.map_values(|i: usize| i as int),
            is_ranking(keys_spec(cv), o),
            ranked.len() == k,
            forall|q: int| 0 <= q < k ==> (#[trigger] ranked@[q])@ == cv[o[q]],
    {
        assert(0 <= o[k as int] < n);
        ranked.push(cands[order[k]].duplicate());
    }
    proof {
        assert(ranking_spec(cv) == o);
        assert(candidate_views(ranked@) =~= ranked_spec(cv, limit as int));
    }
    ranked
}

/// At most one candidate is the best of a provenance.
pub proof fn lemma_best_of_unique(s: Seq<CandidateView>, p: OptimizationProvenance, i: int, j: int)
    requires
        is_best_of(s, p, i),
        is_best_of(s, p, j),
    ensures
        i == j,
{
    if i < j {
        assert(pair_gt(preference_key(s[i], p), preference_key(s[j], p)));
    } else if j < i {
        assert(pair_gt(preference_key(s[j], p), preference_key(s[i], p)));
    }
}

fn preference_key_of(c: &OptimizationCandidate, p: OptimizationProvenance) -> (key: (i64, i64))
    ensures
        (key.0 as int, key.1 as int) == preference_key(c@, p),
{
    match p {
        OptimizationProvenance::Measured => (
            match c.measured_tps {
                Some(t) => t,
                None => 0,
            },
            c.fit.score,
        ),
        _ => (c.estimated_tps, c.fit.score),
    }
}

/// The position of the best candidate of provenance `p`: among those with
/// the greatest key, the last.
fn best_index(ranked: &Vec<OptimizationCandidate>, p: OptimizationProvenance) -> (r: Option<
    usize,
>)
    ensures
        match r {
            Some(j) => is_best_of(candidate_views(ranked@), p, j as int),
            None => forall|k: int|
                0 <= k < ranked.len() ==> (#[trigger] ranked@[k]).performance_provenance != p,
        },
{
    let ghost cv = candidate_views(ranked@);
    let mut best: Option<usize> = None;
    for k in 0..ranked.len()
        invariant
            cv == candidate_views(ranked@),
            match best {
                Some(b) => {
                    &&& b < k
                    &&& cv[b as int].performance_provenance == p
                    &&& forall|q: int|
                        0 <= q < k && #[trigger] cv[q].performance_provenance == p ==> !pair_gt(
                            preference_key(cv[q], p),
                            preference_key(cv[b as int], p),
                        )
                    &&& forall|q: int|
                        b < q < k && #[trigger] cv[q].performance_provenance == p ==> pair_gt(
                            preference_key(cv[b as int], p),
                            preference_key(cv[q], p),
                        )
                },
                None => forall|q: int|
                    0 <= q < k ==> (#[trigger] ranked@[q]).performance_provenance != p,
            },
    {
        if ranked[k].performance_provenance == p {
            match best {
                None => {
                    best = Some(k);
                    proof {
                        assert forall|q: int|
                            0 <= q < k + 1 && #[trigger] cv[q].performance_provenance
                                == p implies !pair_gt(
                            preference_key(cv[q], p),
                            preference_key(cv[k as int], p),
                        ) by {
                            if q < k {
                                assert(ranked@[q].performance_provenance != p);
                            }
                        }
                    }
                },
                Some(b) => {
                    let kb = preference_key_of(&ranked[b], p);
                    let kk = preference_key_of(&ranked[k], p);
                    if !(kb.0 > kk.0 || (kb.0 == kk.0 && kb.1 > kk.1)) {
                        best = Some(k);
                    }
                },
            }
        }
    }
    proof {
        if let Some(b) = best {
            assert(is_best_of(cv, p, b as int));
        }
    }
    best
}

/// A copy of the best candidate of provenance `p`, if there is one.
fn best_of(ranked: &Vec<OptimizationCandidate>, p: OptimizationProvenance) -> (r: Option<
    OptimizationCandidate,
>)
    ensures
        candidate_opt_view(r) == best_of_spec(candidate_views(ranked@), p),
{
    let ghost cv = candidate_views(ranked@);
    match best_index(ranked, p) {
        Some(j) => {
            proof {
                let c = choose|i: int| is_best_of(cv, p, i);
                lemma_best_of_unique(cv, p, c, j as int);
            }
            Some(ranked[j].duplicate())
        },
        None => {
            proof {
                assert forall|j: int| !is_best_of(cv, p, j) by {
                    if 0 <= j < cv.len() {
                        assert(ranked@[j].performance_provenance != p);
                    }
                }
            }
            None
        },
    }
}

fn duplicate_opt(c: &Option<OptimizationCandidate>) -> (r: Option<OptimizationCandidate>)
    ensures
        candidate_opt_view(r) == candidate_opt_view(*c),
{
    match c {
        Some(c) => Some(c.duplicate()),
        None => None,
    }
}

fn provenance_word_str(p: OptimizationProvenance) -> (r: &'static str)
    ensures
        r@ == provenance_word(p),
{
    match p {
        OptimizationProvenance::Measured => "measured",
        OptimizationProvenance::Estimated => "predicted",
        OptimizationProvenance::Unavailable => "unavailable",
    }
}

fn recommendation_for(selected: &Option<OptimizationCandidate>) -> (text: String)
    ensures
        text@ == recommendation_text(candidate_opt_view(*selected)),
{
    match selected {
        Some(c) => {
            let mut s = String::from_str(c.model.name.as_str());
            s.append(" is the best ");
            s.append(provenance_word_str(c.performance_provenance));
            s.append(" fit for this machine");
            s
        },
        None => String::from_str("No optimization recommendation available"),
    }
}

fn explanation_for(selected: &Option<OptimizationCandidate>) -> (text: String)
    ensures
        text@ == selected_explanation_text(candidate_opt_view(*selected)),
{
    match selected {
        Some(c) => explain_candidate(c),
        None => String::from_str("No optimization recommendation available"),
    }
}

/// Chooses configurations for a machine from the analysed fits of the
/// catalogue's models.
///
/// Every fit that fits in memory or has a throughput estimate becomes a
/// candidate; the candidates are ranked by [`candidate_sort_key`],
/// greatest first, keeping the input order among equal keys, and cut to
/// `limit` where `limit` is positive. Among the ranked candidates, the
/// best measured one is the one with the greatest measured throughput
/// (then fit score), the best predicted one likewise by estimate, the
/// last of equals in each case. The selected candidate is the best
/// measured one, else the best predicted one, else the first ranked one.
pub fn optimize_for_system(specs: &SystemSpecs, analyses: &Vec<FitAnalysis>, limit: usize) -> (result:
    OptimizationResult)
    ensures
        result@ == optimization_spec(analysis_views(analyses@), specs.architecture, limit as int),
{
    let candidates = collect_candidates(analyses, specs);
    let ranked_candidates = rank_candidates(&candidates, limit);
    let best_measured = best_of(&ranked_candidates, OptimizationProvenance::Measured);
    let best_predicted = best_of(&ranked_candidates, OptimizationProvenance::Estimated);
    let best_available = match &best_measured {
        Some(c) => Some(c.duplicate()),
        None => match &best_predicted {
            Some(c) => Some(c.duplicate()),
            None => if ranked_candidates.len() > 0 {
                Some(ranked_candidates[0].duplicate())
            } else {
                None
            },
        },
    };
    let selected_candidate = duplicate_opt(&best_available);
    let recommendation = recommendation_for(&selected_candidate);
    let explanation = explanation_for(&selected_candidate);
    let is_arm_aware = specs.architecture == CpuArchitecture::Aarch64;
    OptimizationResult {
        hardware_architecture: specs.architecture,
        selected_candidate,
        best_available,
        best_measured,
        best_predicted,
        ranked_candidates,
        explanation,
        recommendation,
        is_arm_aware,
    }
}

} // verus!
