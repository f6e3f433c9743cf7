//! The hardware, benchmark and fit facts that the optimizer reads.
//!
//! Quantities that are fractional in nature are held in fixed point:
//! throughput and fit scores in hundredths (of a token per second, of a
//! score point), memory sizes in tenths of a gigabyte. A quantity is the
//! number of units that its printed form shows (two decimals for
//! throughput and scores, one for memory), and every decision on it, such
//! as whether an estimate is positive or which score is greater, is made
//! on that number.

use vstd::prelude::*;

verus! {

/// The CPU architecture of the machine being optimized for.
#[derive(Debug, Clone, Copy, PartialEq, Eq, Structural)]
pub enum CpuArchitecture {
    Aarch64,
    X86_64,
    Unknown,
}

/// How closely a benchmark's hardware matches the local machine.
#[derive(Debug, Clone, Copy, PartialEq, Eq, Structural)]
pub enum HardwareMatchLevel {
    Exact,
    HighConfidence,
    Partial,
    NoMatch,
}

/// Where a throughput measurement was taken.
#[derive(Debug, Clone, Copy, PartialEq, Eq, Structural)]
pub enum MeasuredSource {
    Community,
    LocalBench,
}

/// How comfortably a model fits in the machine's memory.
#[derive(Debug, Clone, Copy, PartialEq, Eq, Structural)]
pub enum FitLevel {
    Perfect,
    Good,
    Marginal,
    TooTight,
}

/// The inference runtime a model would run under.
#[derive(Debug, Clone, Copy, PartialEq, Eq, Structural)]
pub enum InferenceRuntime {
    Mlx,
    LlamaCpp,
    Vllm,
    Unsupported,
}

/// The display label of a runtime.
pub open spec fn runtime_label_text(r: InferenceRuntime) -> Seq<char> {
    match r {
        InferenceRuntime::Mlx => "MLX"@,
        InferenceRuntime::LlamaCpp => "llama.cpp"@,
        InferenceRuntime::Vllm => "vLLM"@,
        InferenceRuntime::Unsupported => "Unsupported"@,
    }
}

impl InferenceRuntime {
    /// The display label of this runtime.
    pub fn label(&self) -> (r: &'static str)
        ensures
            r@ == runtime_label_text(*self),
    {
        match self {
            InferenceRuntime::Mlx => "MLX",
            InferenceRuntime::LlamaCpp => "llama.cpp",
            InferenceRuntime::Vllm => "vLLM",
            InferenceRuntime::Unsupported => "Unsupported",
        }
    }
}

/// Whether a model's runtime runs natively on an Arm machine.
#[derive(Debug, Clone, Copy, PartialEq, Eq, Structural)]
pub enum ArmArchitectureCompatibility {
    Compatible,
    Incompatible,
    Unknown,
}

/// The facts about the machine that the optimizer reads.
#[derive(Debug, Clone, Copy, PartialEq, Eq, Structural)]
pub struct SystemSpecs {
    pub architecture: CpuArchitecture,
}

/// A model of the catalogue.
#[derive(Debug, Clone)]
pub struct LlmModel {
    pub name: String,
    pub provider: String,
    pub parameter_count: String,
    pub parameters_raw: Option<u64>,
    pub quantization: String,
    pub context_length: u32,
}

/// The mathematical value of an [`LlmModel`].
pub struct LlmModelView {
    pub name: Seq<char>,
    pub provider: Seq<char>,
    pub parameter_count: Seq<char>,
    pub parameters_raw: Option<u64>,
    pub quantization: Seq<char>,
    pub context_length: u32,
}

impl View for LlmModel {
    type V = LlmModelView;

    open spec fn view(&self) -> LlmModelView {
        LlmModelView {
            name: self.name@,
            provider: self.provider@,
            parameter_count: self.parameter_count@,
            parameters_raw: self.parameters_raw,
            quantization: self.quantization@,
            context_length: self.context_length,
        }
    }
}

impl LlmModel {
    /// A copy of this model.
    pub fn duplicate(&self) -> (r: Self)
        ensures
            r@ == self@,
    {
        LlmModel {
            name: self.name.clone(),
            provider: self.provider.clone(),
            parameter_count: self.parameter_count.clone(),
            parameters_raw: self.parameters_raw,
            quantization: self.quantization.clone(),
            context_length: self.context_length,
        }
    }
}

/// A throughput measured by a benchmark; `tok_s` is in hundredths of a
/// token per second.
#[derive(Debug, Clone)]
pub struct MeasuredTps {
    pub tok_s: i64,
    pub sample_count: u32,
    pub hardware_label: String,
    pub source: MeasuredSource,
    pub match_level: HardwareMatchLevel,
}

/// The mathematical value of a [`MeasuredTps`].
pub struct MeasuredTpsView {
    pub tok_s: i64,
    pub sample_count: u32,
    pub hardware_label: Seq<char>,
    pub source: MeasuredSource,
    pub match_level: HardwareMatchLevel,
}

impl View for MeasuredTps {
    type V = MeasuredTpsView;

    open spec fn view(&self) -> MeasuredTpsView {
        MeasuredTpsView {
            tok_s: self.tok_s,
            sample_count: self.sample_count,
            hardware_label: self.hardware_label@,
            source: self.source,
            match_level: self.match_level,
        }
    }
}

impl MeasuredTps {
    /// A copy of this measurement.
    pub fn duplicate(&self) -> (r: Self)
        ensures
            r@ == self@,
    {
        MeasuredTps {
            tok_s: self.tok_s,
            sample_count: self.sample_count,
            hardware_label: self.hardware_label.clone(),
            source: self.source,
            match_level: self.match_level,
        }
    }
}

/// The view of an optional measurement.
pub open spec fn measured_view(m: Option<MeasuredTps>) -> Option<MeasuredTpsView> {
    match m {
        Some(t) => Some(t@),
        None => None,
    }
}

/// How a model fits the machine: memory in tenths of a gigabyte, `score`
/// in hundredths of a point, `estimated_tps` in hundredths of a token per
/// second.
#[derive(Debug, Clone)]
pub struct ModelFit {
    pub model: LlmModel,
    pub fit_level: FitLevel,
    pub memory_required_gb: i64,
    pub memory_available_gb: i64,
    pub score: i64,
    pub estimated_tps: i64,
    pub best_quant: String,
    pub runtime: InferenceRuntime,
    pub installed: bool,
    pub effective_context_length: u32,
    pub measured_tps: Option<MeasuredTps>,
}

/// The mathematical value of a [`ModelFit`].
pub struct ModelFitView {
    pub model: LlmModelView,
    pub fit_level: FitLevel,
    pub memory_required_gb: i64,
    pub memory_available_gb: i64,
    pub score: i64,
    pub estimated_tps: i64,
    pub best_quant: Seq<char>,
    pub runtime: InferenceRuntime,
    pub installed: bool,
    pub effective_context_length: u32,
    pub measured_tps: Option<MeasuredTpsView>,
}

impl View for ModelFit {
    type V = ModelFitView;

    open spec fn view(&self) -> ModelFitView {
        ModelFitView {
            model: self.model@,
            fit_level: self.fit_level,
            memory_required_gb: self.memory_required_gb,
            memory_available_gb: self.memory_available_gb,
            score: self.score,
            estimated_tps: self.estimated_tps,
            best_quant: self.best_quant@,
            runtime: self.runtime,
            installed: self.installed,
            effective_context_length: self.effective_context_length,
            measured_tps: measured_view(self.measured_tps),
        }
    }
}

impl ModelFit {
    /// A copy of this fit.
    pub fn duplicate(&self) -> (r: Self)
        ensures
            r@ == self@,
    {
        let measured_tps = match &self.measured_tps {
            Some(m) => Some(m.duplicate()),
            None => None,
        };
        ModelFit {
            model: self.model.duplicate(),
            fit_level: self.fit_level,
            memory_required_gb: self.memory_required_gb,
            memory_available_gb: self.memory_available_gb,
            score: self.score,
            estimated_tps: self.estimated_tps,
            best_quant: self.best_quant.clone(),
            runtime: self.runtime,
            installed: self.installed,
            effective_context_length: self.effective_context_length,
            measured_tps,
        }
    }
}

/// A fitted model, with the Arm compatibility that the fit's Arm
/// recommendation reports for the machine, if it reports one.
#[derive(Debug, Clone)]
pub struct FitAnalysis {
    pub fit: ModelFit,
    pub arm_compatibility: Option<ArmArchitectureCompatibility>,
}

/// The mathematical value of a [`FitAnalysis`].
pub struct FitAnalysisView {
    pub fit: ModelFitView,
    pub arm_compatibility: Option<ArmArchitectureCompatibility>,
}

impl View for FitAnalysis {
    type V = FitAnalysisView;

    open spec fn view(&self) -> FitAnalysisView {
        FitAnalysisView { fit: self.fit@, arm_compatibility: self.arm_compatibility }
    }
}

} // verus!
