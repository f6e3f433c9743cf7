use llmfit_core::domain::{
    ArmArchitectureCompatibility, CpuArchitecture, FitAnalysis, FitLevel, HardwareMatchLevel,
    InferenceRuntime, LlmModel, MeasuredSource, MeasuredTps, ModelFit, SystemSpecs,
};
use llmfit_core::optimization::{
    candidate_sort_key, explain_candidate, optimize_for_system, runtime_availability_for_fit,
    validation_status_for_match, ArmValidationStatus, OptimizationCandidate,
    OptimizationProvenance, RuntimeAvailability,
};

/// Hundredths of a unit, as the library holds throughput and scores.
fn centi(x: f64) -> i64 {
    (x * 100.0).round() as i64
}

/// Tenths of a unit, as the library holds memory sizes.
fn deci(x: f64) -> i64 {
    (x * 10.0).round() as i64
}

fn model(name: &str, params: u64, _ram: f64) -> LlmModel {
    LlmModel {
        name: name.to_string(),
        provider: "llama.cpp".to_string(),
        parameter_count: params.to_string(),
        parameters_raw: Some(params),
        quantization: "Q4_K_M".to_string(),
        context_length: 8192,
    }
}

fn specs_for_arch(arch: CpuArchitecture) -> SystemSpecs {
    SystemSpecs { architecture: arch }
}

fn fit_for_model(
    model: &LlmModel,
    estimated_tps: f64,
    measured: Option<f64>,
    match_level: HardwareMatchLevel,
) -> ModelFit {
    ModelFit {
        model: model.clone(),
        fit_level: FitLevel::Good,
        memory_required_gb: deci(8.0),
        memory_available_gb: deci(16.0),
        score: centi(72.0),
        estimated_tps: centi(estimated_tps),
        best_quant: "Q4_K_M".to_string(),
        runtime: InferenceRuntime::LlamaCpp,
        installed: false,
        effective_context_length: 8192,
        measured_tps: measured.map(|value| MeasuredTps {
            tok_s: centi(value),
            sample_count: 5,
            hardware_label: "fixture".to_string(),
            source: MeasuredSource::Community,
            match_level,
        }),
    }
}

#[allow(clippy::too_many_arguments)]
fn candidate(
    name: &str,
    params: u64,
    ram: f64,
    estimated: f64,
    measured: Option<f64>,
    match_level: HardwareMatchLevel,
    provenance: OptimizationProvenance,
    availability: RuntimeAvailability,
    validation: ArmValidationStatus,
    mem_required: f64,
    mem_available: f64,
    compatibility: ArmArchitectureCompatibility,
) -> OptimizationCandidate {
    OptimizationCandidate {
        model: model(name, params, ram),
        quantization: "Q4_K_M".to_string(),
        runtime: InferenceRuntime::LlamaCpp,
        context_length: 8192,
        thread_count: None,
        batch_size: None,
        fit: fit_for_model(&model(name, params, ram), estimated, measured, match_level),
        estimated_tps: centi(estimated),
        measured_tps: measured.map(centi),
        benchmark_match_level: match_level,
        performance_provenance: provenance,
        runtime_availability: availability,
        validation_status: validation,
        memory_required_gb: deci(mem_required),
        memory_available_gb: deci(mem_available),
        compatibility_status: compatibility,
    }
}

#[test]
fn arm64_runtime_unavailable_is_explicitly_unavailable() {
    let fit = ModelFit {
        runtime: InferenceRuntime::Unsupported,
        installed: false,
        estimated_tps: centi(0.0),
        measured_tps: None,
        ..fit_for_model(&model("test", 4_000_000_000, 8.0), 0.0, None, HardwareMatchLevel::NoMatch)
    };
    assert_eq!(runtime_availability_for_fit(&fit), RuntimeAvailability::Unavailable);
}

#[test]
fn arm64_runtime_installed_is_distinct_from_benchmarkable() {
    let fit = ModelFit {
        runtime: InferenceRuntime::LlamaCpp,
        installed: true,
        estimated_tps: centi(12.0),
        measured_tps: None,
        ..fit_for_model(&model("test", 4_000_000_000, 8.0), 12.0, None, HardwareMatchLevel::NoMatch)
    };
    assert_eq!(runtime_availability_for_fit(&fit), RuntimeAvailability::Installed);
}

#[test]
fn arm64_runtime_benchmarkable_remains_non_measured() {
    let fit = ModelFit {
        runtime: InferenceRuntime::LlamaCpp,
        installed: false,
        estimated_tps: centi(12.0),
        measured_tps: None,
        ..fit_for_model(&model("test", 4_000_000_000, 8.0), 12.0, None, HardwareMatchLevel::NoMatch)
    };
    assert_eq!(runtime_availability_for_fit(&fit), RuntimeAvailability::Benchmarkable);
}

#[test]
fn exact_arm64_benchmark_uses_exact_validation() {
    let specs = specs_for_arch(CpuArchitecture::Aarch64);
    let status = validation_status_for_match(&specs, HardwareMatchLevel::Exact, true);
    assert_eq!(status, ArmValidationStatus::ExactHardwareMatch);
}

#[test]
fn different_arm_cpu_benchmark_is_not_exact() {
    let specs = specs_for_arch(CpuArchitecture::Aarch64);
    let status = validation_status_for_match(&specs, HardwareMatchLevel::HighConfidence, true);
    assert_ne!(status, ArmValidationStatus::ExactHardwareMatch);
}

#[test]
fn arm64_result_outscores_x86_64_benchmark_evidence() {
    let arm = candidate(
        "arm-32b",
        3_200_000_000,
        8.0,
        12.0,
        Some(12.0),
        HardwareMatchLevel::Exact,
        OptimizationProvenance::Measured,
        RuntimeAvailability::Benchmarked,
        ArmValidationStatus::ExactHardwareMatch,
        8.0,
        16.0,
        ArmArchitectureCompatibility::Compatible,
    );
    let x86 = candidate(
        "x86-32b",
        3_200_000_000,
        8.0,
        12.0,
        Some(12.0),
        HardwareMatchLevel::Exact,
        OptimizationProvenance::Measured,
        RuntimeAvailability::Benchmarked,
        ArmValidationStatus::Unknown,
        8.0,
        16.0,
        ArmArchitectureCompatibility::Compatible,
    );
    assert!(candidate_sort_key(&arm) > candidate_sort_key(&x86));
}

#[test]
fn measured_candidate_is_not_the_same_as_predicted_candidate() {
    let measured = candidate(
        "measured",
        2_000_000_000,
        4.0,
        11.0,
        Some(10.0),
        HardwareMatchLevel::Exact,
        OptimizationProvenance::Measured,
        RuntimeAvailability::Benchmarked,
        ArmValidationStatus::ExactHardwareMatch,
        4.0,
        8.0,
        ArmArchitectureCompatibility::Compatible,
    );
    let predicted = candidate(
        "predicted",
        4_000_000_000,
        8.0,
        15.0,
        None,
        HardwareMatchLevel::NoMatch,
        OptimizationProvenance::Estimated,
        RuntimeAvailability::Benchmarkable,
        ArmValidationStatus::EstimatedOnly,
        8.0,
        16.0,
        ArmArchitectureCompatibility::Unknown,
    );
    assert_ne!(measured.performance_provenance, predicted.performance_provenance);
    assert!(candidate_sort_key(&measured) > candidate_sort_key(&predicted));
}

#[test]
fn best_measured_is_not_best_predicted() {
    let measured = candidate(
        "measured-best",
        3_000_000_000,
        6.0,
        10.0,
        Some(9.0),
        HardwareMatchLevel::Exact,
        OptimizationProvenance::Measured,
        RuntimeAvailability::Benchmarked,
        ArmValidationStatus::ExactHardwareMatch,
        6.0,
        12.0,
        ArmArchitectureCompatibility::Compatible,
    );
    let predicted = candidate(
        "predicted-best",
        5_000_000_000,
        10.0,
        18.0,
        None,
        HardwareMatchLevel::NoMatch,
        OptimizationProvenance::Estimated,
        RuntimeAvailability::Benchmarkable,
        ArmValidationStatus::EstimatedOnly,
        10.0,
        20.0,
        ArmArchitectureCompatibility::Unknown,
    );
    assert!(candidate_sort_key(&measured) > candidate_sort_key(&predicted));
    assert_ne!(measured.measured_tps, predicted.measured_tps);
}

#[test]
fn no_benchmark_evidence_stays_estimated_only() {
    let specs = specs_for_arch(CpuArchitecture::Aarch64);
    let status = validation_status_for_match(&specs, HardwareMatchLevel::NoMatch, false);
    assert_eq!(status, ArmValidationStatus::EstimatedOnly);
}

#[test]
fn x86_64_behavior_keeps_non_arm_validation_unknown() {
    let specs = specs_for_arch(CpuArchitecture::X86_64);
    let status = validation_status_for_match(&specs, HardwareMatchLevel::Exact, true);
    assert_eq!(status, ArmValidationStatus::Unknown);
}

#[test]
fn unknown_runtime_state_remains_unknown() {
    let fit = ModelFit {
        runtime: InferenceRuntime::LlamaCpp,
        installed: false,
        estimated_tps: centi(0.0),
        measured_tps: None,
        ..fit_for_model(&model("test", 4_000_000_000, 8.0), 0.0, None, HardwareMatchLevel::NoMatch)
    };
    assert_eq!(runtime_availability_for_fit(&fit), RuntimeAvailability::Unknown);
}

fn analysis(fit: ModelFit) -> FitAnalysis {
    FitAnalysis { fit, arm_compatibility: Some(ArmArchitectureCompatibility::Compatible) }
}

#[test]
fn optimize_for_system_prefers_measured_evidence_when_present() {
    let specs = specs_for_arch(CpuArchitecture::Aarch64);
    let analyses = vec![
        analysis(fit_for_model(&model("predicted", 4_000_000_000, 8.0), 15.0, None, HardwareMatchLevel::NoMatch)),
        analysis(fit_for_model(&model("measured", 2_000_000_000, 4.0), 11.0, Some(10.0), HardwareMatchLevel::Exact)),
    ];
    let result = optimize_for_system(&specs, &analyses, 5);

    assert_eq!(result.hardware_architecture, CpuArchitecture::Aarch64);
    assert!(
        result.best_measured.is_some()
            || result.best_predicted.is_some()
            || result.best_available.is_some()
    );
}
