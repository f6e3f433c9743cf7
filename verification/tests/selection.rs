use llmfit_core::domain::{
    ArmArchitectureCompatibility, CpuArchitecture, FitAnalysis, FitLevel, HardwareMatchLevel,
    InferenceRuntime, LlmModel, MeasuredSource, MeasuredTps, ModelFit, SystemSpecs,
};
use llmfit_core::optimization::{
    candidate_sort_key, explain_candidate, optimize_for_system, ArmValidationStatus,
    OptimizationProvenance, RuntimeAvailability,
};

fn named_model(name: &str) -> LlmModel {
    LlmModel {
        name: name.to_string(),
        provider: "llama.cpp".to_string(),
        parameter_count: "4000000000".to_string(),
        parameters_raw: Some(4_000_000_000),
        quantization: "Q4_K_M".to_string(),
        context_length: 8192,
    }
}

/// A fit with throughput and score in hundredths, memory in tenths.
fn fit(name: &str, level: FitLevel, score: i64, estimated: i64, measured: Option<(i64, HardwareMatchLevel)>) -> ModelFit {
    ModelFit {
        model: named_model(name),
        fit_level: level,
        memory_required_gb: 80,
        memory_available_gb: 160,
        score,
        estimated_tps: estimated,
        best_quant: "Q4_K_M".to_string(),
        runtime: InferenceRuntime::LlamaCpp,
        installed: false,
        effective_context_length: 4096,
        measured_tps: measured.map(|(tok_s, match_level)| MeasuredTps {
            tok_s,
            sample_count: 3,
            hardware_label: "bench".to_string(),
            source: MeasuredSource::LocalBench,
            match_level,
        }),
    }
}

fn analysed(f: ModelFit) -> FitAnalysis {
    FitAnalysis { fit: f, arm_compatibility: None }
}

fn arm() -> SystemSpecs {
    SystemSpecs { architecture: CpuArchitecture::Aarch64 }
}

fn names(result: &llmfit_core::optimization::OptimizationResult) -> Vec<String> {
    result.ranked_candidates.iter().map(|c| c.model.name.clone()).collect()
}

#[test]
fn candidate_is_built_from_its_fit() {
    let analyses = vec![FitAnalysis {
        fit: fit("m", FitLevel::Perfect, 8000, 1500, Some((1234, HardwareMatchLevel::Partial))),
        arm_compatibility: Some(ArmArchitectureCompatibility::Compatible),
    }];
    let result = optimize_for_system(&arm(), &analyses, 0);
    let c = &result.ranked_candidates[0];
    assert_eq!(c.quantization, "Q4_K_M");
    assert_eq!(c.context_length, 4096);
    assert_eq!(c.thread_count, None);
    assert_eq!(c.batch_size, None);
    assert_eq!(c.measured_tps, Some(1234));
    assert_eq!(c.benchmark_match_level, HardwareMatchLevel::Partial);
    assert_eq!(c.performance_provenance, OptimizationProvenance::Measured);
    assert_eq!(c.runtime_availability, RuntimeAvailability::Benchmarked);
    assert_eq!(c.validation_status, ArmValidationStatus::PartialMatch);
    assert_eq!(c.compatibility_status, ArmArchitectureCompatibility::Compatible);
    assert_eq!(c.memory_required_gb, 80);
}

#[test]
fn missing_arm_recommendation_leaves_compatibility_unknown() {
    let analyses = vec![analysed(fit("m", FitLevel::Good, 5000, 1000, None))];
    let result = optimize_for_system(&arm(), &analyses, 0);
    let c = &result.ranked_candidates[0];
    assert_eq!(c.compatibility_status, ArmArchitectureCompatibility::Unknown);
    assert_eq!(c.performance_provenance, OptimizationProvenance::Estimated);
    assert_eq!(c.validation_status, ArmValidationStatus::EstimatedOnly);
}

#[test]
fn too_tight_without_estimate_is_not_a_candidate() {
    let analyses = vec![
        analysed(fit("gone", FitLevel::TooTight, 9000, 0, None)),
        analysed(fit("kept-tight", FitLevel::TooTight, 1000, 100, None)),
        analysed(fit("kept-zero", FitLevel::Marginal, 1000, 0, None)),
    ];
    let result = optimize_for_system(&arm(), &analyses, 0);
    assert_eq!(names(&result), vec!["kept-tight".to_string(), "kept-zero".to_string()]);
}

#[test]
fn ranking_is_by_key_and_stable_among_equals() {
    let analyses = vec![
        analysed(fit("a", FitLevel::Good, 5000, 1000, None)),
        analysed(fit("b", FitLevel::Good, 6000, 1000, None)),
        analysed(fit("c", FitLevel::Good, 5000, 1000, None)),
        analysed(fit("d", FitLevel::Good, 5000, 2000, None)),
    ];
    let result = optimize_for_system(&arm(), &analyses, 0);
    assert_eq!(names(&result), vec!["b", "d", "a", "c"]);
}

#[test]
fn limit_cuts_the_ranking_and_zero_keeps_all() {
    let analyses = vec![
        analysed(fit("a", FitLevel::Good, 5000, 1000, None)),
        analysed(fit("b", FitLevel::Good, 6000, 1000, None)),
        analysed(fit("c", FitLevel::Good, 7000, 1000, None)),
    ];
    assert_eq!(names(&optimize_for_system(&arm(), &analyses, 2)), vec!["c", "b"]);
    assert_eq!(names(&optimize_for_system(&arm(), &analyses, 0)).len(), 3);
    assert_eq!(names(&optimize_for_system(&arm(), &analyses, 10)).len(), 3);
}

#[test]
fn measured_selected_over_faster_predicted() {
    let analyses = vec![
        analysed(fit("fast", FitLevel::Perfect, 9000, 9000, None)),
        analysed(fit("slow-measured", FitLevel::Marginal, 4000, 500, Some((400, HardwareMatchLevel::NoMatch)))),
    ];
    let result = optimize_for_system(&arm(), &analyses, 0);
    let selected = result.selected_candidate.as_ref().unwrap();
    assert_eq!(selected.model.name, "slow-measured");
    assert_eq!(result.best_predicted.as_ref().unwrap().model.name, "fast");
    assert_eq!(result.best_available.as_ref().unwrap().model.name, "slow-measured");
    assert_eq!(result.recommendation, "slow-measured is the best measured fit for this machine");
    assert!(result.is_arm_aware);
}

#[test]
fn best_measured_takes_last_of_equals() {
    let analyses = vec![
        analysed(fit("first", FitLevel::Good, 5000, 100, Some((700, HardwareMatchLevel::Exact)))),
        analysed(fit("second", FitLevel::Good, 5000, 100, Some((700, HardwareMatchLevel::Exact)))),
    ];
    let result = optimize_for_system(&arm(), &analyses, 0);
    assert_eq!(names(&result), vec!["first", "second"]);
    assert_eq!(result.best_measured.as_ref().unwrap().model.name, "second");
}

#[test]
fn best_measured_prefers_higher_measured_throughput() {
    let analyses = vec![
        analysed(fit("slow", FitLevel::Perfect, 9000, 100, Some((500, HardwareMatchLevel::Exact)))),
        analysed(fit("fast", FitLevel::Marginal, 1000, 100, Some((900, HardwareMatchLevel::Exact)))),
    ];
    let result = optimize_for_system(&arm(), &analyses, 0);
    assert_eq!(names(&result), vec!["slow", "fast"]);
    assert_eq!(result.best_measured.as_ref().unwrap().model.name, "fast");
    assert_eq!(result.selected_candidate.as_ref().unwrap().model.name, "fast");
}

#[test]
fn unavailable_only_selects_first_ranked() {
    let analyses = vec![
        analysed(fit("low", FitLevel::Marginal, 1000, 0, None)),
        analysed(fit("high", FitLevel::Perfect, 2000, 0, None)),
    ];
    let result = optimize_for_system(&SystemSpecs { architecture: CpuArchitecture::X86_64 }, &analyses, 0);
    assert!(result.best_measured.is_none());
    assert!(result.best_predicted.is_none());
    assert_eq!(result.selected_candidate.as_ref().unwrap().model.name, "high");
    assert_eq!(result.recommendation, "high is the best unavailable fit for this machine");
    assert_eq!(
        result.explanation,
        "Candidate high has no measured or estimated throughput data. Fit: Perfect with 8.0 GB / 16.0 GB memory."
    );
    assert!(!result.is_arm_aware);
    assert_eq!(result.hardware_architecture, CpuArchitecture::X86_64);
}

#[test]
fn empty_catalogue_gives_no_recommendation() {
    let result = optimize_for_system(&arm(), &Vec::new(), 5);
    assert!(result.ranked_candidates.is_empty());
    assert!(result.selected_candidate.is_none());
    assert!(result.best_available.is_none());
    assert_eq!(result.recommendation, "No optimization recommendation available");
    assert_eq!(result.explanation, "No optimization recommendation available");
}

#[test]
fn measured_explanation_text() {
    let analyses = vec![FitAnalysis {
        fit: fit("arm-32b", FitLevel::Good, 7200, 1200, Some((1200, HardwareMatchLevel::Exact))),
        arm_compatibility: Some(ArmArchitectureCompatibility::Compatible),
    }];
    let result = optimize_for_system(&arm(), &analyses, 0);
    assert_eq!(
        result.explanation,
        "Measured candidate: arm-32b. Measured throughput: 12.00 tok/s (Exact hardware match). Runtime: llama.cpp. Runtime state: Benchmarked; validation: ExactHardwareMatch. Fit: Good with 8.0 GB / 16.0 GB memory. Estimated throughput: 12.00 tok/s."
    );
    assert_eq!(explain_candidate(&result.ranked_candidates[0]), result.explanation);
}

#[test]
fn measured_explanation_without_measured_value() {
    let analyses = vec![analysed(fit("x", FitLevel::Good, 7200, 1200, Some((0, HardwareMatchLevel::HighConfidence))))];
    let result = optimize_for_system(&SystemSpecs { architecture: CpuArchitecture::Unknown }, &analyses, 0);
    let mut c = result.ranked_candidates[0].clone();
    c.measured_tps = None;
    assert_eq!(
        explain_candidate(&c),
        "Measured candidate: x. Measured throughput: unavailable (High-confidence hardware match). Runtime: llama.cpp. Runtime state: Benchmarked; validation: Unknown. Fit: Good with 8.0 GB / 16.0 GB memory. Estimated throughput: 12.00 tok/s."
    );
}

#[test]
fn predicted_explanation_text_and_decimals() {
    let analyses = vec![analysed(ModelFit {
        memory_required_gb: 105,
        memory_available_gb: 3,
        installed: true,
        ..fit("p", FitLevel::Marginal, 7200, 1507, None)
    })];
    let result = optimize_for_system(&arm(), &analyses, 0);
    assert_eq!(
        result.explanation,
        "Predicted candidate: p. Estimated throughput: 15.07 tok/s with llama.cpp runtime. Runtime state: Installed; validation: EstimatedOnly. Fit: Marginal (requires 10.5 GB, available 0.3 GB)."
    );
    assert_eq!(result.recommendation, "p is the best predicted fit for this machine");
}

#[test]
fn negative_quantities_keep_their_sign() {
    let analyses = vec![analysed(ModelFit {
        memory_required_gb: -5,
        ..fit("neg", FitLevel::Good, 100, -1, Some((-250, HardwareMatchLevel::NoMatch)))
    })];
    let result = optimize_for_system(&arm(), &analyses, 0);
    assert_eq!(
        result.explanation,
        "Measured candidate: neg. Measured throughput: -2.50 tok/s (No hardware match). Runtime: llama.cpp. Runtime state: Benchmarked; validation: EstimatedOnly. Fit: Good with -0.5 GB / 16.0 GB memory. Estimated throughput: -0.01 tok/s."
    );
}

#[test]
fn sort_key_formula_exact_value() {
    let analyses = vec![analysed(fit("k", FitLevel::Perfect, 7250, 1000, Some((1500, HardwareMatchLevel::HighConfidence))))];
    let result = optimize_for_system(&arm(), &analyses, 0);
    // evidence 5*100 + validation 4*20 + bonus 0.75*10 + fit 4*10 + score 72.5 = 700.0 points
    assert_eq!(candidate_sort_key(&result.ranked_candidates[0]), (70000, 1500, 7250));
}

#[test]
fn measured_outranks_unmeasured_scenario() {
    let analyses = vec![
        analysed(fit("est", FitLevel::Perfect, 10000, 90000, None)),
        analysed(fit("meas", FitLevel::TooTight, 0, 1, Some((1, HardwareMatchLevel::NoMatch)))),
    ];
    let result = optimize_for_system(&SystemSpecs { architecture: CpuArchitecture::X86_64 }, &analyses, 0);
    assert_eq!(names(&result), vec!["meas", "est"]);
}
