use sentinel_rs::inference::{
    CpuLoad, DecisionOutcome, InferenceEngine, MemoryLoad, ProcessFeatureVector, MODEL_PATH,
};

fn features(memory_load: MemoryLoad, cpu_load: CpuLoad, leak: bool) -> ProcessFeatureVector {
    ProcessFeatureVector {
        memory_load,
        cpu_load,
        is_whitelisted: false,
        is_system_pid: false,
        is_suspended: false,
        has_leak_potential: leak,
    }
}

fn decide(engine: &InferenceEngine, f: ProcessFeatureVector) -> (DecisionOutcome, String, u32) {
    let r = engine.run_inference(&f);
    (r.outcome, r.suggested_action, r.confidence_pct)
}

#[test]
fn model_path_is_the_gemma_model() {
    assert_eq!(MODEL_PATH, "path/to/gemma_3_4b_resource_model.onnx");
}

#[test]
fn load_records_whether_the_model_was_found() {
    assert!(InferenceEngine::load(true).is_model_loaded());
    assert!(!InferenceEngine::load(false).is_model_loaded());
}

#[test]
fn missing_model_falls_back_to_heuristics() {
    let engine = InferenceEngine::load(false);
    let r = decide(&engine, features(MemoryLoad::Critical, CpuLoad::Saturated, true));
    assert_eq!(r, (DecisionOutcome::HeuristicFallback, "UNKNOWN".to_string(), 0));
}

#[test]
fn leak_on_heavy_process_is_frozen_with_top_confidence() {
    let engine = InferenceEngine::load(true);
    assert_eq!(
        decide(&engine, features(MemoryLoad::High, CpuLoad::Idle, true)),
        (DecisionOutcome::PredictFreeze, "FREEZE".to_string(), 95)
    );
    assert_eq!(
        decide(&engine, features(MemoryLoad::Critical, CpuLoad::Busy, true)),
        (DecisionOutcome::PredictFreeze, "FREEZE".to_string(), 95)
    );
}

#[test]
fn leak_on_light_process_is_not_the_leak_rule() {
    let engine = InferenceEngine::load(true);
    assert_eq!(
        decide(&engine, features(MemoryLoad::Elevated, CpuLoad::Moderate, true)),
        (DecisionOutcome::PredictFreeze, "FREEZE".to_string(), 78)
    );
}

#[test]
fn critical_state_is_frozen() {
    let engine = InferenceEngine::load(true);
    assert_eq!(
        decide(&engine, features(MemoryLoad::Critical, CpuLoad::Idle, false)),
        (DecisionOutcome::PredictFreeze, "FREEZE".to_string(), 88)
    );
    assert_eq!(
        decide(&engine, features(MemoryLoad::Idle, CpuLoad::Saturated, false)),
        (DecisionOutcome::PredictFreeze, "FREEZE".to_string(), 88)
    );
}

#[test]
fn moderate_strain_is_killed() {
    let engine = InferenceEngine::load(true);
    assert_eq!(
        decide(&engine, features(MemoryLoad::High, CpuLoad::Busy, false)),
        (DecisionOutcome::PredictKill, "KILL".to_string(), 80)
    );
}

#[test]
fn idle_process_is_ignored_with_high_confidence() {
    let engine = InferenceEngine::load(true);
    assert_eq!(
        decide(&engine, features(MemoryLoad::Idle, CpuLoad::Idle, false)),
        (DecisionOutcome::PredictIgnore, "IGNORE".to_string(), 99)
    );
}

#[test]
fn high_medium_load_is_frozen_with_lower_confidence() {
    let engine = InferenceEngine::load(true);
    assert_eq!(
        decide(&engine, features(MemoryLoad::High, CpuLoad::Moderate, false)),
        (DecisionOutcome::PredictFreeze, "FREEZE".to_string(), 78)
    );
    assert_eq!(
        decide(&engine, features(MemoryLoad::Elevated, CpuLoad::Busy, false)),
        (DecisionOutcome::PredictFreeze, "FREEZE".to_string(), 78)
    );
}

#[test]
fn light_load_is_ignored() {
    let engine = InferenceEngine::load(true);
    assert_eq!(
        decide(&engine, features(MemoryLoad::Light, CpuLoad::Moderate, false)),
        (DecisionOutcome::PredictIgnore, "IGNORE".to_string(), 100)
    );
    assert_eq!(
        decide(&engine, features(MemoryLoad::Idle, CpuLoad::Busy, false)),
        (DecisionOutcome::PredictIgnore, "IGNORE".to_string(), 100)
    );
}
