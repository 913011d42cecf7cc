//! The decision engine: turns a process's feature vector into a recommended
//! action (freeze, kill, ignore) with a confidence, or reports that no model
//! is available and the caller must fall back to its own heuristics.
use vstd::prelude::*;

verus! {

/// Path at which the decision engine looks for its model weights.
pub const MODEL_PATH: &'static str = "path/to/gemma_3_4b_resource_model.onnx";

/// How much of the machine's memory a process holds, relative to the
/// thresholds that the decision rules distinguish (as a fraction `m` of the
/// system's capacity).
#[derive(Debug, Clone, Copy, PartialEq, Eq, Structural)]
pub enum MemoryLoad {
    /// `m < 0.2`
    Idle,
    /// `0.2 <= m <= 0.5` (also any reading that compares with no threshold)
    Light,
    /// `0.5 < m <= 0.7`
    Elevated,
    /// `0.7 < m <= 0.95`
    High,
    /// `m > 0.95`
    Critical,
}

/// A process's CPU utilisation `c` (1.0 = one full core), relative to the
/// thresholds that the decision rules distinguish.
#[derive(Debug, Clone, Copy, PartialEq, Eq, Structural)]
pub enum CpuLoad {
    /// `c < 0.1`
    Idle,
    /// `0.1 <= c <= 0.5` (also any reading that compares with no threshold)
    Moderate,
    /// `0.5 < c <= 1.0`
    Busy,
    /// `c > 1.0`
    Saturated,
}

/// The standardized feature vector that the decision engine reads.
#[derive(Debug, Clone, Copy)]
pub struct ProcessFeatureVector {
    /// Physical memory use relative to the system's capacity.
    pub memory_load: MemoryLoad,
    /// CPU utilisation.
    pub cpu_load: CpuLoad,
    /// Is the process on the safe list?
    pub is_whitelisted: bool,
    /// Is it a core OS PID (below 100)?
    pub is_system_pid: bool,
    /// Is the process currently stopped (SIGSTOP'd)?
    pub is_suspended: bool,
    /// Heuristically suspected of leaking memory.
    pub has_leak_potential: bool,
}

/// The final decision made by the system (model or heuristic fallback).
#[derive(Debug, Clone, Copy, PartialEq, Eq, Structural)]
pub enum DecisionOutcome {
    PredictFreeze,
    PredictKill,
    PredictIgnore,
    HeuristicFallback,
}

/// The result of a single decision cycle.
#[derive(Debug)]
pub struct DecisionResult {
    pub outcome: DecisionOutcome,
    /// "FREEZE", "KILL", "IGNORE", or "UNKNOWN" when no model is loaded.
    pub suggested_action: String,
    /// Confidence in the action, in hundredths (0 to 100).
    pub confidence_pct: u32,
}

/// The label that goes with each outcome.
pub open spec fn action_label(outcome: DecisionOutcome) -> Seq<char> {
    match outcome {
        DecisionOutcome::PredictFreeze => "FREEZE"@,
        DecisionOutcome::PredictKill => "KILL"@,
        DecisionOutcome::PredictIgnore => "IGNORE"@,
        DecisionOutcome::HeuristicFallback => "UNKNOWN"@,
    }
}

/// Memory above 0.7 of capacity.
pub open spec fn memory_above_70(load: MemoryLoad) -> bool {
    load == MemoryLoad::High || load == MemoryLoad::Critical
}

/// Memory above 0.5 of capacity.
pub open spec fn memory_above_50(load: MemoryLoad) -> bool {
    load == MemoryLoad::Elevated || memory_above_70(load)
}

/// CPU utilisation above 0.5.
pub open spec fn cpu_above_50(load: CpuLoad) -> bool {
    load == CpuLoad::Busy || load == CpuLoad::Saturated
}

/// The decision rules, in priority order, as (outcome, confidence in hundredths).
pub open spec fn decide(model_loaded: bool, f: ProcessFeatureVector) -> (DecisionOutcome, u32) {
    if !model_loaded {
        (DecisionOutcome::HeuristicFallback, 0)
    } else if f.has_leak_potential && memory_above_70(f.memory_load) {
        // leak pattern on a heavy process
        (DecisionOutcome::PredictFreeze, 95)
    } else if f.memory_load == MemoryLoad::Critical || f.cpu_load == CpuLoad::Saturated {
        // critical state
        (DecisionOutcome::PredictFreeze, 88)
    } else if memory_above_70(f.memory_load) && cpu_above_50(f.cpu_load) {
        // moderate strain
        (DecisionOutcome::PredictKill, 80)
    } else if f.memory_load == MemoryLoad::Idle && f.cpu_load == CpuLoad::Idle {
        // idle process
        (DecisionOutcome::PredictIgnore, 99)
    } else if memory_above_50(f.memory_load) {
        // high-medium load
        (DecisionOutcome::PredictFreeze, 78)
    } else {
        (DecisionOutcome::PredictIgnore, 100)
    }
}

fn label_for(outcome: DecisionOutcome) -> (label: String)
    ensures
        label@ == action_label(outcome),
{
    match outcome {
        DecisionOutcome::PredictFreeze => String::from_str("FREEZE"),
        DecisionOutcome::PredictKill => String::from_str("KILL"),
        DecisionOutcome::PredictIgnore => String::from_str("IGNORE"),
        DecisionOutcome::HeuristicFallback => String::from_str("UNKNOWN"),
    }
}

/// Holds the inference components; records whether model weights were found.
pub struct InferenceEngine {
    model_weights_loaded: bool,
}

impl InferenceEngine {
    /// Whether the engine runs with model weights (otherwise it falls back).
    pub closed spec fn model_loaded(&self) -> bool {
        self.model_weights_loaded
    }

    /// Initializes the engine; `model_present` says whether a model file was
    /// found at [`MODEL_PATH`]. Without one the engine runs in heuristic
    /// fallback mode.
    pub fn load(model_present: bool) -> (engine: Self)
        ensures
            engine.model_loaded() == model_present,
    {
        InferenceEngine { model_weights_loaded: model_present }
    }

    /// Whether the engine runs with model weights.
    pub fn is_model_loaded(&self) -> (loaded: bool)
        ensures
            loaded == self.model_loaded(),
    {
        self.model_weights_loaded
    }

    /// Predicts the best action for a process from its features.
    pub fn run_inference(&self, features: &ProcessFeatureVector) -> (result: DecisionResult)
        ensures
            (result.outcome, result.confidence_pct) == decide(self.model_loaded(), *features),
            result.suggested_action@ == action_label(result.outcome),
    {
        let high_memory = match features.memory_load {
            MemoryLoad::High | MemoryLoad::Critical => true,
            _ => false,
        };
        let busy_cpu = match features.cpu_load {
            CpuLoad::Busy | CpuLoad::Saturated => true,
            _ => false,
        };
        let (outcome, confidence_pct) = if !self.model_weights_loaded {
            (DecisionOutcome::HeuristicFallback, 0)
        } else if features.has_leak_potential && high_memory {
            (DecisionOutcome::PredictFreeze, 95)
        } else if features.memory_load == MemoryLoad::Critical || features.cpu_load
            == CpuLoad::Saturated {
            (DecisionOutcome::PredictFreeze, 88)
        } else if high_memory && busy_cpu {
            (DecisionOutcome::PredictKill, 80)
        } else if features.memory_load == MemoryLoad::Idle && features.cpu_load == CpuLoad::Idle {
            (DecisionOutcome::PredictIgnore, 99)
        } else if high_memory || features.memory_load == MemoryLoad::Elevated {
            (DecisionOutcome::PredictFreeze, 78)
        } else {
            (DecisionOutcome::PredictIgnore, 100)
        };
        DecisionResult { outcome, suggested_action: label_for(outcome), confidence_pct }
    }
}

} // verus!
