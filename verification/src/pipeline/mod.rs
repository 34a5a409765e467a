//! The processing pipeline: configuration, typing context, stages, the
//! executor that runs them, rules, dictionaries and syllable validation.

pub mod config;
pub mod validation;
pub mod context;
pub mod stage;
pub mod stages;
pub mod presets;
pub mod permutation;
pub mod dictionary;
pub mod nom_dictionary;
pub mod executor;
pub mod rules;

pub use config::{PipelineConfig, ToneMark};
pub use context::{Candidate, CandidateType, TransformRecord, TransformType};
pub use context::TypingContext;
pub use executor::PipelineExecutor;
pub use rules::{ConditionalRule, ContextRule, RuleAction, RuleMatcher};
pub use stage::{PipelineStage, StageResult};
pub use presets::{simple_telex_config, telex_config, viqr_config, vni_config};
