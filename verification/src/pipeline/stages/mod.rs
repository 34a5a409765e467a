//! The processing stages.

pub mod stage1_normalization;
pub mod stage2_gatekeeper;
pub mod stage3_validation;
pub mod compose_stage;
pub mod stage9_orthography;
pub mod stage10_learning;
pub mod stage11_lookup;
pub mod stage12_output;
pub mod vni_optimized;
pub mod telex_table;

pub use stage1_normalization::NormalizationStage;
pub use stage2_gatekeeper::GatekeeperStage;
pub use stage3_validation::ValidationStage;
pub use compose_stage::ComposeStage;
pub use stage9_orthography::OrthographyStage;
pub use stage10_learning::LearningStage;
pub use stage11_lookup::LookupStage;
pub use stage12_output::OutputStage;
pub use vni_optimized::VniOptimizedTransformStage;
