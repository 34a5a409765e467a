//! Vietnamese input processing engine: composing keystrokes into Vietnamese
//! syllables (transforms, tone placement, undo), syllable validation and the
//! character tables behind them.

pub mod text;
pub mod buffer;
pub mod types;
pub mod tone;
pub mod pipeline;
pub mod vowel;
pub mod compose;
pub mod unicode;

pub use pipeline::{PipelineConfig, PipelineExecutor, TypingContext, PipelineStage, StageResult};
pub use types::{Action, CharInfo, Config, WordForm};
pub use buffer::InputBuffer;
pub use unicode::{normalize_nfc, normalize_nfd, str_eq_normalized, sanitize_filename};
pub use vowel::{VowelSeqInfo, VowelSeqTable, VowelCluster, find_vowel_clusters};
