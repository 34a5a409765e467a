//! Vowel processing: cluster detection, tone positioning and vowel-sequence
//! tables.

pub mod cluster;
pub mod sequences;
pub mod positioning;

pub use cluster::{find_vowel_clusters, is_vowel, normalize_vowel, ClusterType, VowelCluster};
pub use positioning::{find_tone_position, is_super_vowel, TonePositioningMode};
pub use sequences::{Mark, VowelSeq, VowelSeqInfo, VowelSeqTable};
