//! The `.qua` chart format: the schema of a chart, its defaults, and the two
//! directions between a chart and a YAML document.
//!
//! The syntax of documents is `serde_yaml`'s. What this crate adds, and
//! proves, is the schema on top of it: which key holds which field, what a
//! field is when the document does not have it, which numbers stand for the
//! enumerations, and that a chart written and read again is the same chart.

pub mod chart;
pub mod codec;
pub mod entry;
pub mod error;
pub mod field;
pub mod mode;
pub mod read;
pub mod region;
pub mod schema;
pub mod tree;
pub mod write;
pub mod yaml;

pub use chart::{
    CustomAudioSampleInfo, EditorLayerInfo, HitObjectInfo, KeySoundInfo, Qua, ScrollVelocityInfo,
    SoundEffectInfo, TimingPointInfo,
};
pub use entry::Entry;
pub use error::QuaError;
pub use field::Field;
pub use mode::{GameMode, TimeSignature};
pub use region::timing_region;
