//! A character-encoding detector for byte buffers of unknown origin.
//!
//! Given raw bytes and a set of caller hints, the detector returns a
//! canonical encoding id, its MIME name, the number of bytes the decision
//! looked at, and a reliability flag. Detection never fails: every input,
//! including empty or binary data, yields a result, falling back to an
//! unknown or ASCII outcome marked unreliable.
//!
//! Detection is a pure, synchronous computation over one immutable buffer;
//! the frequency models are pure functions, so calls share no mutable state
//! and may run concurrently without locking. The whole pipeline is pinned
//! by the specification [`detect::spec_detect`], and the guarantees the
//! detector makes across calls are stated and proved in [`laws`].

pub mod detect;
pub mod enums;
pub mod hints;
pub mod laws;
pub mod mime;
pub mod models;
pub mod scan;
pub mod utf8;

pub use detect::ced_detect_encoding;
pub use detect::detect_encoding;
pub use detect::CedResult;
pub use detect::Detection;
pub use detect::DetectHints;
pub use enums::Encoding;
pub use enums::InvalidEnumValue;
pub use enums::Language;
pub use enums::TextCorpusType;
