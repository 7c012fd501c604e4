//! A value-type error representation: captures an arbitrary failure value and
//! its causal chain into an immutable, comparable, cloneable snapshot.
//!
//! The snapshot type, [`FlatError`], stores a rendered message, a diagnostic
//! type label, and optionally an exclusively owned snapshot of the causal
//! predecessor. Any type satisfying the [`ExtendedError`] capability contract
//! can be captured with [`FlatError::from_any`]; [`SourceError`] is a plain
//! failure value for callers that need to hand such a chain in by value.

mod extended;
mod flat;
mod record;
mod source;

pub use extended::ExtendedError;
pub use flat::FlatError;
pub use record::ErrorRecord;
pub use source::SourceError;
