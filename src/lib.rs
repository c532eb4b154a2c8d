//! Unwrapping for `Option` and `Result` that states, at the call site, why the
//! caller holds the value to be present.
//!
//! Each operation returns the contained value. Its contract asks the caller to
//! show that the value is there; where a caller that Verus does not check gets
//! this wrong, the operation stops with a diagnostic that names the kind of
//! expectation that failed and the reason the caller gave.
pub mod diagnostic;
pub mod option_ext;
pub mod result_ext;

pub use option_ext::OptionExt;
pub use result_ext::ResultExt;
