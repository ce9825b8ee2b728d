//! Generation engine for Python special-method ("protocol") trampolines.
//!
//! The crate classifies protocol method names into dispatch strategies
//! (whole-slot trampolines, cooperative slot fragments, property accessors,
//! or ordinary callables), validates the native signatures behind them, and
//! produces structured descriptions of the wrapper functions that bridge the
//! foreign calling convention to typed native code.  A companion runtime
//! model states and proves what the generated wrappers do at call time:
//! fallback-sentinel extraction, receiver-returning in-place operators,
//! comparison-code decoding, attribute-lookup precedence, fault containment,
//! and cooperative fragment composition.

pub mod errors;
pub mod extract;
pub mod fragment;
pub mod method;
pub mod property;
pub mod pymethod;
pub mod runtime;
pub mod rust_type;
pub mod slot_def;
pub mod strutil;
pub mod ty;
