//! Bootstrap logic for a GPU rendering backend.
//!
//! This crate holds the decision and bookkeeping logic that brings a GPU
//! API into a usable state: building the instance-creation descriptors
//! (with an optional validation-messenger descriptor chained in), routing
//! driver diagnostics to log levels, staging surface creation from platform
//! window handles, planning logical-device creation, and computing the
//! strict reverse-order teardown sequence.
//!
//! The native API calls themselves are unsafe foreign calls and live with
//! the embedding application; this crate works on the plain handle values
//! and result codes those calls produce, so every decision made here is
//! verified for every outcome the native layer can report.

pub mod device;
pub mod diagnostics;
pub mod instance;
pub mod surface;
