//! A harness that injects caller-supplied static-analysis rules ("lints")
//! into a compiler run and tells the surrounding build system which extra
//! files the run depends on.
//!
//! The core is the callback-interception mechanism: it sits between "invoke
//! the compiler with these arguments" and "the compiler actually runs",
//! rewriting the compiler's configuration in flight so that the caller's
//! lint-registration logic runs exactly once, after any registration hook the
//! configuration already carried, and so that a caller-supplied list of extra
//! dependency files is merged into the compiler's own dependency record.
//!
//! The compiler itself is a collaborator that lives outside this crate; the
//! state it lets this system reach (its dependency record, its lint registry,
//! its configuration hook slot) is modeled here by plain verified types, and
//! the single blocking run is modeled by [`harness::ModelCompiler`]. A driver
//! binding those types to a concrete compiler performs the actual run and
//! reports its outcome; everything this system decides or mutates is verified
//! here.

pub mod deps;
pub mod harness;
pub mod hooks;
pub mod registry;
