//! A host-process command-delegation bootstrap.
//!
//! The crate embeds a Python interpreter, resolves the `pngtools` module,
//! instantiates its `CLI` class, runs its `cmdloop` method, and interprets
//! the returned value as a signed process exit code.  Every failure along
//! that path is captured as an [`outcome::ExitOutcome::Failure`] carrying a
//! human-readable message; a successful run is an
//! [`outcome::ExitOutcome::Success`] carrying the delegated exit code.

pub mod bootstrap;
pub mod outcome;
pub mod runtime;

pub use bootstrap::run_cli;
