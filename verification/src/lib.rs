//! Finding a Java runtime and starting a bundled installer archive with it.
//!
//! The crate holds the decisions of a small bootstrap program: where a Java
//! executable may be found on each platform, how one attempt to start the
//! installer is judged, in which order the attempts follow each other, and
//! what the user is told when all of them have failed. It runs no process
//! and shows no dialog. A driver does that, and reports what happened as
//! plain values.
//!
//! - [`paths`]: paths as text, and how a sub-path is adjoined to a directory.
//! - [`lookup`]: what a lookup of an installation directory can give.
//! - [`windows`], [`macos`], [`unsupported`]: the candidates of each platform,
//!   the likeliest first.
//! - [`payload`]: the name of the file that the installer archive is written to.
//! - [`outcome`]: how the end of a child process is classified.
//! - [`probe`]: one attempt with one runtime, of at most two commands.
//! - [`cascade`]: the controller that goes from one attempt to the next.
//! - [`recovery`]: the dialog about a failure, and what follows from its answer.
//! - [`traces`]: what holds of whole runs of the controller.

pub mod cascade;
pub mod lookup;
pub mod macos;
pub mod outcome;
pub mod paths;
pub mod payload;
pub mod probe;
pub mod recovery;
pub mod traces;
pub mod unsupported;
pub mod windows;
