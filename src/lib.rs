//! Startup and shutdown of a desktop shell that, in production, runs its
//! backend as a bundled child process.

pub mod startup;
pub mod laws;
