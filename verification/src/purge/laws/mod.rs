//! The laws of the purge engine: what holds of every walk through a stream
//! and of every run, whatever the platform answers.

pub mod run;
pub mod walk;
