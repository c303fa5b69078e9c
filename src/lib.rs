//! A poll-based file-watching pipeline.
//!
//! [`registry`] builds the ordered set of watched files and its configuration;
//! [`engine`] is the verified state machine that decides, event by event, which
//! step to run next, when to retry and when to stop. The caller runs the steps,
//! reads modification times and sleeps, and hands each outcome back as an event.
pub mod outcome;
pub mod registry;
pub mod engine;
pub mod laws;
