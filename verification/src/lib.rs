//! Agent execution and request-queue subsystem of a desktop launcher.
//!
//! The library holds the verified core: agent prompt assembly, the
//! OpenAI-compatible chat wire format, tool-call planning and result
//! rendering, shell-like command splitting, the request queue's admission
//! and lifecycle state machine, and the small pure helpers around them.
//! Everything that talks to the outside world (HTTP, the database, process
//! spawning, the GUI) lives in the surrounding application, which feeds
//! plain values in and out of these functions.

pub mod agent;
pub mod chat;
pub mod errors;
pub mod icons;
pub mod json;
pub mod prompt;
pub mod queue;
pub mod scrape;
pub mod shell_words;
pub mod strutil;
pub mod tools;
pub mod trusted;
pub mod types;
pub mod windows;
