//! Core of a supervisor for external transcoding processes: line framing and
//! classification of tool output, the registry of tracked processes, and the
//! decisions taken while launching, stopping and probing the tool.
//!
//! Everything here is pure: the embedding application performs the operating
//! system calls and hands their outcomes to the functions of this crate.

pub mod error;
pub mod event;
pub mod launch;
pub mod probe;
pub mod reader;
pub mod registry;
pub mod terminate;
pub mod text;
