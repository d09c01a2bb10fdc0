//! A proxy that lets a remote client drive a local language-analysis server
//! process, and run compiled user programs, through a single transport
//! session.
//!
//! The verified core covers the wire framing written to the backing process,
//! the interception of selected protocol notifications and their replay as
//! workspace file operations, the single-session and single-running-program
//! guards, and the decision logic of the program runner.  The surrounding
//! HTTP/websocket plumbing and the actual process and filesystem side effects
//! live outside the library and consume the plans and commands it produces.

pub mod codec;
pub mod config;
pub mod file_sync;
pub mod files;
pub mod intercept;
pub mod program;
pub mod session;
pub mod supervisor;
pub mod text;
