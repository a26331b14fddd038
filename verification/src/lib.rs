//! Verified core of the DeepSeek Harness desktop shell: the decisions that
//! manage the local `dsh web` service, locate its runtime, and plan the
//! first-run downloads. Everything that touches the network, the file system,
//! processes or the window system lives in the application around it.

pub mod text;
pub mod config;
pub mod harness;
pub mod download;
pub mod launcher;
pub mod probe;
pub mod process;
pub mod bridge;
pub mod extract;
