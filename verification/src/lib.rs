//! Session framing and orchestration core for a remote code-execution service.
//!
//! One accepted connection carries one session: the client submits source code
//! in a typed, length-prefixed frame; the service provisions a scratch
//! workspace, builds and runs the code, streams the child's output back as
//! frames, forwards inbound `Stdin` frames to the child, and finishes with a
//! terminal frame before reclaiming the workspace.
//!
//! This crate holds the verified core: the frame codec, the request payload
//! parsing, the workspace naming scheme, the session state machine, and the
//! stdin-forwarding decision logic. All network, filesystem and process I/O
//! lives outside, driven by the contracts stated here.

pub mod codec;
pub mod mux;
pub mod request;
pub mod session;
pub mod workspace;
