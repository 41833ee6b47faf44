//! Typed message dispatch and input-context liveness tracking for an
//! X Input Method (XIM) server.
//!
//! The native XIM engine reports every protocol event through one untyped
//! callback. This crate turns that narrow channel into a closed set of typed
//! messages, keeps the registry of input contexts that are currently alive,
//! and gates every outbound request on that registry. All of it is verified
//! with Verus; the engine itself is reached only by the code around this
//! library, which performs the requests that the library hands out.

pub mod encoding;
pub mod imdkit;
