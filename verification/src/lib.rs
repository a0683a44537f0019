//! A window and input abstraction for an SDL2-style native multimedia
//! backend: window lifecycle flags, OpenGL context negotiation with a
//! multisampling fallback, and translation of native input events into a
//! small closed set of abstract input events, including emulated
//! relative-mouse capture through cursor warping.
//!
//! The library holds the verified logic: every decision the adapter makes
//! is a function over plain values with a contract. The native calls
//! themselves (window creation, event polling, cursor warping) are platform
//! I/O and live with the host that drives these state machines.

pub mod config;
pub mod create;
pub mod error;
pub mod event;
pub mod keymap;
pub mod laws;
pub mod native;
pub mod state;
