//! A bridge between face tracking and VTube Studio.
//!
//! A tracker sends frames: blend shapes and the pose of the head. The formulas of a transform
//! config turn each frame into parameter values, and the bridge injects those into VTube Studio.
//! This crate holds the rules of that work; sockets, files, the clock and the window belong to the
//! program around it.
//!
//! - `vtspc` is the bridge, a machine that says what to do next; `bridge_laws` and `session_laws`
//!   say what holds of every run of it. `requests`, `responces` and `json` are what it exchanges
//!   with VTube Studio.
//! - `transform` and `formula` prepare a config; `tracking` and `names` turn frames into variables
//!   and values into parameters. `number` holds floating-point numbers by their bits.
//! - `editor`, `settings`, `panel`, `mesh` and `update` are what the window knows and decides.
//! - `text` holds what the others need of strings.
pub mod bridge_laws;
pub mod editor;
pub mod formula;
pub mod json;
pub mod mesh;
pub mod names;
pub mod number;
pub mod panel;
pub mod requests;
pub mod responces;
pub mod session_laws;
pub mod settings;
pub mod text;
pub mod tracking;
pub mod transform;
pub mod update;
pub mod vtspc;
