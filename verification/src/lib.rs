//! A signature-driven engine that discovers, at run time, where a game keeps its
//! player position, and gives access to the three coordinates stored there.
//!
//! The engine is a state machine. The host performs the work that touches the
//! running process (scanning code, attaching a probe, looking up modules, reading
//! and writing memory) and reports what it found; every decision is taken here.

pub mod app;
pub mod config;
pub mod coordinates;
pub mod error;
pub mod intercept;
pub mod laws;
pub mod plugin;
pub mod pointer;
pub mod presets;
pub mod registers;
pub mod registry;
pub mod sekiro;
pub mod slot;
pub mod waypoints;
