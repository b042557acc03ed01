//! Core logic of a 2D side-scrolling auto-runner.
//!
//! The crate holds the run-time subsystems with real algorithmic content:
//! the top-level game-state machine, the player controller (input to
//! position updates), the infinite parallax scroll engine with its
//! threshold-based tile recycling, the camera-follow policy, the UI
//! fade/transition animator, and validation of the tuning configuration.
//!
//! Rendering, asset loading, audio, raw input polling and the physics
//! engine are external collaborators: a host program feeds this crate
//! plain values (positions, input snapshots, elapsed time) and carries
//! its results back to the engine.
//!
//! All geometry uses fixed-point integers: lengths and positions in
//! milli-units (one thousandth of a world unit), dimensionless factors
//! in per-mille (1000 stands for 1.0). See [`units`].

pub mod camera;
pub mod config;
pub mod environment;
pub mod mainmenu;
pub mod parallax;
pub mod platform;
pub mod player;
pub mod splash;
pub mod state;
pub mod transition;
pub mod units;
