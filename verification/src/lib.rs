//! Lockstep synchronization engine for netplay between two emulated game
//! consoles.
//!
//! Each peer steps its emulator one tick at a time.  At every tick the engine
//! exchanges one input packet with the remote peer over an ordered reliable
//! channel, keeps a shared pseudo-random sequence identical on both sides,
//! drives the round lifecycle, and records every resolved tick into a replay
//! log that can reproduce the match without a live connection.

pub mod browse;
pub mod exe45;
pub mod game;
pub mod hooks;
pub mod msg;
pub mod packet;
pub mod patches;
pub mod replay;
pub mod replay_file;
pub mod rng;
pub mod round;
pub mod save_view;
pub mod session;
pub mod signaling;
pub mod sync;
pub mod vfile;
pub mod wire;
