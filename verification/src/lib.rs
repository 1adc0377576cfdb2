//! Core of an interactive terminal greeting card: a fixed sequence of
//! full-screen messages ending in a yes/no prompt and a countdown display,
//! drawn over a bouncing-heart animation.
//!
//! This crate holds the verified logic: the screen state machine, the
//! animation physics, and the pure text computations behind each frame.
//! Terminal drawing, key polling, and the clock are left to the binary
//! that embeds the crate; they hand plain values in and take plain values
//! back.

pub mod app;
pub mod ui;
