//! A procedural generator for a concentric-ring animation.
//!
//! Every frame, each of a fixed number of concentric rings is sampled at a
//! fixed number of angles; each sample's radius is the ring's base radius,
//! perturbed by a coherent-noise offset whose strength is governed by a
//! bounded mode transition (a "tween") between an undistorted circular mode
//! and a noise-perturbed mode.
//!
//! The library computes, in exact integer and rational arithmetic, everything
//! that determines a frame: the tween state machine, the per-frame offset
//! rule, and the per-ring radii and noise-axis shifts. A host evaluates the
//! resulting plan numerically (trigonometry and noise sampling) and draws it.

pub mod rings;
pub mod tween;
