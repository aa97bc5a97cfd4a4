//! Simulation core of a two-paddle ball-bouncing arcade game.
//!
//! The library advances physical state every fixed tick, resolves collisions
//! between a ball, two paddles and the play-field boundary, drives paddle
//! motion from either human input or a simple AI, and paces the loop with a
//! phase-locked fixed-rate scheduler.
//!
//! All geometry is held in fixed-point integer units: 1000 units per pixel
//! (`UNITS_PER_PIXEL`), with time measured in whole milliseconds.  Velocities
//! are units per millisecond, which makes a velocity of `n` units/ms equal to
//! `n` pixels per second.  Rendering, windowing and event polling live outside
//! the library; it only exposes geometric collider rectangles.

pub mod collide;
pub mod controllers;
pub mod entities;
pub mod game;
pub mod physics;
pub mod rect;
pub mod tick_controller;
pub mod vec2;

use vstd::prelude::*;

verus! {

/// Fixed-point scale: coordinate units per pixel.
pub const UNITS_PER_PIXEL: i64 = 1000;

} // verus!
