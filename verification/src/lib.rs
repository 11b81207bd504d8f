//! Decision core of a grab-and-pull locomotion controller.
//!
//! A tracked hand or pointer grabs a handle and, while a second gesture is
//! held, every pull on the handle adds an impulse to a velocity that carries
//! the user through the scene. This crate holds the part of that controller
//! that decides: which source is grabbing, which sources are gliding, whether
//! the tracking offset advances this frame and between which two positions a
//! pull is measured. The vector arithmetic itself and all device traffic stay
//! with the caller.
//!
//! Measurements enter as single-precision numbers held by their bit patterns
//! ([`scalar::Scalar`]), so that every threshold test is an integer test.

pub mod glide;
pub mod grab;
pub mod sailer;
pub mod scalar;
pub mod source;
pub mod tuning;
