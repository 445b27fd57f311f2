//! A quiz engine for single-digit arithmetic.
//!
//! A quiz is five problems, each held in a six-byte record. A user may have
//! one quiz outstanding at a time and at most five quizzes in all; every
//! correctly answered problem is worth four points.

pub mod digits;
pub mod feedback;
pub mod laws;
pub mod problem;
pub mod quiz;
