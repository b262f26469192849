//! A 3x3x3 cube of 26 movable pieces that turns one face at a time.
//!
//! The logical model (integer coordinates of the pieces, which face is
//! turning and how far the turn has come) is verified here; the floating
//! point transforms that follow it are drawn by the host application.
pub mod cube;
pub mod face;
pub mod ime;
pub mod rotation;
