//! Verified versions of three introductory exercises: handing values over by
//! ownership or by copy, scanning text for the end of its first word, and
//! building a user record.
//!
//! Each module renders its result as plain values or text; printing those
//! lines to the console is left to the surrounding program.

pub mod ownership;
pub mod render;
pub mod user;
pub mod words;
