//! Typo correction and dispatch for a `git push` convenience command.
//!
//! The library decides everything; the program around it runs the
//! processes it asks for and hands their outcomes back.
pub mod dispatch;
pub mod text;
pub mod typo;
