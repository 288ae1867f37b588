//! An interactive line console with a three-step dosage wizard.
//!
//! The crate holds the console's state machine: how key presses edit the
//! line being composed, how a committed line is told apart as a command or
//! as an answer to the wizard, and how the wizard advances. Numbers are
//! carried as the bit patterns of single-precision values; reading them
//! from text and dividing them is the caller's work.

pub mod laws;
pub mod phrases;
pub mod screen;
pub mod session;
pub mod text;
