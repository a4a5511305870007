//! The screens.

pub mod home;
pub mod setup;
