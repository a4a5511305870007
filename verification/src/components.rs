//! The parts of the chat screen, each as the description of what to draw.

pub mod avatar;
pub mod message;
pub mod text_input;
