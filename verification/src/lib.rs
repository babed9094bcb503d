//! A music-box cart for a fantasy console: it plays a tune frame by frame,
//! shows how far it has come, and starts over when the player presses X.
pub mod pitch;
pub mod melody;
pub mod display;
pub mod player;
pub mod laws;
