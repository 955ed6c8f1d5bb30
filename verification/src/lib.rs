//! The decisions of a terminal program that shows the live Bitcoin price and sounds when the price
//! reaches an alert threshold.
//!
//! Nothing here reads a clock, a key, a file or the network, and nothing draws or plays: the
//! functions take what happened and say what is to be done.
//!
//! - [`price`]: numbers as bit patterns, and how they compare.
//! - [`clock`]: points in time and waits.
//! - [`alert`]: the alert and when it goes off.
//! - [`store`]: what is kept of the alert between runs.
//! - [`saving`]: the steps of saving it, and what they leave on the disk.
//! - [`state`]: the program's state, and how prices and key presses change it.
//! - [`feed`]: what follows on each thing that happens to the connection.
//! - [`ticker`]: what a round of the event loop sounds, takes in and redraws.
//! - [`screen`]: the terminal commands of a drawing.
//! - [`sound`]: the notes of a sound, and how loud each sample is.
//! - [`text`]: building and measuring text.
//! - [`session`] and [`canvas`]: what holds of whole runs, and of what the terminal shows.

pub mod alert;
pub mod canvas;
pub mod clock;
pub mod feed;
pub mod price;
pub mod saving;
pub mod screen;
pub mod session;
pub mod sound;
pub mod state;
pub mod store;
pub mod text;
pub mod ticker;
