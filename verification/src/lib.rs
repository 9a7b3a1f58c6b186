//! The state and the rules of a browser shell window.
//!
//! A [`window::Window`] turns what the windowing system reports into events for the browser
//! engine, and what the browser engine asks for into actions on the native window. It does no
//! input or output of its own: a caller hands it what happened and carries out what it asks for.

pub mod address;
pub mod coordinates;
pub mod cursor;
pub mod events;
pub mod geometry;
pub mod keys;
pub mod laws;
pub mod limits;
pub mod messages;
pub mod plan;
pub mod run;
pub mod shortcuts;
pub mod single;
pub mod state;
pub mod window;
