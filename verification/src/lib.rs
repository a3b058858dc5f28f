//! Pages of a terminal front end for a VPN daemon: what every page shows, which
//! of its widgets can take focus, and what activating one of them does.
//!
//! A page never draws. Its `render` function appends paint and focus operations
//! to a [`scene::Scene`]; the program around the library replays them on a
//! terminal. A page never talks to the daemon either. Its `activate` function
//! hands back a request, and `complete` takes in how that request ended.

pub mod ansi;
pub mod app;
pub mod components;
pub mod daemon;
pub mod focus;
pub mod geometry;
pub mod log;
pub mod scene;
pub mod text;
pub mod text_set;
pub mod time;
pub mod wrap;
pub mod pages;
