//! The decision core of a single-session chat relay: it watches the lines of
//! the channels it joined and answers a trigger phrase with a fixed reply, at
//! most once per cooldown window.

pub mod clock;
pub mod config;
pub mod cooldown;
pub mod laws;
pub mod message;
pub mod model;
pub mod protocol;
pub mod session;
pub mod text;
