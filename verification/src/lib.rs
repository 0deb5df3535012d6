//! A Gemini protocol client and the state machines of a terminal browser
//! built on it, with every rule stated as a contract and proved.

pub mod address;
pub mod app;
pub mod client;
pub mod error;
pub mod header;
pub mod input;
pub mod render;
pub mod scroll;
pub mod text;
pub mod verification;
