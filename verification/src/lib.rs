//! Talking to the furigana service at j-talk.com without doing any I/O.
//!
//! The session says which exchange it wants next and takes the reply;
//! the caller performs the exchange. Result pages are turned into segments
//! of plain and annotated text, and every function states what it returns.

pub mod cookies;
pub mod error;
pub mod extract;
pub mod jtalk;
pub mod location;
pub mod markup;
pub mod pattern;
pub mod policy;
pub mod remap;
pub mod req;
pub mod segment;
pub mod step;
pub mod text;
