//! A named collection of albums, held in one of four ways: owned by the
//! wrapper, borrowed from an owner, cloned from an owner, or owned by a
//! wrapper that forwards read access to the sequence inside it. All four
//! render the same text, one line per album, in order.

pub mod album;
pub mod listing;
pub mod collection;
pub mod user;
