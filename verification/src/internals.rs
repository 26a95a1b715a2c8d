//! Internal building blocks: the character cursor and the buffered sources
//! that refill it from line-oriented input.

pub mod char_vec;
pub mod file;
pub mod stdin;
