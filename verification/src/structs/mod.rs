//! The records that a reply is decoded into.

pub mod joke;
