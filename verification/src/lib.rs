//! The verified core of an on-screen keyboard and mouse visualiser.

pub mod board;
pub mod code_convert;
pub mod laws;
pub mod messages;
pub mod model;
pub mod types;
