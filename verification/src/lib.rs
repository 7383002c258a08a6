//! Control logic of a minimal terminal window: a reducer over the window's
//! session state, and the controller of its in-terminal search.

pub mod command;
pub mod keys;
pub mod laws;
pub mod model;
pub mod search;
pub mod win;
