//! Commands on the state of an editor over HTML.

pub mod bold;
