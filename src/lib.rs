//! A dream journal's interaction core: the entry collection, the list cursor, the entry
//! wizard and the mode controller that routes key presses between them.

pub mod app;
pub mod date;
pub mod dream;
pub mod laws;
pub mod text;
