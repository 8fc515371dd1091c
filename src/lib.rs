//! Model of a single-screen store menu: which buttons it shows, how each one
//! reacts to the pointer, what the store has reported as purchasable, and which
//! entities are removed when the screen closes.
pub mod catalog;
pub mod cleanup;
pub mod dispatch;
pub mod menu;
pub mod palette;
