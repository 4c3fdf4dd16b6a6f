//! A live market-ticker board: the store that keeps the latest record per
//! instrument, and the session that turns a snapshot of it into sorted,
//! coloured rows and reacts to keys.
//!
//! Everything here is sequential and free of I/O. The program around it owns
//! the feed, the lock that guards the store, and the terminal.

pub mod app;
pub mod input;
pub mod palette;
pub mod price;
pub mod text;
pub mod screen;
pub mod sort;
pub mod store;
pub mod ticker;
