//! Availability watcher core: reads a stock signal out of product-page HTML,
//! tracks per-product state across poll cycles, and decides when a one-shot
//! notification is due.

pub mod cycle;
pub mod extract;
pub mod roster;
pub mod signal;
pub mod text;
pub mod tracker;
