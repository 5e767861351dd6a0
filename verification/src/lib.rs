//! Core logic of a terminal dashboard for cryptocurrency market data.
//!
//! The library owns the application state (current table rows, selected row,
//! last-refresh timestamp) and the pure transformations around it: projecting
//! fetched asset records into display rows, moving the selection with
//! wrap-around, deciding when a refresh is due and applying its outcome, and
//! dispatching key events. Fetching over HTTP, JSON decoding and terminal
//! drawing are external collaborators: they hand the library plain values and
//! take plain values back.

pub mod api;
pub mod render;
pub mod state;
