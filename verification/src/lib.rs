//! Decides what a scheduled playlist watcher has to do: which tracks of a
//! shared playlist have not been announced yet, whose turn it is next, what
//! the announcement says, and what is written back to the state store.

pub mod discord;
pub mod error;
pub mod number;
pub mod processer;
pub mod spotify;
pub mod text;
pub mod user;
