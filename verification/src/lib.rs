//! A first-in, first-out queue kept as a singly linked chain of nodes.
//!
//! The nodes live in an arena and name each other by handle, so the queue can
//! remember its last node and append in constant time without sharing
//! ownership of it.

pub mod iter;
pub mod laws;
pub mod model;
pub mod queue;

pub use iter::{IntoIter, Iter, IterMut};
pub use queue::List;
