//! Typed access to memory that another runtime owns and describes through a
//! buffer descriptor: a start address, an item format, an item count and the
//! shape of the items in memory.
//!
//! The library decides; it never touches the memory itself. It classifies item
//! formats, decides whether a view of a given scalar type may be laid over the
//! memory, checks every copy before the owner is asked to perform it, and keeps
//! track of the one release that each descriptor is owed.
use vstd::prelude::*;

pub mod buffer;
pub mod element;
pub mod element_type;
pub mod error;
