//! Where quotes are kept, and the loaders that fill the store.
pub mod blob;
pub mod file;
pub mod memory;

pub use memory::MemoryStore;

use vstd::prelude::*;

verus! {

/// The store the service keeps its quotes in.
pub type Store = memory::MemoryStore;

} // verus!
