//! Typed handles to values that live on a heap owned by a tracing garbage
//! collector.

pub mod error;
pub mod gc;
pub mod heap;

pub use error::Error;
pub use gc::Gc;
pub use heap::{GcHeap, HeapModel, GC_ALLOC_FLAG_HAS_FINALISER, GC_ALLOC_FLAG_NONE};
