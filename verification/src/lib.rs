//! A capability contract for growable, randomly indexable sequence
//! containers, together with a shared bounds checker, two iterator
//! adapters (owning and borrowed), and a reference container that
//! implements the contract.

pub mod bounds;
pub mod iter;
pub mod laws;
pub mod plain;
pub mod vector;

pub use bounds::index_check;
pub use bounds::OutOfRange;
pub use iter::VectorIterator;
pub use iter::VectorRefIterator;
pub use plain::PlainVec;
pub use vector::wf;
pub use vector::Vector;
