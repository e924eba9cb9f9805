//! Classifies how the elements of a sequence are ordered.

pub mod classify;
pub mod laws;
pub mod relation;
pub mod stream;
pub mod verdict;

pub use classify::get_ordering;
pub use stream::get_ordering_iter;
pub use verdict::Verdict;
