//! The storage strategies and the budgets they keep.

pub mod disk;
pub mod hybrid;
pub mod limits;
pub mod memory;

pub use disk::Disk;
pub use hybrid::Hybrid;
pub use limits::Limits;
pub use memory::Memory;
