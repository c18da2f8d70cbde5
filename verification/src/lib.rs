//! A cost-accounting decorator over an in-memory ordered key-value store.
//!
//! Every read, write, delete and range-iteration step is charged a
//! deterministic amount of gas, computed from a fixed price table and the
//! operation's key and value sizes, and recorded in a usage counter.

pub mod backing;
pub mod gas;
pub mod laws;
pub mod store;

pub use gas::GasOpKind;
pub use gas::StorageGasConfig;
pub use gas::StorageGasUsed;
pub use store::MemoryStorageWithGas;
pub use store::Order;
pub use store::RangeIter;
