//! Two-wire bus: addresses, buffers and the bookkeeping of a transfer.
pub mod address;
pub mod buffer;
pub mod transaction;

pub use self::address::{Address, InvalidAddress};
