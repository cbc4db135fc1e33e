//! Fixed-width values that every component exchanges.

pub mod address;
pub mod byte;
pub mod nibble;

pub use address::Address;
pub use byte::Byte;
pub use nibble::Nibble;
