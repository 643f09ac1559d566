//! Fixed-length typed data channels, point access into them, and their
//! composition into tuples that are filled and reset as one unit.

pub mod store;
pub mod channel;
pub mod access;
pub mod multi;
pub mod compose;

pub use access::{Get, GetMut, GetRef};
pub use channel::Channel;
pub use compose::Channels;
pub use store::{SliceStore, SliceStoreMut};
