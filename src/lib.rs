//! A single-document local data store: where the document lives, how the
//! outcome of reading or writing it becomes the store's reply, and a model of
//! the disk over which the store's laws are stated.

pub mod location;
pub mod store;
pub mod disk;
