//! A todo store built around a single-writer actor: one owner of the
//! collection state serves commands taken from a mailbox, and cloneable
//! handles submit commands and block until the reply arrives.

mod channel;
pub mod client;
pub mod collection;
pub mod laws;
pub mod locator;
pub mod model;
pub mod todo;
