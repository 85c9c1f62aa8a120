//! The keys and tests on addresses that the store works with.

pub use crate::ieee802_11::util::{hash_macs, is_broadcast};
