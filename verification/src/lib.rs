//! Passive decoding of IEEE 802.11 link-layer frames and the correlation of
//! what they show into a model of the wireless neighbourhood: the devices
//! seen, the access points and their networks, who talks to whom, and how well.

pub mod error;
pub mod reader;
pub mod ieee802_11;
pub mod events;
pub mod packet_capture;
