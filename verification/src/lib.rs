//! Verified core of a HomeKit bridge that drives an eight-way power
//! distribution unit over MQTT and wakes a PC over the network.

pub mod decimal;
pub mod identity;
pub mod pdu;
pub mod waker;
