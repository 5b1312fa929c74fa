//! Half-duplex LoRa link layer: the message codec, the neighbour table, the
//! radio turn controller, the packet parameter factory, and the link driver
//! that composes them into the point-to-point exchange.

pub mod codec;
pub mod driver;
pub mod input;
pub mod mailbox;
pub mod message;
pub mod neighbour;
pub mod params;
pub mod turn;
