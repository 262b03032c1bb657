//! Record logic of the Holo-REA zomes: how stored entries are built from
//! requests, merged with updates and turned into responses, and the order in
//! which a zome request handler talks to the DHT.

pub mod maybe_undefined;
pub mod agreement;
pub mod zome;
pub mod unit;
pub mod commitment;
pub mod fulfillment;
pub mod proposal;
