//! Dogecoin address codec, output-script classifier and display helpers.
pub mod blockchain;
pub mod chain;
pub mod checksum;
pub mod dogeaddress;
pub mod primitives;
pub mod script;
