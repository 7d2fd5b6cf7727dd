//! Threshold-signed Git tags: the OpenPGP encoder, the rendezvous state and
//! the round schedules of distributed key generation and signing.

pub mod armor;
pub mod assoc;
pub mod comm;
pub mod config;
pub mod crc24;
pub mod dkg;
pub mod errors;
pub mod flow;
pub mod git;
pub mod hashes;
pub mod octets;
pub mod pgp;
pub mod protocol;
pub mod radix64;
pub mod server;
pub mod signing;
pub mod text;
pub mod utils;
