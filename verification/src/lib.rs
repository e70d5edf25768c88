//! Verified protocol logic for a Mitsubishi CN105 heat-pump controller, its
//! room sensor nodes and the multi-zone climate hub that ties them together.

pub mod checksum;
pub mod types;
pub mod temperature;
pub mod builder;
pub mod parser;
pub mod ld2410;
pub mod shtc3;
pub mod controller;
pub mod hub;
pub mod assets;
