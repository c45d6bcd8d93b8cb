//! A passive port-scan sensor: decodes IPv4/TCP headers out of captured
//! link-layer frames and tracks, per source address, how many distinct
//! destination ports were contacted inside a time window.

pub mod address;
pub mod alert;
pub mod clock;
pub mod decoder;
pub mod runs;
pub mod sensor;
pub mod text;
pub mod tracker;
pub mod wire;
