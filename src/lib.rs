//! Core of a floating-panel companion: hot-key decoding, the single active
//! hot-key registration, panel visibility and the configuration location.
pub mod keys;
pub mod location;
pub mod registry;
pub mod visibility;
