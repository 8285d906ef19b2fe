//! Fetching tool distributions into the local inventory.
//!
//! A [`distro::Distro`] is a request for one version of a tool. Fetching it
//! into a [`inventory::Collection`] either finds the version installed or
//! provisions and records it, and the [`distro::Fetched`] that comes back
//! says which of the two happened. A provisioning that fails is reported as
//! one of the [`error::ErrorDetails`], and leaves the inventory as it was.

pub mod distro;
pub mod error;
pub mod inventory;
pub mod tool;
pub mod version;
