//! The core of a block manager for key-value caches of language models, and what
//! goes with it: how blocks are moved between memory tiers and remote storage, how
//! a leader sizes the tiers and tracks what is in object storage, when the master
//! of the cache counts as healthy, and which frames of a video are sampled.
//!
//! Everything here is decided on plain values; a clock is read where something is
//! stamped or timed. Devices, sockets and codecs are used by the application around
//! this library.
pub mod agent_transfer;
pub mod float_bits;
pub mod health;
pub mod leader;
pub mod leader_config;
pub mod messages;
pub mod nixl;
pub mod remote;
pub mod remote_transfer;
pub mod strategy;
pub mod text;
pub mod transfer;
pub mod video;
