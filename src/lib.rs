//! Level tracking and timer decisions for an autosplitter of
//! "Sonic Triple Trouble 16-Bit".
//!
//! The library locates the room cells of the game inside a snapshot of the
//! game's main module (signature scanning with wildcards, then a relative or
//! absolute address fix-up), turns each room sample into a canonical [`acts::Act`],
//! and decides when a speedrun timer should start, split or reset.
pub mod acts;
pub mod signature;
pub mod resolver;
pub mod sampler;
pub mod machine;
pub mod policy;
