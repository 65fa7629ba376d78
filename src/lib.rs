//! Sprite-animation playback: an asset-load gate, a catalog of clips keyed
//! by actor state, and a per-tick engine that cycles frame indices and swaps
//! atlases when the actor's state changes.

pub mod clip;
pub mod gate;
pub mod label;
pub mod playback;
