//! Game-side logic for Data Center mods: event identifiers, the stable-ID
//! object registry, multiplayer session and save-transfer state, and the relay
//! wire framing.

pub mod assoc;
pub mod events;
pub mod multiplayer;
pub mod netwatch;
pub mod relay_proto;
pub mod text;
pub mod world;
