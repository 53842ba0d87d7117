//! Multiplayer session logic: join states, save-file transfer between host
//! and clients, the roster of remote players, carry detection and world
//! action sequencing. The network connection and the game calls stay with
//! the caller, which performs the actions these functions return.

pub mod apply;
pub mod carry;
pub mod entities;
pub mod player;
pub mod save;
pub mod session;
pub mod state;
pub mod sync;
