//! Playback and lyrics-synchronisation core of a desktop music player:
//! the player engine, the lyrics resolution rules, the proof-of-work
//! solver that gates publishing, and the publish pipeline built on it.

pub mod lyrics;
pub mod player;
pub mod publish;
pub mod solver;
