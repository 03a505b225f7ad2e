//! Per-player decision helpers for riichi mahjong: legal discards, tenpai-safe
//! discards, rule-based win and draw-call policies, point calculation and the
//! effective shanten at any turn phase.

pub mod point;
pub mod small_vec;
pub mod state;
pub mod agent_helper;
pub mod lemmas;
pub mod tile;
