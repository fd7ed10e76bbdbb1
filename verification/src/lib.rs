//! Game rules of a small arcade shooter, kept apart from the engine that
//! draws it: how damage wears an enemy down, how the craft's torque answers
//! the turn keys, where new enemies appear and which of them a level still
//! tracks. Every function here works on plain values; the host polls the
//! keys, moves the bodies and hands back what happened.

pub mod enemy;
pub mod player;
pub mod test_level;
pub mod utils;
