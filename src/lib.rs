pub mod dragon;
pub mod effect;
pub mod events;
pub mod moves;
pub mod party;
pub mod battle;
