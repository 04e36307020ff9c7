//! Core logic of the Targeted Vector shooter: the JSON document model, the
//! configuration records read from and written to JSON, resource lookup, the
//! variable store and the switch (button) state machine.
pub mod json;
pub mod codec;
pub mod table;
pub mod config;
pub mod unlock;
pub mod game_text;
pub mod user;
pub mod resource;
pub mod value;
pub mod text;
pub mod switch;
pub mod engine;
pub mod store;
pub mod widgets;
pub mod account;
pub mod files;
pub mod splash;
pub mod armory;
pub mod enemy;
pub mod campaign;
pub mod clock;
pub mod records;
pub mod boxes;
pub mod launch;
pub mod laws;
