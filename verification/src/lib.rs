//! Session controller of a small arcade game: the state machine of one game
//! session, the spawn scheduler, input routing and outcome resolution, kept
//! apart from the entity store, the audio player and the window that carry
//! its decisions out.

pub mod command;
pub mod config;
pub mod input;
pub mod keys;
pub mod model;
pub mod resources;
pub mod scene;
pub mod text;
pub mod theorems;
