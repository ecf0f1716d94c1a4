//! Verified game-state logic of the OPGAME open-world framework: the player's
//! inventory and progression, missions, sound and UI toggles, NPC decisions,
//! vehicle occupancy, display-mode decisions, menu text and text compositing.

pub mod ui;
pub mod display;
pub mod gl_config;
pub mod font;
pub mod text;
pub mod menu;
pub mod ids;
pub mod player;
pub mod mission;
pub mod vehicle;
pub mod npc;
pub mod sound;
pub mod settings;
pub mod world;
pub mod model;
pub mod combat;
