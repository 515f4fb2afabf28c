//! Assembly of a reflection database: the catalogue of object classes, their
//! properties, declared value types, default values and scriptability.

pub mod api_dump;
pub mod database;
pub mod emit;
pub mod error;
pub mod pipeline;
pub mod plugin;
pub mod property_patches;
pub mod protocol;
pub mod run_in_roblox;
pub mod string_map;
pub mod types;
pub mod variant;
