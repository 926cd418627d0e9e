//! Stellar Dominion: the rules of a real-time space empire simulation.
pub mod config;
pub mod text;
pub mod types;
pub mod validation;
pub mod faction_manager;
pub mod id_index;
pub mod planet_manager;
pub mod ship_manager;
pub mod construction;
pub mod game_initializer;
pub mod events;
pub mod resource_system;
pub mod population_system;
pub mod save_system;
pub mod ui_state;
pub mod panels;
pub mod planet_panel;
pub mod ship_panel;
pub mod input_handler;
pub mod ui_renderer;
pub mod list_menus;
pub mod toolbar;
pub mod combat_resolver;
pub mod physics_engine;
pub mod asset_types;
pub mod asset_registry;
pub mod time_manager;
pub mod entity_manager;
pub mod laws;
