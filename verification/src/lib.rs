//! Core model of a prototype turn-based tactics game.
//!
//! The verified library covers the game-state and scene state machine
//! together with the grid-based combat data model: units with validated
//! stats and damage rules, cells and levels, the player roster, and the
//! dispatch of screen clicks to game events. Rendering and the window
//! event loop are unverified collaborators that consume read-only views
//! of this state and hand back plain click coordinates.

pub mod button;
pub mod cell;
pub mod classes;
pub mod controller;
pub mod game;
pub mod geometry;
pub mod item;
pub mod level;
pub mod numerals;
pub mod player;
pub mod scene;
pub mod unit;

pub use scene::LevelSelectScene;
pub use scene::MidLevelScene;
pub use scene::SceneId;
pub use scene::StartScene;

pub use button::Button;
pub use classes::Class;
pub use controller::Controller;
pub use game::Game;
pub use game::GameError;
pub use game::GameEvent;
pub use game::UIElement;
pub use game::UIEvent;
pub use geometry::to_coord_u32;

pub use cell::Cell;
pub use cell::CellError;
pub use cell::Occupant;
pub use cell::Terrain;
pub use level::Level;
pub use level::Rule;

pub use item::Gem;
pub use item::Herb;
pub use item::Item;
pub use item::Ore;
pub use player::Difficulty;
pub use player::Player;
pub use player::PlayerSelector;
pub use unit::DamageType;
pub use unit::Protection;
pub use unit::Stat;
pub use unit::Unit;
pub use unit::UnitError;
