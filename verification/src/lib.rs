//! Game logic of Nebulon Monsters, a space-invaders style arcade game:
//! the level layouts, the monster classes, the random generator, the score
//! table, the menus, the game-flow state machine and the texts shown on
//! screen. Rendering, audio, input and everything that moves on floats
//! live in the application around this library.

pub mod random;
pub mod constants;
pub mod monster;
pub mod level;
pub mod scores;
pub mod text;
pub mod configuration;
pub mod game_state;
pub mod menu;
pub mod game;
pub mod sound;
pub mod shader;
pub mod collisions;
pub mod glyphs;
pub mod play;
pub mod slots;
