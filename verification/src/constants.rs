use vstd::prelude::*;

verus! {

/// Number of audio mixing channels.
pub const AUDIO_CHANNELS: i32 = 12;

/// Highest score; reaching it wins the game.
pub const SCORE_MAX: i32 = 99999;

/// Number of entries shown in (and saved from) the top score table.
pub const TOP_SCORE_COUNT: usize = 20;

/// Lives the ship starts a level with (before the level bonus).
pub const SHIP_INIT_LIVES: i32 = 4;

/// Highest number of stars in the background.
pub const STAR_MAX_COUNT: i32 = 2000;

/// Columns of the monster grid; a level string is read row by row.
pub const MONSTERS_MAX_COLS: usize = 11;

/// Points for hitting each kind of target.
pub const SCORE_FIGHTER: i32 = 2;
pub const SCORE_HEAVY_FIGHTER: i32 = 5;
pub const SCORE_DEFENDER: i32 = 4;
pub const SCORE_BOMBER: i32 = 8;
pub const SCORE_SPAWNER: i32 = 8;
pub const SCORE_BOMB: i32 = 10;
pub const SCORE_LIVE: i32 = 20;
pub const SCORE_UFO: i32 = 200;

/// Seconds counted by the UFO before it appears: a minimum plus a random part.
pub const UFO_MINIMAL_SPAWN_INTERVAL: u64 = 10;
pub const UFO_RANDOM_SPAWN_INTERVAL: u64 = 10;

} // verus!
