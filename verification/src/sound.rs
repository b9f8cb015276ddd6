use vstd::prelude::*;

verus! {

/// The sounds of the game.
#[derive(Clone, Copy, PartialEq, Eq, Hash, Structural, Debug)]
pub enum SoundType {
    ShipFire,
    ShipHit,
    MonsterFire,
    MonsterHit,
    UfoHit,
    BombHit,
}

/// The mixer volume (0 to 128) for a volume setting in percent; the
/// setting is first limited to `0 ..= 100`.
pub fn mixer_volume(volume: i32) -> (v: i32)
    ensures
        v == (if volume < 0 { 0 } else if volume > 100 { 100 } else { volume as int }) * 128 / 100,
        0 <= v <= 128,
{
    let volume: i32 = if volume < 0 {
        0
    } else if volume > 100 {
        100
    } else {
        volume
    };
    volume * 128 / 100
}

} // verus!
