use vstd::prelude::*;

verus! {

/// The shader programs of the game.
#[derive(Clone, Copy, PartialEq, Eq, Hash, Structural, Debug)]
pub enum ShaderType {
    BitmapStringShader,
    FrameShader,
    MonsterShader,
    LivesShader,
    ShipShader,
    SimpleShader,
    UfoShader,
}

} // verus!
