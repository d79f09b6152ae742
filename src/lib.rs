//! Rules of a small arcade game: the player pops growing blobs ("injects")
//! before a wave meter runs dry, moving between a menu, the game and a
//! game-over screen. Every quantity is fixed-point (see `fixed::ONE`).
use vstd::prelude::*;

pub mod fixed;
pub mod game_state;
pub mod inject;
pub mod meter;
mod random;
pub mod tween;
pub mod waves;

verus! {

} // verus!
