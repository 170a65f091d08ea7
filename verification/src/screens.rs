//! The game's main screen states.

use vstd::prelude::*;

verus! {

/// The game's main screen states.
#[derive(Debug, Clone, Copy, PartialEq, Eq, Hash, Default, Structural)]
pub enum Screen {
    #[default]
    Splash,
    Title,
    Loading,
    Gameplay,
}

} // verus!
