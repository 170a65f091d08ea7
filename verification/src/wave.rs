//! Wave progression: each time the wave timer runs out, the next wave begins
//! after the monster-buff choice.

use vstd::prelude::*;

use crate::menus::Menu;

verus! {

/// The number of the wave being played, starting at one.
#[derive(Debug, Clone, Copy, PartialEq, Eq, Structural)]
pub struct WaveState {
    pub current_wave: u32,
}

impl Default for WaveState {
    fn default() -> (r: WaveState)
        ensures
            r.current_wave == 1,
    {
        WaveState { current_wave: 1 }
    }
}

impl WaveState {
    /// Handles one tick of the wave timer. When the timer has just run out,
    /// the wave number goes up by one and the game pauses on the returned
    /// menu, the monster-buff choice; otherwise nothing changes.
    pub fn advance_wave_timer(&mut self, timer_just_finished: bool) -> (r: Option<Menu>)
        requires
            timer_just_finished ==> old(self).current_wave < u32::MAX,
        ensures
            timer_just_finished ==> r == Some(Menu::MonsterBuff) && final(self).current_wave == old(
                self,
            ).current_wave + 1,
            !timer_just_finished ==> r is None && *final(self) == *old(self),
    {
        if !timer_just_finished {
            return None;
        }
        self.current_wave = self.current_wave + 1;
        Some(Menu::MonsterBuff)
    }
}

} // verus!
