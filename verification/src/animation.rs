//! Player sprite animation frames.

use vstd::prelude::*;

verus! {

/// Whether the player stands still or walks.
#[derive(Debug, Clone, Copy, PartialEq, Eq, Hash, Structural)]
pub enum PlayerAnimationState {
    Idling,
    Walking,
}

impl PlayerAnimationState {
    /// How many frames the animation of the state has.
    pub open spec fn frame_count(self) -> nat {
        match self {
            PlayerAnimationState::Idling => 1,
            PlayerAnimationState::Walking => 4,
        }
    }

    /// How long each frame of the state lasts, in milliseconds.
    pub open spec fn interval(self) -> u64 {
        match self {
            PlayerAnimationState::Idling => 500,
            PlayerAnimationState::Walking => 50,
        }
    }

    pub fn frames(self) -> (r: usize)
        ensures
            r == self.frame_count(),
    {
        match self {
            PlayerAnimationState::Idling => 1,
            PlayerAnimationState::Walking => 4,
        }
    }

    pub fn interval_millis(self) -> (r: u64)
        ensures
            r == self.interval(),
    {
        match self {
            PlayerAnimationState::Idling => 500,
            PlayerAnimationState::Walking => 50,
        }
    }
}

/// The current state of the player's animation and the frame shown in it.
#[derive(Debug, Clone, Copy, PartialEq, Eq, Structural)]
pub struct PlayerAnimation {
    frame: usize,
    state: PlayerAnimationState,
}

impl PlayerAnimation {
    #[verifier::type_invariant]
    spec fn frame_in_range(self) -> bool {
        self.frame < self.state.frame_count()
    }

    pub closed spec fn current_frame(self) -> nat {
        self.frame as nat
    }

    pub closed spec fn current_state(self) -> PlayerAnimationState {
        self.state
    }

    /// Standing still, at the first frame.
    pub fn idling() -> (r: PlayerAnimation)
        ensures
            r.current_frame() == 0,
            r.current_state() == PlayerAnimationState::Idling,
    {
        PlayerAnimation { frame: 0, state: PlayerAnimationState::Idling }
    }

    /// Walking, at the first frame.
    pub fn walking() -> (r: PlayerAnimation)
        ensures
            r.current_frame() == 0,
            r.current_state() == PlayerAnimationState::Walking,
    {
        PlayerAnimation { frame: 0, state: PlayerAnimationState::Walking }
    }

    pub fn new() -> (r: PlayerAnimation)
        ensures
            r.current_frame() == 0,
            r.current_state() == PlayerAnimationState::Idling,
    {
        PlayerAnimation::idling()
    }

    pub fn state(&self) -> (r: PlayerAnimationState)
        ensures
            r == self.current_state(),
    {
        self.state
    }

    pub fn frame(&self) -> (r: usize)
        ensures
            r == self.current_frame(),
            r < self.current_state().frame_count(),
    {
        proof {
            use_type_invariant(self);
        }
        self.frame
    }

    /// Handles a tick of the frame timer: when the timer has run out, the next
    /// frame of the cycle shows.
    pub fn update_timer(&mut self, timer_finished: bool)
        ensures
            final(self).current_state() == old(self).current_state(),
            final(self).current_frame() < final(self).current_state().frame_count(),
            timer_finished ==> final(self).current_frame() == (old(self).current_frame() + 1) as nat
                % old(self).current_state().frame_count(),
            !timer_finished ==> *final(self) == *old(self),
    {
        proof {
            use_type_invariant(&*self);
        }
        if !timer_finished {
            return;
        }
        let count = self.state.frames();
        let next = (self.frame + 1) % count;
        *self = PlayerAnimation { frame: next, state: self.state };
    }

    /// Switches to `state`, starting its animation from the first frame; a
    /// state the animation is already in changes nothing. Returns whether the
    /// animation restarted, in which case its timer restarts with the new
    /// state's interval.
    pub fn update_state(&mut self, state: PlayerAnimationState) -> (r: bool)
        ensures
            r == (old(self).current_state() != state),
            final(self).current_state() == state,
            r ==> final(self).current_frame() == 0,
            !r ==> *final(self) == *old(self),
    {
        if self.state != state {
            *self = match state {
                PlayerAnimationState::Idling => PlayerAnimation::idling(),
                PlayerAnimationState::Walking => PlayerAnimation::walking(),
            };
            true
        } else {
            false
        }
    }

    /// The index of the sprite atlas cell to show: idle frames come first,
    /// walking frames start at cell one.
    pub fn get_atlas_index(&self) -> (r: usize)
        ensures
            self.current_state() == PlayerAnimationState::Idling ==> r == self.current_frame(),
            self.current_state() == PlayerAnimationState::Walking ==> r == 1 + self.current_frame(),
    {
        proof {
            use_type_invariant(self);
        }
        match self.state {
            PlayerAnimationState::Idling => self.frame,
            PlayerAnimationState::Walking => 1 + self.frame,
        }
    }

    /// Whether a step sound plays: the frame just changed while walking, to
    /// frame two or five.
    pub fn plays_step_sound(&self, frame_changed: bool) -> (r: bool)
        ensures
            r == (self.current_state() == PlayerAnimationState::Walking && frame_changed && (
            self.current_frame() == 2 || self.current_frame() == 5)),
    {
        self.state == PlayerAnimationState::Walking && frame_changed && (self.frame == 2
            || self.frame == 5)
    }
}

} // verus!
