//! The player marker and its sprite animation state machine.

use vstd::prelude::*;

use crate::time::Timer;
use crate::word::WordTileEventKind;

verus! {

/// Marker for the player-controlled actor.
pub struct Player;

/// Which sprite animation the player is showing.
#[derive(Clone, Copy, Debug, PartialEq, Eq, Structural)]
pub enum PlayerAnimation {
    Idle,
    SwingAnticipation,
    SwingAnticipationIdle,
    Swing,
    SwingFast,
}

impl Default for PlayerAnimation {
    fn default() -> (r: PlayerAnimation)
        ensures
            r == PlayerAnimation::Idle,
    {
        PlayerAnimation::Idle
    }
}

impl PlayerAnimation {
    pub open spec fn len_spec(self) -> usize {
        match self {
            PlayerAnimation::Idle => 5usize,
            PlayerAnimation::SwingAnticipation => 3usize,
            PlayerAnimation::SwingAnticipationIdle => 4usize,
            PlayerAnimation::Swing => 5usize,
            PlayerAnimation::SwingFast => 3usize,
        }
    }

    /// Number of frames in this animation.
    pub fn len(&self) -> (n: usize)
        ensures
            n == self.len_spec(),
            n >= 1,
    {
        match self {
            PlayerAnimation::Idle => 5,
            PlayerAnimation::SwingAnticipation => 3,
            PlayerAnimation::SwingAnticipationIdle => 4,
            PlayerAnimation::Swing => 5,
            PlayerAnimation::SwingFast => 3,
        }
    }

    pub open spec fn frame_base_duration_spec(self, frame: usize) -> u64 {
        match self {
            PlayerAnimation::Swing => if frame == 0 {
                90u64
            } else {
                60u64
            },
            PlayerAnimation::SwingFast => 80u64,
            _ => 100u64,
        }
    }

    /// How long the given frame is shown, in milliseconds.
    pub fn frame_base_duration_ms(&self, frame: usize) -> (d: u64)
        ensures
            d == self.frame_base_duration_spec(frame),
            1 <= d <= 100,
    {
        match self {
            PlayerAnimation::Swing => {
                if frame == 0 {
                    90
                } else {
                    60
                }
            },
            PlayerAnimation::SwingFast => 80,
            _ => 100,
        }
    }

    /// Whether this animation loops in place.
    pub fn is_idle(&self) -> (r: bool)
        ensures
            r == (*self == PlayerAnimation::Idle || *self == PlayerAnimation::SwingAnticipationIdle),
    {
        match self {
            PlayerAnimation::Idle | PlayerAnimation::SwingAnticipationIdle => true,
            _ => false,
        }
    }

    /// The animation a word-tile event switches the player to: starting a
    /// word winds up the swing, finishing one (or the whole tile) swings.
    pub fn on_word_event(kind: &WordTileEventKind) -> (r: Option<PlayerAnimation>)
        ensures
            r == match *kind {
                WordTileEventKind::WordStarted => Some(PlayerAnimation::SwingAnticipation),
                WordTileEventKind::WordFinished(_) => Some(PlayerAnimation::Swing),
                WordTileEventKind::TileFinished { .. } => Some(PlayerAnimation::Swing),
                WordTileEventKind::WordAdvanced => None::<PlayerAnimation>,
            },
    {
        match kind {
            WordTileEventKind::WordStarted => Some(PlayerAnimation::SwingAnticipation),
            WordTileEventKind::WordFinished(_) | WordTileEventKind::TileFinished { .. } => Some(
                PlayerAnimation::Swing,
            ),
            WordTileEventKind::WordAdvanced => None,
        }
    }

    /// The animation and frame after one frame tick: frames cycle, and a
    /// one-shot animation that wraps falls back to its idle form.
    pub open spec fn advance_frame_spec(self, frame: usize) -> (PlayerAnimation, usize) {
        let next = ((frame + 1) as usize) as int % self.len_spec() as int;
        if next == 0 && !(self == PlayerAnimation::Idle || self
            == PlayerAnimation::SwingAnticipationIdle) {
            if self == PlayerAnimation::SwingAnticipation {
                (PlayerAnimation::SwingAnticipationIdle, next as usize)
            } else {
                (PlayerAnimation::Idle, next as usize)
            }
        } else {
            (self, next as usize)
        }
    }

    /// Steps to the next frame when the frame timer fires.
    pub fn advance_frame(&mut self, frame: &mut usize)
        requires
            *old(frame) < old(self).len_spec(),
        ensures
            (*final(self), *final(frame)) == old(self).advance_frame_spec(*old(frame)),
            *final(frame) < final(self).len_spec(),
    {
        let len = self.len();
        let next: usize = (*frame + 1) % len;
        *frame = next;
        if next == 0 && !self.is_idle() {
            if *self == PlayerAnimation::SwingAnticipation {
                *self = PlayerAnimation::SwingAnticipationIdle;
            } else {
                *self = PlayerAnimation::Idle;
            }
        }
    }
}

/// Drives the frame stepping of the player's current animation.
pub struct AnimationTimer(pub Timer);

} // verus!
