//! Countdown timers and cooldown components.
//!
//! Durations are integer milliseconds. A `Timer` either runs once and
//! stays finished, or repeats by wrapping its elapsed time.

use vstd::prelude::*;

verus! {

/// Largest duration and tick the timers accept, in milliseconds.
pub const DURATION_LIMIT_MS: u64 = 1_000_000_000_000;

#[derive(Clone, Copy, Debug, PartialEq, Eq, Structural)]
pub enum TimerMode {
    Once,
    Repeating,
}

/// What happens to the owning entity when a `Cooldown` expires.
#[derive(Clone, Copy, Debug, PartialEq, Eq, Structural)]
pub enum CooldownAction {
    RemoveComponent,
    DespawnRecursive,
}

#[derive(Clone, Copy, Debug, PartialEq, Eq, Structural)]
pub struct Timer {
    pub duration_ms: u64,
    pub elapsed_ms: u64,
    pub mode: TimerMode,
    pub just_finished: bool,
}

impl Timer {
    pub open spec fn wf(self) -> bool {
        &&& 1 <= self.duration_ms <= DURATION_LIMIT_MS
        &&& match self.mode {
            TimerMode::Once => self.elapsed_ms <= self.duration_ms,
            TimerMode::Repeating => self.elapsed_ms < self.duration_ms,
        }
    }

    pub fn new(duration_ms: u64, mode: TimerMode) -> (t: Timer)
        requires
            1 <= duration_ms <= DURATION_LIMIT_MS,
        ensures
            t.wf(),
            t == (Timer { duration_ms, elapsed_ms: 0, mode, just_finished: false }),
    {
        Timer { duration_ms, elapsed_ms: 0, mode, just_finished: false }
    }

    /// Advances the timer. A once-timer saturates at its duration and
    /// reports the tick on which it crossed it; a repeating timer wraps
    /// and reports every crossing.
    pub fn tick(&mut self, delta_ms: u64)
        requires
            old(self).wf(),
            delta_ms <= DURATION_LIMIT_MS,
        ensures
            final(self).wf(),
            final(self).duration_ms == old(self).duration_ms,
            final(self).mode == old(self).mode,
            old(self).mode == TimerMode::Once ==> {
                &&& final(self).elapsed_ms == if old(self).elapsed_ms + delta_ms >= old(
                    self,
                ).duration_ms {
                    old(self).duration_ms as int
                } else {
                    old(self).elapsed_ms + delta_ms
                }
                &&& final(self).just_finished == (old(self).elapsed_ms < old(self).duration_ms
                    && old(self).elapsed_ms + delta_ms >= old(self).duration_ms)
            },
            old(self).mode == TimerMode::Repeating ==> {
                &&& final(self).elapsed_ms == (old(self).elapsed_ms + delta_ms) % (old(
                    self,
                ).duration_ms as int)
                &&& final(self).just_finished == (old(self).elapsed_ms + delta_ms >= old(
                    self,
                ).duration_ms)
            },
    {
        let total: u64 = self.elapsed_ms + delta_ms;
        match self.mode {
            TimerMode::Once => {
                if total >= self.duration_ms {
                    self.just_finished = self.elapsed_ms < self.duration_ms;
                    self.elapsed_ms = self.duration_ms;
                } else {
                    self.just_finished = false;
                    self.elapsed_ms = total;
                }
            },
            TimerMode::Repeating => {
                if total >= self.duration_ms {
                    self.just_finished = true;
                    self.elapsed_ms = total % self.duration_ms;
                } else {
                    proof {
                        vstd::arithmetic::div_mod::lemma_small_mod(
                            total as nat,
                            self.duration_ms as nat,
                        );
                    }
                    self.just_finished = false;
                    self.elapsed_ms = total;
                }
            },
        }
    }

    pub fn just_finished(&self) -> (r: bool)
        ensures
            r == self.just_finished,
    {
        self.just_finished
    }

    /// Whether the timer has reached its duration (for a repeating timer,
    /// whether it crossed it on the last tick).
    pub fn finished(&self) -> (r: bool)
        ensures
            r == match self.mode {
                TimerMode::Once => self.elapsed_ms >= self.duration_ms,
                TimerMode::Repeating => self.just_finished,
            },
    {
        match self.mode {
            TimerMode::Once => self.elapsed_ms >= self.duration_ms,
            TimerMode::Repeating => self.just_finished,
        }
    }

    pub fn reset(&mut self)
        requires
            old(self).wf(),
        ensures
            *final(self) == (Timer {
                elapsed_ms: 0,
                just_finished: false,
                ..*old(self)
            }),
            final(self).wf(),
    {
        self.elapsed_ms = 0;
        self.just_finished = false;
    }

    pub fn set_duration(&mut self, duration_ms: u64)
        requires
            old(self).wf(),
            1 <= duration_ms <= DURATION_LIMIT_MS,
            old(self).elapsed_ms <= duration_ms,
            old(self).mode == TimerMode::Repeating ==> old(self).elapsed_ms < duration_ms,
        ensures
            *final(self) == (Timer { duration_ms, ..*old(self) }),
            final(self).wf(),
    {
        self.duration_ms = duration_ms;
    }
}

/// A one-shot countdown attached to an entity, with an optional action to
/// perform on the entity when it expires.
#[derive(Clone, Copy, Debug, PartialEq, Eq, Structural)]
pub struct Cooldown {
    pub timer: Timer,
    pub action: Option<CooldownAction>,
}

impl Cooldown {
    pub open spec fn wf(self) -> bool {
        &&& self.timer.wf()
        &&& self.timer.mode == TimerMode::Once
    }

    pub fn new(duration_ms: u64) -> (c: Cooldown)
        requires
            1 <= duration_ms <= DURATION_LIMIT_MS,
        ensures
            c.wf(),
            c.timer.duration_ms == duration_ms,
            c.timer.elapsed_ms == 0,
            c.action is None,
    {
        Cooldown { timer: Timer::new(duration_ms, TimerMode::Once), action: None }
    }

    /// Marks the cooldown to strip its subject component on expiry.
    pub fn remove_component(self) -> (c: Cooldown)
        ensures
            c == (Cooldown { action: Some(CooldownAction::RemoveComponent), ..self }),
    {
        Cooldown { action: Some(CooldownAction::RemoveComponent), ..self }
    }

    /// Marks the cooldown to despawn its entity on expiry.
    pub fn despawn(self) -> (c: Cooldown)
        ensures
            c == (Cooldown { action: Some(CooldownAction::DespawnRecursive), ..self }),
    {
        Cooldown { action: Some(CooldownAction::DespawnRecursive), ..self }
    }
}

/// Advances a cooldown by one frame. Returns `Some` exactly on the tick
/// the countdown expires, carrying the action the host must then apply to
/// the entity (besides dropping the cooldown itself); `Some(None)` means
/// only the cooldown is dropped.
pub fn tick_cooldown(cooldown: &mut Cooldown, delta_ms: u64) -> (fired: Option<
    Option<CooldownAction>,
>)
    requires
        old(cooldown).wf(),
        delta_ms <= DURATION_LIMIT_MS,
    ensures
        final(cooldown).wf(),
        final(cooldown).action == old(cooldown).action,
        final(cooldown).timer.duration_ms == old(cooldown).timer.duration_ms,
        final(cooldown).timer.elapsed_ms == if old(cooldown).timer.elapsed_ms + delta_ms >= old(
            cooldown,
        ).timer.duration_ms {
            old(cooldown).timer.duration_ms as int
        } else {
            old(cooldown).timer.elapsed_ms + delta_ms
        },
        fired is Some <==> (old(cooldown).timer.elapsed_ms < old(cooldown).timer.duration_ms && old(
            cooldown,
        ).timer.elapsed_ms + delta_ms >= old(cooldown).timer.duration_ms),
        fired is Some ==> fired == Some(old(cooldown).action),
{
    cooldown.timer.tick(delta_ms);
    if cooldown.timer.just_finished() {
        Some(cooldown.action)
    } else {
        None
    }
}

} // verus!
