//! The repetition and pause bookkeeping of a running animation.
//!
//! Time itself (elapsed seconds, the last delta, the start delay) is kept by the
//! engine integration; this module owns the discrete part of the timeline: how
//! many repetitions are left, whether the animation is paused or finished, and
//! what must happen to the entity after each tick.
use vstd::prelude::*;

verus! {

/// What becomes of an animated entity once its animation has finished.
#[derive(Clone, Copy, Debug, PartialEq, Eq, Structural)]
pub enum RemovalOptions {
    /// Remove the animation component from the entity.
    Component,
    /// Despawn the whole entity.
    Entity,
    /// Leave the entity and its components alone.
    Nothing,
}

/// The discrete state of an animation. Users are free to inspect it.
#[derive(Clone, Copy, Debug)]
pub struct AnimationState {
    repetitions: u32,
    repetitions_remaining: u32,
    finished: bool,
    paused: bool,
}

/// The mathematical model of an [`AnimationState`].
pub struct AnimationStateView {
    /// Number of repetitions the animation was configured with.
    pub repetitions: u32,
    /// Repetitions that have not been completed yet.
    pub repetitions_remaining: u32,
    pub finished: bool,
    pub paused: bool,
}

impl View for AnimationState {
    type V = AnimationStateView;

    closed spec fn view(&self) -> AnimationStateView {
        AnimationStateView {
            repetitions: self.repetitions,
            repetitions_remaining: self.repetitions_remaining,
            finished: self.finished,
            paused: self.paused,
        }
    }
}

/// A state is well formed when no more repetitions remain than were configured,
/// and a finished animation has none left.
pub open spec fn state_wf(v: AnimationStateView) -> bool {
    &&& v.repetitions_remaining <= v.repetitions
    &&& v.finished ==> v.repetitions_remaining == 0
}

/// The state right after (re)starting an animation configured with
/// `repetitions` repetitions, paused or not.
pub open spec fn started(repetitions: u32, paused: bool) -> AnimationStateView {
    AnimationStateView {
        repetitions,
        repetitions_remaining: repetitions,
        finished: repetitions == 0,
        paused,
    }
}

/// The state after one repetition has run to its end.
pub open spec fn after_repetition(v: AnimationStateView) -> AnimationStateView {
    AnimationStateView {
        repetitions_remaining: (v.repetitions_remaining - 1) as u32,
        finished: v.finished || v.repetitions_remaining == 1,
        ..v
    }
}

/// The state after the animation was moved into its last repetition: an
/// animation that has not finished and has repetitions configured has exactly
/// one left; any other state is left as it was.
pub open spec fn after_finish(v: AnimationStateView) -> AnimationStateView {
    AnimationStateView {
        repetitions_remaining: if !v.finished && v.repetitions > 0 {
            1
        } else {
            v.repetitions_remaining
        },
        ..v
    }
}

/// The state after `k` repetitions have run to their end, one after the other.
pub open spec fn after_repetitions(v: AnimationStateView, k: nat) -> AnimationStateView
    decreases k,
{
    if k == 0 {
        v
    } else {
        after_repetition(after_repetitions(v, (k - 1) as nat))
    }
}

/// The 1-based number of the repetition that is running.
pub open spec fn current_repetition(v: AnimationStateView) -> int {
    v.repetitions - v.repetitions_remaining + 1
}

/// The state with its pause flag set to `paused`.
pub open spec fn with_paused(v: AnimationStateView, paused: bool) -> AnimationStateView {
    AnimationStateView { paused, ..v }
}

/// The state with its pause flag flipped.
pub open spec fn pause_flipped(v: AnimationStateView) -> AnimationStateView {
    AnimationStateView { paused: !v.paused, ..v }
}

/// Whether a state is ticked at all: paused and finished animations do nothing.
pub open spec fn ticks(v: AnimationStateView) -> bool {
    !v.paused && !v.finished
}

impl Default for AnimationState {
    /// A fresh state before any configuration was applied: one repetition
    /// configured, none remaining, neither finished nor paused.
    fn default() -> (s: AnimationState)
        ensures
            state_wf(s@),
            s@.repetitions == 1,
            s@.repetitions_remaining == 0,
            !s@.finished,
            !s@.paused,
    {
        AnimationState { repetitions: 1, repetitions_remaining: 0, finished: false, paused: false }
    }
}

impl AnimationState {
    /// Every state is well formed: no more repetitions remain than were
    /// configured, and a finished animation has none left.
    #[verifier::type_invariant]
    spec fn inv(self) -> bool {
        state_wf(self@)
    }

    /// Starts the animation over with the given repetition count and pause flag.
    pub fn reset(&mut self, repetitions: u32, paused: bool)
        ensures
            final(self)@ == started(repetitions, paused),
            state_wf(final(self)@),
    {
        *self = AnimationState {
            repetitions,
            repetitions_remaining: repetitions,
            finished: repetitions == 0,
            paused,
        };
    }

    /// Records that the running repetition reached its end. Returns whether
    /// another repetition starts (so the timeline must be rewound).
    pub fn repetition_finished(&mut self) -> (restart: bool)
        requires
            old(self)@.repetitions_remaining > 0,
        ensures
            state_wf(old(self)@),
            final(self)@ == after_repetition(old(self)@),
            state_wf(final(self)@),
            restart == !final(self)@.finished,
            restart == (final(self)@.repetitions_remaining > 0),
    {
        proof {
            use_type_invariant(&*self);
        }
        self.repetitions_remaining = self.repetitions_remaining - 1;
        if self.repetitions_remaining == 0 {
            self.finished = true;
            false
        } else {
            true
        }
    }

    /// Moves the animation into its last repetition: an unfinished animation
    /// with repetitions configured has exactly one left afterwards.
    pub fn finish(&mut self)
        ensures
            state_wf(old(self)@),
            final(self)@ == after_finish(old(self)@),
            state_wf(final(self)@),
    {
        proof {
            use_type_invariant(&*self);
        }
        if !self.finished && self.repetitions > 0 {
            self.repetitions_remaining = 1;
        }
    }

    pub fn repetitions(&self) -> (r: u32)
        ensures
            r == self@.repetitions,
            state_wf(self@),
    {
        proof {
            use_type_invariant(self);
        }
        self.repetitions
    }

    pub fn repetitions_remaining(&self) -> (r: u32)
        ensures
            r == self@.repetitions_remaining,
            state_wf(self@),
    {
        proof {
            use_type_invariant(self);
        }
        self.repetitions_remaining
    }

    /// The 1-based number of the running repetition.
    pub fn repetition(&self) -> (r: u32)
        requires
            current_repetition(self@) <= u32::MAX,
        ensures
            r == current_repetition(self@),
    {
        proof {
            use_type_invariant(self);
        }
        (self.repetitions - self.repetitions_remaining) + 1
    }

    pub fn finished(&self) -> (r: bool)
        ensures
            r == self@.finished,
    {
        self.finished
    }

    pub fn paused(&self) -> (r: bool)
        ensures
            r == self@.paused,
    {
        self.paused
    }

    /// Whether the animation takes part in the next tick.
    pub fn can_tick(&self) -> (r: bool)
        ensures
            r == ticks(self@),
    {
        !self.paused && !self.finished
    }

    pub fn pause(&mut self)
        ensures
            final(self)@ == with_paused(old(self)@, true),
    {
        proof {
            use_type_invariant(&*self);
        }
        self.paused = true;
    }

    pub fn unpause(&mut self)
        ensures
            final(self)@ == with_paused(old(self)@, false),
    {
        proof {
            use_type_invariant(&*self);
        }
        self.paused = false;
    }

    pub fn flip_pause(&mut self)
        ensures
            final(self)@ == pause_flipped(old(self)@),
    {
        proof {
            use_type_invariant(&*self);
        }
        self.paused = !self.paused;
    }
}

/// What the engine must do for an entity once its tick system has run.
#[derive(Clone, Copy, Debug, PartialEq, Eq, Structural)]
pub struct PostTickActions {
    /// Notify observers that a new repetition started.
    pub trigger_repeated: bool,
    /// The animation is over: stop handing out ticks.
    pub remove_tick: bool,
    /// Notify observers that the animation finished.
    pub trigger_finished: bool,
    /// Remove the animation component from the entity.
    pub remove_component: bool,
    /// Despawn the entity.
    pub despawn_entity: bool,
}

/// The actions owed after a tick, given whether a new repetition started,
/// whether the animation is finished, and the event and removal settings.
pub open spec fn post_tick_actions(
    repeated: bool,
    finished: bool,
    events: bool,
    removal: RemovalOptions,
) -> PostTickActions {
    PostTickActions {
        trigger_repeated: repeated && events,
        remove_tick: finished,
        trigger_finished: finished && events,
        remove_component: finished && removal == RemovalOptions::Component,
        despawn_entity: finished && removal == RemovalOptions::Entity,
    }
}

/// The state and the actions after one post-tick step on a state `v` whose
/// repeated flag is `just_repeated`.
pub open spec fn post_tick_outcome(
    v: AnimationStateView,
    just_repeated: bool,
    tick_finished: bool,
    events: bool,
    removal: RemovalOptions,
) -> (AnimationStateView, PostTickActions) {
    let next = if tick_finished {
        after_repetition(v)
    } else {
        v
    };
    (
        next,
        post_tick_actions(
            (tick_finished && !next.finished) || just_repeated,
            next.finished,
            events,
            removal,
        ),
    )
}

/// What the ticker does with an entity's tick component.
#[derive(Clone, Copy, Debug, PartialEq, Eq, Structural)]
pub enum TickCommand {
    /// Insert (or replace) the tick component with the fresh tick.
    Insert,
    /// Remove the stale tick component.
    Remove,
    /// Nothing to do.
    Keep,
}

/// The ticker's decision: a fresh tick is always inserted; without one, a tick
/// left over from an earlier frame is removed.
pub fn ticker_command(ticked: bool, has_tick: bool) -> (c: TickCommand)
    ensures
        ticked ==> c == TickCommand::Insert,
        !ticked && has_tick ==> c == TickCommand::Remove,
        !ticked && !has_tick ==> c == TickCommand::Keep,
{
    if ticked {
        TickCommand::Insert
    } else if has_tick {
        TickCommand::Remove
    } else {
        TickCommand::Keep
    }
}

/// The per-entity bookkeeping behind an animation: its public state and
/// whether a repetition has just begun.
#[derive(Clone, Copy, Debug)]
pub struct InternalAnimationState {
    pub state: AnimationState,
    /// Set when a new repetition has started and nobody has read it yet.
    pub just_repeated: bool,
}

impl InternalAnimationState {
    pub fn finished(&self) -> (r: bool)
        ensures
            r == self.state@.finished,
    {
        self.state.finished()
    }

    /// Reads and clears the flag telling whether a repetition just started.
    pub fn just_repeated(&mut self) -> (r: bool)
        ensures
            r == old(self).just_repeated,
            !final(self).just_repeated,
            final(self).state@ == old(self).state@,
    {
        let r = self.just_repeated;
        self.just_repeated = false;
        r
    }

    /// Starts the animation over from its configuration.
    pub fn reset(&mut self, repetitions: u32, paused: bool)
        ensures
            final(self).state@ == started(repetitions, paused),
            !final(self).just_repeated,
    {
        self.just_repeated = false;
        self.state.reset(repetitions, paused);
    }

    /// Moves the animation into its last repetition.
    pub fn finish(&mut self)
        ensures
            final(self).state@ == after_finish(old(self).state@),
            final(self).just_repeated == old(self).just_repeated,
    {
        self.state.finish();
    }

    /// Records that the running repetition reached its end, and raises the
    /// repeated flag when another repetition starts. Returns whether one does.
    pub fn repetition_finished(&mut self) -> (restart: bool)
        requires
            old(self).state@.repetitions_remaining > 0,
        ensures
            final(self).state@ == after_repetition(old(self).state@),
            restart == !final(self).state@.finished,
            final(self).just_repeated == (old(self).just_repeated || restart),
    {
        let restart = self.state.repetition_finished();
        if restart {
            self.just_repeated = true;
        }
        restart
    }

    /// The bookkeeping after the tick system ran: a finishing tick completes a
    /// repetition, the repeated flag is raised when another one starts and is
    /// then consumed, and the returned actions say which events to send and
    /// what to remove.
    pub fn post_tick(&mut self, tick_finished: bool, events: bool, removal: RemovalOptions) -> (a:
        PostTickActions)
        requires
            tick_finished ==> old(self).state@.repetitions_remaining > 0,
        ensures
            (final(self).state@, a) == post_tick_outcome(
                old(self).state@,
                old(self).just_repeated,
                tick_finished,
                events,
                removal,
            ),
            !final(self).just_repeated,
    {
        if tick_finished {
            self.repetition_finished();
        }
        let repeated = self.just_repeated();
        let finished = self.state.finished();
        PostTickActions {
            trigger_repeated: repeated && events,
            remove_tick: finished,
            trigger_finished: finished && events,
            remove_component: finished && removal == RemovalOptions::Component,
            despawn_entity: finished && removal == RemovalOptions::Entity,
        }
    }
}

impl Default for InternalAnimationState {
    fn default() -> (s: InternalAnimationState)
        ensures
            s.state@.repetitions == 1,
            s.state@.repetitions_remaining == 0,
            !s.state@.finished,
            !s.state@.paused,
            !s.just_repeated,
    {
        InternalAnimationState { state: AnimationState::default(), just_repeated: false }
    }
}

/// Whether every animation in `states` has finished.
pub fn all_finished(states: &[AnimationState]) -> (r: bool)
    ensures
        r == (forall|i: int| 0 <= i < states@.len() ==> (#[trigger] states@[i])@.finished),
{
    let mut i: usize = 0;
    while i < states.len()
        invariant
            i <= states@.len(),
            forall|j: int| 0 <= j < i ==> (#[trigger] states@[j])@.finished,
        decreases states@.len() - i,
    {
        if !states[i].finished() {
            return false;
        }
        i = i + 1;
    }
    true
}

} // verus!
