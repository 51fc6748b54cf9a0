//! Properties of the animation lifecycle that span several operations.
use vstd::prelude::*;

use crate::lifecycle::{
    after_finish, after_repetition, after_repetitions, current_repetition, pause_flipped, post_tick_actions,
    post_tick_outcome,
    started, state_wf, ticks, with_paused, AnimationStateView, RemovalOptions,
};

verus! {

/// An animation started with `repetitions` repetitions counts them down one by
/// one: after `k` completed repetitions, `repetitions - k` remain, the running
/// repetition is number `k + 1`, and the animation is finished exactly when all
/// of them have completed.
pub proof fn lemma_repetitions_count_down(repetitions: u32, paused: bool, k: nat)
    requires
        k <= repetitions,
    ensures
        state_wf(after_repetitions(started(repetitions, paused), k)),
        after_repetitions(started(repetitions, paused), k).repetitions_remaining == repetitions - k,
        after_repetitions(started(repetitions, paused), k).repetitions == repetitions,
        after_repetitions(started(repetitions, paused), k).paused == paused,
        after_repetitions(started(repetitions, paused), k).finished <==> k == repetitions,
        k < repetitions ==> current_repetition(after_repetitions(started(repetitions, paused), k))
            == k + 1,
    decreases k,
{
    if k > 0 {
        lemma_repetitions_count_down(repetitions, paused, (k - 1) as nat);
    }
}

/// While an animation is well formed and not past its last repetition, the
/// number of the running repetition lies between 1 and the configured count.
pub proof fn lemma_repetition_in_range(v: AnimationStateView)
    requires
        state_wf(v),
        v.repetitions_remaining > 0,
    ensures
        1 <= current_repetition(v) <= v.repetitions,
{
}

/// Ticked to the end of each repetition in turn, an animation started with
/// `repetitions > 0` repetitions announces a new repetition after every
/// repetition but the last (when events are on), and asks for its tick to be
/// removed, its finish to be announced and its removal to be carried out after
/// the last one, and not before.
pub proof fn lemma_post_ticks_over_all_repetitions(
    repetitions: u32,
    paused: bool,
    k: nat,
    events: bool,
    removal: RemovalOptions,
)
    requires
        1 <= k <= repetitions,
    ensures
        ({
            let before = after_repetitions(started(repetitions, paused), (k - 1) as nat);
            let after = after_repetitions(started(repetitions, paused), k);
            let a = post_tick_actions(!after.finished, after.finished, events, removal);
            &&& after == after_repetition(before)
            &&& before.repetitions_remaining > 0
            &&& a.trigger_repeated <==> (k < repetitions && events)
            &&& a.remove_tick <==> k == repetitions
            &&& a.trigger_finished <==> (k == repetitions && events)
            &&& a.remove_component <==> (k == repetitions && removal == RemovalOptions::Component)
            &&& a.despawn_entity <==> (k == repetitions && removal == RemovalOptions::Entity)
        }),
{
    lemma_repetitions_count_down(repetitions, paused, k);
    lemma_repetitions_count_down(repetitions, paused, (k - 1) as nat);
}

/// Finishing an animation that has a repetition left moves it into its last
/// repetition without finishing it; the next tick that reaches the end of the
/// repetition is admitted and finishes the animation, announcing the finish
/// when events are on and asking for no repetition event.
pub proof fn lemma_finish_then_last_tick(
    v: AnimationStateView,
    events: bool,
    removal: RemovalOptions,
)
    requires
        state_wf(v),
        v.repetitions_remaining > 0,
    ensures
        state_wf(after_finish(v)),
        after_finish(v).repetitions_remaining == 1,
        !after_finish(v).finished,
        current_repetition(after_finish(v)) == v.repetitions,
        after_repetition(after_finish(v)).finished,
        state_wf(after_repetition(after_finish(v))),
        ({
            let a = post_tick_actions(false, true, events, removal);
            &&& a.remove_tick
            &&& a.trigger_finished == events
            &&& !a.trigger_repeated
        }),
{
}

/// Finishing leaves a finished animation as it was.
pub proof fn lemma_finish_keeps_finished(v: AnimationStateView)
    requires
        state_wf(v),
        v.finished,
    ensures
        after_finish(v) == v,
{
}

/// Completing a repetition keeps a state well formed.
pub proof fn lemma_repetition_keeps_wf(v: AnimationStateView)
    requires
        state_wf(v),
        v.repetitions_remaining > 0,
    ensures
        state_wf(after_repetition(v)),
        after_repetition(v).repetitions_remaining == v.repetitions_remaining - 1,
{
}

/// Flipping the pause flag twice gives back the state one started with.
pub proof fn lemma_flip_pause_twice(v: AnimationStateView)
    ensures
        pause_flipped(pause_flipped(v)) == v,
{
}

/// Pausing and unpausing are idempotent, the last one wins, and neither
/// touches the repetition progress.
pub proof fn lemma_pause_last_wins(v: AnimationStateView, first: bool, second: bool)
    ensures
        with_paused(with_paused(v, first), second) == with_paused(v, second),
        with_paused(v, first).repetitions_remaining == v.repetitions_remaining,
        with_paused(v, first).finished == v.finished,
        pause_flipped(v).repetitions_remaining == v.repetitions_remaining,
        pause_flipped(v).finished == v.finished,
{
}

/// A paused or finished animation is not ticked; an unpaused one that has not
/// finished is.
pub proof fn lemma_ticks_iff_running(v: AnimationStateView)
    ensures
        ticks(v) <==> (!v.paused && !v.finished),
        ticks(with_paused(v, true)) == false,
        ticks(with_paused(v, false)) == !v.finished,
{
}

/// A finished animation stays finished whatever is done to its pause flag,
/// and has no repetition left to complete.
pub proof fn lemma_finished_stays_finished(v: AnimationStateView, paused: bool)
    requires
        state_wf(v),
        v.finished,
    ensures
        with_paused(v, paused).finished,
        pause_flipped(v).finished,
        v.repetitions_remaining == 0,
        !ticks(v),
{
}

/// Restarting is the same whatever the state was before: the result depends on
/// the configuration alone.
pub proof fn lemma_reset_forgets_history(repetitions: u32, paused: bool)
    ensures
        state_wf(started(repetitions, paused)),
        started(repetitions, paused).finished <==> repetitions == 0,
        ticks(started(repetitions, paused)) <==> (!paused && repetitions > 0),
{
}

/// After a tick, observers hear of a finish, and the entity is removed or
/// despawned as configured, exactly when the animation is finished; a finished
/// animation loses its tick; events are only sent when they were asked for;
/// and at most one kind of removal happens.
pub proof fn lemma_post_tick_actions(
    repeated: bool,
    finished: bool,
    events: bool,
    removal: RemovalOptions,
)
    ensures
        ({
            let a = post_tick_actions(repeated, finished, events, removal);
            &&& a.remove_tick == finished
            &&& a.trigger_finished == (finished && events)
            &&& a.remove_component == (finished && removal == RemovalOptions::Component)
            &&& a.despawn_entity == (finished && removal == RemovalOptions::Entity)
            &&& !events ==> !a.trigger_finished && !a.trigger_repeated
            &&& !(a.remove_component && a.despawn_entity)
            &&& removal == RemovalOptions::Nothing ==> !a.remove_component && !a.despawn_entity
        }),
{
}

/// Finishing an animation that was never configured (as the default state is)
/// also lands in its last repetition, so the next tick that reaches the end of
/// the repetition is admitted and finishes it.
pub proof fn lemma_finish_unconfigured(v: AnimationStateView)
    requires
        state_wf(v),
        !v.finished,
        v.repetitions > 0,
    ensures
        after_finish(v).repetitions_remaining == 1,
        current_repetition(after_finish(v)) == v.repetitions,
        after_repetition(after_finish(v)).finished,
{
}

/// Starting an animation configures exactly the given repetitions, all still
/// to run, runs the first of them, is finished only when there are none, and
/// takes the given pause flag.
pub proof fn lemma_start_fields(repetitions: u32, paused: bool)
    ensures
        started(repetitions, paused).repetitions == repetitions,
        started(repetitions, paused).repetitions_remaining == repetitions,
        started(repetitions, paused).finished == (repetitions == 0),
        started(repetitions, paused).paused == paused,
        repetitions > 0 ==> current_repetition(started(repetitions, paused)) == 1,
{
}

/// Completing a repetition of a well-formed state that has one left takes
/// exactly one repetition off, finishes the animation exactly when that was
/// the last one, moves on to the next repetition number otherwise, and keeps
/// the configured count and the pause flag.
pub proof fn lemma_repetition_fields(v: AnimationStateView)
    requires
        state_wf(v),
        v.repetitions_remaining > 0,
    ensures
        after_repetition(v).repetitions == v.repetitions,
        after_repetition(v).repetitions_remaining + 1 == v.repetitions_remaining,
        after_repetition(v).finished == (v.repetitions_remaining == 1),
        after_repetition(v).paused == v.paused,
        !after_repetition(v).finished ==> current_repetition(after_repetition(v))
            == current_repetition(v) + 1,
{
}

/// Finishing leaves the pause flag, the finished flag and the configured count
/// alone, and changes the remaining repetitions only to put an unfinished,
/// configured animation into its last one; so a running animation keeps
/// ticking after it is finished this way.
pub proof fn lemma_finish_fields(v: AnimationStateView)
    ensures
        after_finish(v).paused == v.paused,
        after_finish(v).finished == v.finished,
        after_finish(v).repetitions == v.repetitions,
        !v.finished && v.repetitions > 0 ==> after_finish(v).repetitions_remaining == 1,
        v.finished || v.repetitions == 0 ==> after_finish(v).repetitions_remaining
            == v.repetitions_remaining,
        !v.paused && !v.finished ==> ticks(after_finish(v)),
{
}

/// Pausing or unpausing sets the pause flag to the given value and changes
/// nothing else.
pub proof fn lemma_set_pause_fields(v: AnimationStateView, paused: bool)
    ensures
        with_paused(v, paused).paused == paused,
        with_paused(v, paused).repetitions == v.repetitions,
        with_paused(v, paused).repetitions_remaining == v.repetitions_remaining,
        with_paused(v, paused).finished == v.finished,
        current_repetition(with_paused(v, paused)) == current_repetition(v),
{
}

/// Flipping the pause flag negates it in every state and changes nothing
/// else.
pub proof fn lemma_flip_pause_fields(v: AnimationStateView)
    ensures
        pause_flipped(v).paused == !v.paused,
        pause_flipped(v).repetitions == v.repetitions,
        pause_flipped(v).repetitions_remaining == v.repetitions_remaining,
        pause_flipped(v).finished == v.finished,
{
}

/// A repetition is announced exactly when one has just started and events are
/// on, whatever the removal setting; the remaining actions are owed exactly
/// when the animation is finished.
pub proof fn lemma_post_tick_action_fields(
    repeated: bool,
    finished: bool,
    events: bool,
    removal: RemovalOptions,
)
    ensures
        post_tick_actions(repeated, finished, events, removal).trigger_repeated == (repeated
            && events),
        !repeated ==> !post_tick_actions(repeated, finished, events, removal).trigger_repeated,
{
}

/// One post-tick step on a well-formed state. A tick that does not reach the
/// end of a repetition leaves the state as it was and announces a repetition
/// only if one was pending. A tick that ends a repetition which is not the
/// last starts the next one: one repetition fewer, not finished, announced when
/// events are on, nothing removed. A tick that ends the last repetition
/// finishes the animation, announces the finish when events are on, removes
/// the tick, and removes or despawns as configured.
pub proof fn lemma_post_tick_step(
    v: AnimationStateView,
    just_repeated: bool,
    tick_finished: bool,
    events: bool,
    removal: RemovalOptions,
)
    requires
        state_wf(v),
        tick_finished ==> v.repetitions_remaining > 0,
    ensures
        ({
            let (next, a) = post_tick_outcome(v, just_repeated, tick_finished, events, removal);
            &&& !tick_finished ==> {
                &&& next == v
                &&& a.trigger_repeated == (just_repeated && events)
                &&& a.remove_tick == v.finished
                &&& a.trigger_finished == (v.finished && events)
                &&& a.remove_component == (v.finished && removal == RemovalOptions::Component)
                &&& a.despawn_entity == (v.finished && removal == RemovalOptions::Entity)
            }
            &&& tick_finished && v.repetitions_remaining >= 2 ==> {
                &&& next.repetitions == v.repetitions
                &&& next.repetitions_remaining + 1 == v.repetitions_remaining
                &&& !next.finished
                &&& next.paused == v.paused
                &&& a.trigger_repeated == events
                &&& !a.remove_tick && !a.trigger_finished
                &&& !a.remove_component && !a.despawn_entity
            }
            &&& tick_finished && v.repetitions_remaining == 1 ==> {
                &&& next.repetitions == v.repetitions
                &&& next.repetitions_remaining == 0
                &&& next.finished
                &&& next.paused == v.paused
                &&& a.trigger_repeated == (just_repeated && events)
                &&& a.remove_tick
                &&& a.trigger_finished == events
                &&& a.remove_component == (removal == RemovalOptions::Component)
                &&& a.despawn_entity == (removal == RemovalOptions::Entity)
            }
        }),
{
}

} // verus!
