use bevy_ecs_animations::lifecycle::{
    all_finished, ticker_command, AnimationState, InternalAnimationState, PostTickActions,
    RemovalOptions, TickCommand,
};

fn started(repetitions: u32, paused: bool) -> InternalAnimationState {
    let mut s = InternalAnimationState::default();
    s.reset(repetitions, paused);
    s
}

#[test]
fn default_state_is_idle() {
    let s = AnimationState::default();
    assert_eq!(s.repetitions(), 1);
    assert_eq!(s.repetitions_remaining(), 0);
    assert!(!s.finished());
    assert!(!s.paused());
    let i = InternalAnimationState::default();
    assert!(!i.just_repeated);
    assert!(!i.finished());
}

#[test]
fn reset_takes_configuration() {
    let s = started(3, false);
    assert_eq!(s.state.repetitions(), 3);
    assert_eq!(s.state.repetitions_remaining(), 3);
    assert_eq!(s.state.repetition(), 1);
    assert!(!s.state.finished());
    assert!(!s.state.paused());
    assert!(s.state.can_tick());

    let p = started(2, true);
    assert!(p.state.paused());
    assert!(!p.state.can_tick());
}

#[test]
fn reset_with_zero_repetitions_is_finished() {
    let s = started(0, false);
    assert!(s.state.finished());
    assert!(!s.state.can_tick());
    assert_eq!(s.state.repetitions_remaining(), 0);
}

#[test]
fn reset_forgets_previous_progress() {
    let mut s = started(3, false);
    assert!(s.repetition_finished());
    assert!(s.just_repeated);
    s.reset(2, false);
    assert!(!s.state.finished());
    assert!(!s.just_repeated);
    assert_eq!(s.state.repetitions_remaining(), 2);
}

#[test]
fn repetitions_count_down_to_finish() {
    let mut s = started(3, false).state;
    assert_eq!(s.repetition(), 1);
    assert!(s.repetition_finished());
    assert_eq!(s.repetition(), 2);
    assert_eq!(s.repetitions_remaining(), 2);
    assert!(s.repetition_finished());
    assert_eq!(s.repetition(), 3);
    assert!(!s.finished());
    assert!(!s.repetition_finished());
    assert!(s.finished());
    assert_eq!(s.repetitions_remaining(), 0);
    assert!(!s.can_tick());
}

#[test]
fn finish_moves_to_last_repetition() {
    let mut s = started(4, false);
    s.finish();
    assert_eq!(s.state.repetitions_remaining(), 1);
    assert_eq!(s.state.repetitions(), 4);
    assert!(!s.state.finished());
    assert_eq!(s.state.repetition(), 4);
    let a = s.post_tick(true, true, RemovalOptions::Entity);
    assert!(s.state.finished());
    assert!(a.remove_tick);
    assert!(a.trigger_finished);
    assert!(a.despawn_entity);
    assert!(!a.trigger_repeated);
}

#[test]
fn finish_in_last_repetition_changes_nothing() {
    let mut s = started(1, false);
    s.finish();
    assert_eq!(s.state.repetitions_remaining(), 1);
    assert_eq!(s.state.repetition(), 1);
}

#[test]
fn finish_on_unconfigured_state_lands_in_last_repetition() {
    let mut s = InternalAnimationState::default();
    s.finish();
    assert_eq!(s.state.repetitions_remaining(), 1);
    assert_eq!(s.state.repetition(), 1);
    assert!(!s.state.finished());
    s.post_tick(true, false, RemovalOptions::Nothing);
    assert!(s.state.finished());
}

#[test]
fn finish_on_finished_animation_changes_nothing() {
    let mut s = started(1, false);
    s.post_tick(true, false, RemovalOptions::Nothing);
    s.finish();
    assert!(s.state.finished());
    assert_eq!(s.state.repetitions_remaining(), 0);
}

#[test]
fn pause_operations() {
    let mut s = started(2, false).state;
    s.pause();
    assert!(s.paused());
    assert!(!s.can_tick());
    s.pause();
    assert!(s.paused());
    s.unpause();
    assert!(!s.paused());
    assert!(s.can_tick());
    s.flip_pause();
    assert!(s.paused());
    s.flip_pause();
    assert!(!s.paused());
    assert_eq!(s.repetitions_remaining(), 2);
}

#[test]
fn finished_stays_finished_when_unpaused() {
    let mut s = started(1, true).state;
    s.unpause();
    s.repetition_finished();
    s.flip_pause();
    s.flip_pause();
    assert!(s.finished());
    assert!(!s.can_tick());
}

#[test]
fn just_repeated_reads_once() {
    let mut s = started(2, false);
    assert!(s.repetition_finished());
    assert!(s.just_repeated());
    assert!(!s.just_repeated());
}

#[test]
fn post_tick_without_finishing_tick_does_nothing() {
    let mut s = started(2, false);
    let a = s.post_tick(false, true, RemovalOptions::Component);
    assert_eq!(
        a,
        PostTickActions {
            trigger_repeated: false,
            remove_tick: false,
            trigger_finished: false,
            remove_component: false,
            despawn_entity: false,
        }
    );
    assert_eq!(s.state.repetitions_remaining(), 2);
}

#[test]
fn post_tick_repeats_then_finishes_and_removes_component() {
    let mut s = started(2, false);
    let a = s.post_tick(true, true, RemovalOptions::Component);
    assert!(a.trigger_repeated);
    assert!(!a.remove_tick);
    assert!(!a.trigger_finished);
    assert!(!a.remove_component);
    assert_eq!(s.state.repetitions_remaining(), 1);
    assert_eq!(s.state.repetition(), 2);
    let a = s.post_tick(true, true, RemovalOptions::Component);
    assert!(a.remove_tick);
    assert!(a.trigger_finished);
    assert!(a.remove_component);
    assert!(!a.despawn_entity);
    assert!(s.state.finished());
}

#[test]
fn post_tick_despawns_entity() {
    let mut s = started(1, false);
    let a = s.post_tick(true, false, RemovalOptions::Entity);
    assert_eq!(
        a,
        PostTickActions {
            trigger_repeated: false,
            remove_tick: true,
            trigger_finished: false,
            remove_component: false,
            despawn_entity: true,
        }
    );
}

#[test]
fn post_tick_remove_nothing() {
    let mut s = started(1, false);
    let a = s.post_tick(true, true, RemovalOptions::Nothing);
    assert!(a.remove_tick);
    assert!(a.trigger_finished);
    assert!(!a.remove_component);
    assert!(!a.despawn_entity);
}

#[test]
fn post_tick_reports_repetition_once() {
    let mut s = started(3, false);
    let a = s.post_tick(true, true, RemovalOptions::Nothing);
    assert!(a.trigger_repeated);
    let a = s.post_tick(false, true, RemovalOptions::Nothing);
    assert!(!a.trigger_repeated);
}

#[test]
fn post_tick_repetition_without_events_is_silent() {
    let mut s = started(3, false);
    let a = s.post_tick(true, false, RemovalOptions::Nothing);
    assert!(!a.trigger_repeated);
    assert!(!s.just_repeated);
    assert_eq!(s.state.repetitions_remaining(), 2);
}

#[test]
fn post_tick_acts_on_a_finished_animation() {
    let mut s = started(1, false);
    let a = s.post_tick(true, true, RemovalOptions::Component);
    assert!(a.trigger_finished);
    assert!(a.remove_component);

    // reset to zero repetitions while a tick is out: finished before post_tick
    let mut z = started(3, false);
    z.reset(0, false);
    let a = z.post_tick(false, true, RemovalOptions::Entity);
    assert_eq!(
        a,
        PostTickActions {
            trigger_repeated: false,
            remove_tick: true,
            trigger_finished: true,
            remove_component: false,
            despawn_entity: true,
        }
    );
}

#[test]
fn ticker_commands() {
    assert_eq!(ticker_command(true, true), TickCommand::Insert);
    assert_eq!(ticker_command(true, false), TickCommand::Insert);
    assert_eq!(ticker_command(false, true), TickCommand::Remove);
    assert_eq!(ticker_command(false, false), TickCommand::Keep);
}

#[test]
fn all_finished_over_states() {
    assert!(all_finished(&[]));
    let done = started(0, false).state;
    let running = started(1, false).state;
    assert!(all_finished(&[done, done]));
    assert!(!all_finished(&[done, running]));
    assert!(!all_finished(&[running]));
}
