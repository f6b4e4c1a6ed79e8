//! Hotkey match and dispatch decisions. The surrounding application owns the
//! blocking capture loop; each event it receives is handed to the step
//! function here, which decides everything — whether the event triggers
//! playback, which records to schedule, when the loop stops — so the loop
//! body itself carries no logic of its own.

use vstd::prelude::*;

use crate::config::{MacroConfiguration, MacroStep};
use crate::input::{InputTransition, LogicalInput};
use crate::scheduler::{
    batch_matches, delays_fit, schedule_batch, PendingInjection, JITTER_MAX_MS,
};

verus! {

/// A press of `key` triggers playback exactly when the configuration is
/// armed and `key` is the configured hotkey. Releases never trigger, an
/// unarmed or hotkey-less configuration never triggers, and a non-matching
/// key never triggers — each of those is a defined no-op, not an error.
pub open spec fn is_trigger(
    config: MacroConfiguration,
    key: LogicalInput,
    transition: InputTransition,
) -> bool {
    &&& transition is Pressed
    &&& config.armed
    &&& config.hotkey == Some(key)
}

/// `batch` is the full playback of `steps` triggered at `trigger_instant_ms`:
/// a press-phase record per step followed by a release-phase record per step,
/// all scheduled independently from the one trigger.
pub open spec fn full_playback(
    batch: Seq<PendingInjection>,
    steps: Seq<MacroStep>,
    trigger_instant_ms: u64,
) -> bool {
    &&& batch.len() == 2 * steps.len()
    &&& batch_matches(
        batch.subrange(0, steps.len() as int),
        steps,
        InputTransition::Pressed,
        trigger_instant_ms,
    )
    &&& batch_matches(
        batch.subrange(steps.len() as int, 2 * steps.len() as int),
        steps,
        InputTransition::Released,
        trigger_instant_ms,
    )
}

/// Handles one event of the listener's stream: on a triggering press it
/// schedules the press phase and then the release phase of the current step
/// snapshot and returns all the records; on anything else it returns none.
/// The configuration is only read — a non-match changes no state at all.
pub fn handle_event(
    config: &MacroConfiguration,
    key: LogicalInput,
    transition: InputTransition,
    now_ms: u64,
    rng: &mut rand::rngs::SmallRng,
) -> (batch: Vec<PendingInjection>)
    requires
        delays_fit(config.steps@, now_ms),
    ensures
        is_trigger(*config, key, transition) ==> full_playback(batch@, config.steps@, now_ms),
        !is_trigger(*config, key, transition) ==> batch@ == Seq::<PendingInjection>::empty(),
{
    let triggered = match (transition, config.get_hotkey()) {
        (InputTransition::Pressed, Some(hotkey)) => config.is_armed() && hotkey == key,
        _ => false,
    };
    if triggered {
        let steps = config.get_steps();
        let mut batch = schedule_batch(&steps, InputTransition::Pressed, now_ms, rng);
        let mut releases = schedule_batch(&steps, InputTransition::Released, now_ms, rng);
        let ghost presses = batch@;
        batch.append(&mut releases);
        proof {
            assert(batch@.subrange(0, steps@.len() as int) =~= presses);
            assert(batch@.subrange(steps@.len() as int, 2 * steps@.len() as int)
                =~= batch@.skip(steps@.len() as int));
        }
        batch
    } else {
        let batch: Vec<PendingInjection> = Vec::new();
        proof {
            assert(batch@ =~= Seq::<PendingInjection>::empty());
        }
        batch
    }
}

/// What one turn of the dispatch loop does next: keep consuming, scheduling
/// the given records first, or stop because the listener's stream ended.
#[derive(Debug)]
pub enum LoopOutcome {
    Continue(Vec<PendingInjection>),
    Stop,
}

/// One turn of the dispatch loop. `event` is what the listener's `next`
/// yielded: `None` means the stream ended and the loop must stop (the caller
/// surfaces that, it does not crash); any event keeps the loop running, with
/// a triggering press scheduling a full playback and everything else a no-op.
pub fn dispatch_loop_step(
    config: &MacroConfiguration,
    event: Option<(LogicalInput, InputTransition)>,
    now_ms: u64,
    rng: &mut rand::rngs::SmallRng,
) -> (r: LoopOutcome)
    requires
        delays_fit(config.steps@, now_ms),
    ensures
        event is None ==> r is Stop,
        event matches Some(e) ==> r matches LoopOutcome::Continue(batch) && {
            &&& is_trigger(*config, e.0, e.1) ==> full_playback(batch@, config.steps@, now_ms)
            &&& !is_trigger(*config, e.0, e.1) ==> batch@ == Seq::<PendingInjection>::empty()
        },
{
    match event {
        None => LoopOutcome::Stop,
        Some((key, transition)) => LoopOutcome::Continue(
            handle_event(config, key, transition, now_ms, rng),
        ),
    }
}

/// Where the next press event goes while the surrounding application lets
/// the user rebind keys: at most one of the two picking modes owns the next
/// event, and plain dispatch owns it otherwise, so the binding widgets and
/// the dispatch loop never silently steal events from each other.
#[derive(Debug, Clone, Copy, PartialEq, Eq, Structural)]
pub struct BindingMode {
    pub pick_hotkey: bool,
    pub pick_macro_key: bool,
}

/// The single owner of one press event under a binding mode.
#[derive(Debug, Clone, Copy, PartialEq, Eq, Structural)]
pub enum EventRoute {
    BindHotkey(LogicalInput),
    BindMacroKey(LogicalInput),
    Dispatch(LogicalInput),
}

/// Routes one press event to its single consumer: the hotkey picker if it is
/// waiting (and its wait ends), else the macro-key picker if it is waiting
/// (likewise), else the dispatch loop. Exactly one route is taken, and a
/// picker's wait is cleared by the very event it consumes.
pub fn route_press(mode: &mut BindingMode, key: LogicalInput) -> (r: EventRoute)
    ensures
        old(mode).pick_hotkey ==> {
            &&& r == EventRoute::BindHotkey(key)
            &&& !final(mode).pick_hotkey
            &&& final(mode).pick_macro_key == old(mode).pick_macro_key
        },
        !old(mode).pick_hotkey && old(mode).pick_macro_key ==> {
            &&& r == EventRoute::BindMacroKey(key)
            &&& !final(mode).pick_macro_key
            &&& !final(mode).pick_hotkey
        },
        !old(mode).pick_hotkey && !old(mode).pick_macro_key ==> {
            &&& r == EventRoute::Dispatch(key)
            &&& *final(mode) == *old(mode)
        },
{
    if mode.pick_hotkey {
        mode.pick_hotkey = false;
        EventRoute::BindHotkey(key)
    } else if mode.pick_macro_key {
        mode.pick_macro_key = false;
        EventRoute::BindMacroKey(key)
    } else {
        EventRoute::Dispatch(key)
    }
}

/// Press/release pairing: in a full playback of `steps`, step `i`'s press
/// record stands at position `i` and its release record at position
/// `steps.len() + i`. Both carry the step's key, and each is due at the
/// step's own delay offset, within the jitter window, in its own phase — all
/// scheduled independently from the one trigger.
pub proof fn lemma_press_release_pairing(
    batch: Seq<PendingInjection>,
    steps: Seq<MacroStep>,
    trigger_instant_ms: u64,
    i: int,
)
    requires
        full_playback(batch, steps, trigger_instant_ms),
        0 <= i < steps.len(),
    ensures
        batch[i].key == steps[i].key,
        batch[i].direction is Pressed,
        trigger_instant_ms + steps[i].delay_ms <= batch[i].fire_at_ms < trigger_instant_ms
            + steps[i].delay_ms + JITTER_MAX_MS,
        batch[steps.len() + i].key == steps[i].key,
        batch[steps.len() + i].direction is Released,
        trigger_instant_ms + steps[i].delay_ms <= batch[steps.len() + i].fire_at_ms
            < trigger_instant_ms + steps[i].delay_ms + JITTER_MAX_MS,
{
    assert(batch.subrange(0, steps.len() as int)[i] == batch[i]);
    assert(batch.subrange(steps.len() as int, 2 * steps.len() as int)[i] == batch[
        steps.len() + i
    ]);
}

/// Two triggers in quick succession — the second arriving before any of the
/// first's records has fired — schedule two complete, independent playbacks:
/// together they hold exactly two press and two release records per step
/// (`4 · |steps|` in all), and each batch meets its own per-step key,
/// direction and jitter-window obligations relative to its own trigger
/// instant, untouched by the other batch.
pub proof fn lemma_reentrant_triggers(
    first: Seq<PendingInjection>,
    second: Seq<PendingInjection>,
    steps: Seq<MacroStep>,
    first_trigger_ms: u64,
    second_trigger_ms: u64,
)
    requires
        full_playback(first, steps, first_trigger_ms),
        full_playback(second, steps, second_trigger_ms),
    ensures
        first.len() + second.len() == 4 * steps.len(),
        full_playback((first + second).subrange(0, first.len() as int), steps, first_trigger_ms),
        full_playback(
            (first + second).subrange(first.len() as int, (first.len() + second.len()) as int),
            steps,
            second_trigger_ms,
        ),
{
    assert((first + second).subrange(0, first.len() as int) =~= first);
    assert((first + second).subrange(first.len() as int, (first.len() + second.len()) as int)
        =~= second);
}

} // verus!
