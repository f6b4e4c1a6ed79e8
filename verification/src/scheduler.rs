//! Delayed-injection scheduler: turns a step list and a direction into one
//! pending-injection record per step, each due at the trigger instant plus
//! the step's delay plus a small random jitter. The surrounding application
//! runs an independent timer per record and submits the OS injection call
//! when the record is due; nothing here blocks or orders the firings.

use vstd::prelude::*;

use crate::config::MacroStep;
use crate::input::{InputTransition, LogicalInput};

verus! {

/// Upper bound (exclusive) on the random jitter, in milliseconds, added to
/// every scheduled firing so that steps sharing a delay do not fire with
/// perfectly periodic, robotic timing.
pub const JITTER_MAX_MS: u64 = 20;

/// The OS flag value that marks an injected keyboard event as a release
/// (the key-up flag of the native synthesis call); press events carry no flag.
pub const RELEASE_FLAG: u32 = 2;

/// One scheduled firing: `key` is injected with `direction` once the clock
/// reaches `fire_at_ms` (milliseconds on the same clock as the trigger
/// instant). Created at trigger time, owned by exactly one timed task, and
/// discarded right after its injection is submitted.
#[derive(Debug, Clone, Copy, PartialEq, Eq, Structural)]
pub struct PendingInjection {
    pub key: LogicalInput,
    pub direction: InputTransition,
    pub fire_at_ms: u64,
}

/// The two plain values the OS synthesis call takes for one injection: the
/// virtual code and the event flags.
#[derive(Debug, Clone, Copy, PartialEq, Eq, Structural)]
pub struct InjectionCall {
    pub virtual_code: u16,
    pub flags: u32,
}

/// Relies on rand's `rand::rngs::SmallRng`, the small fast generator the
/// jitter is drawn from. Opaque here and carried through by value: the caller
/// builds it (seeded for reproducible runs, from entropy otherwise) and hands
/// it in explicitly, so no hidden global generator takes part.
#[verifier::external_type_specification]
#[verifier::external_body]
pub struct ExSmallRng(rand::rngs::SmallRng);

/// Relies on rand's `Rng::gen_range` on the half-open range `0..bound`: the
/// sample lies below `bound`. The call panics only on an empty range, which
/// `bound > 0` rules out. Nothing more is promised of the value: it may
/// differ between two calls on equal arguments.
#[verifier::external_body]
fn sample_below(rng: &mut rand::rngs::SmallRng, bound: u64) -> (r: u64)
    requires
        bound > 0,
    ensures
        r < bound,
{
    rand::Rng::gen_range(rng, 0..bound)
}

/// Every step's worst-case fire time (trigger instant plus delay plus the
/// largest jitter) fits in the 64-bit millisecond clock.
pub open spec fn delays_fit(steps: Seq<MacroStep>, trigger_instant_ms: u64) -> bool {
    forall|i: int|
        0 <= i < steps.len() ==> trigger_instant_ms + (#[trigger] steps[i]).delay_ms
            + JITTER_MAX_MS <= u64::MAX
}

/// `batch` schedules `steps` for `direction` from `trigger_instant_ms`:
/// exactly one record per step, in step order, each carrying that step's key
/// and the common direction, and each due within the jitter window
/// `[trigger + delay, trigger + delay + JITTER_MAX_MS)`.
pub open spec fn batch_matches(
    batch: Seq<PendingInjection>,
    steps: Seq<MacroStep>,
    direction: InputTransition,
    trigger_instant_ms: u64,
) -> bool {
    &&& batch.len() == steps.len()
    &&& forall|i: int|
        0 <= i < steps.len() ==> (#[trigger] batch[i]).key == steps[i].key
    &&& forall|i: int|
        0 <= i < steps.len() ==> (#[trigger] batch[i]).direction == direction
    &&& forall|i: int|
        0 <= i < steps.len() ==> trigger_instant_ms + steps[i].delay_ms
            <= (#[trigger] batch[i]).fire_at_ms
            < trigger_instant_ms + steps[i].delay_ms + JITTER_MAX_MS
}

/// Schedules one direction of a playback batch: one independently timed
/// record per step, each due at the trigger instant plus the step's delay
/// plus a jitter drawn fresh from `rng` (never re-rolled afterwards). The
/// records are returned rather than fired; the caller hands each to its own
/// timer, so this never blocks and never orders the steps against each other.
pub fn schedule_batch(
    steps: &Vec<MacroStep>,
    direction: InputTransition,
    trigger_instant_ms: u64,
    rng: &mut rand::rngs::SmallRng,
) -> (batch: Vec<PendingInjection>)
    requires
        delays_fit(steps@, trigger_instant_ms),
    ensures
        batch_matches(batch@, steps@, direction, trigger_instant_ms),
{
    let mut batch: Vec<PendingInjection> = Vec::new();
    let mut i: usize = 0;
    while i < steps.len()
        invariant
            i <= steps.len(),
            delays_fit(steps@, trigger_instant_ms),
            batch_matches(batch@, steps@.subrange(0, i as int), direction, trigger_instant_ms),
        decreases steps.len() - i,
    {
        let step = steps[i];
        let jitter = sample_below(rng, JITTER_MAX_MS);
        let fire_at_ms = trigger_instant_ms + step.delay_ms + jitter;
        batch.push(PendingInjection { key: step.key, direction, fire_at_ms });
        proof {
            assert(steps@.subrange(0, i as int + 1) =~= steps@.subrange(0, i as int).push(
                steps@[i as int],
            ));
        }
        i = i + 1;
    }
    proof {
        assert(steps@.subrange(0, steps@.len() as int) =~= steps@);
    }
    batch
}

/// The plain values of the OS call that synthesizes one event: the key's
/// virtual code, and the release flag exactly when the direction is a
/// release. The application builds the native input record from these and
/// submits it; a rejected submission is logged and dropped there, never
/// surfaced past the scheduler.
pub fn injection_params(key: LogicalInput, direction: InputTransition) -> (r: InjectionCall)
    ensures
        r.virtual_code == key.code,
        direction is Released ==> r.flags == RELEASE_FLAG,
        direction is Pressed ==> r.flags == 0,
{
    let flags: u32 = match direction {
        InputTransition::Pressed => 0,
        InputTransition::Released => RELEASE_FLAG,
    };
    InjectionCall { virtual_code: key.virtual_code(), flags }
}

} // verus!
