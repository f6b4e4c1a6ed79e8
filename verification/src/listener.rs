//! Raw input listener: normalizes raw device notifications into the logical
//! event stream the dispatch loop consumes. The OS hook itself lives in the
//! surrounding application (it is a process-wide registration that only the
//! native layer can make); it hands every notification here as plain values,
//! and this module decodes and queues them so that `next` yields the events
//! one at a time, in arrival order, with no reordering and no coalescing.

use vstd::prelude::*;

use crate::input::{DeviceClass, InputTransition, LogicalInput};

verus! {

/// The release bit of a raw keyboard notification's flag word: set when the
/// key came up, clear when it went down.
pub const KEY_BREAK_FLAG: u16 = 1;

/// Mouse buttons carried by a raw mouse notification, numbered 1 through 5.
pub const MOUSE_BUTTON_COUNT: u16 = 5;

/// One raw device notification, as the native layer reports it: a keyboard
/// key with its virtual code and flag word, or a mouse notification with the
/// button-transition bitfield (two bits per button: down, then up).
#[derive(Debug, Clone, Copy, PartialEq, Eq, Structural)]
pub enum RawEvent {
    Keyboard { vkey: u16, flags: u16 },
    Mouse { button_flags: u16 },
}

/// The down-transition bit of mouse button `button` (1-based).
pub open spec fn spec_mouse_down_mask(button: u16) -> u16 {
    1u16 << ((2 * (button - 1)) as u16)
}

/// The up-transition bit of mouse button `button` (1-based): the bit right
/// above the button's down bit.
pub open spec fn spec_mouse_up_mask(button: u16) -> u16 {
    1u16 << ((2 * (button - 1) + 1) as u16)
}

/// The logical events a raw mouse bitfield carries for buttons `button`
/// through `MOUSE_BUTTON_COUNT`, in button order, a press before a release of
/// the same button.
pub open spec fn spec_mouse_events_from(button_flags: u16, button: u16) -> Seq<(
    LogicalInput,
    InputTransition,
)>
    decreases MOUSE_BUTTON_COUNT + 1 - button when button <= MOUSE_BUTTON_COUNT + 1
{
    if button > MOUSE_BUTTON_COUNT {
        Seq::empty()
    } else {
        let downs: Seq<(LogicalInput, InputTransition)> = if button_flags & spec_mouse_down_mask(
            button,
        ) != 0 {
            seq![
                (
                    LogicalInput { class: DeviceClass::Mouse, code: button },
                    InputTransition::Pressed,
                ),
            ]
        } else {
            Seq::empty()
        };
        let ups: Seq<(LogicalInput, InputTransition)> = if button_flags & spec_mouse_up_mask(
            button,
        ) != 0 {
            seq![
                (
                    LogicalInput { class: DeviceClass::Mouse, code: button },
                    InputTransition::Released,
                ),
            ]
        } else {
            Seq::empty()
        };
        downs + ups + spec_mouse_events_from(button_flags, (button + 1) as u16)
    }
}

/// The logical events one raw notification decodes to: a keyboard
/// notification is exactly one event, pressed unless its release bit is set;
/// a mouse notification yields one event per transition bit, in button order.
pub open spec fn spec_decode(raw: RawEvent) -> Seq<(LogicalInput, InputTransition)> {
    match raw {
        RawEvent::Keyboard { vkey, flags } => seq![
            (
                LogicalInput { class: DeviceClass::Keyboard, code: vkey },
                if flags & KEY_BREAK_FLAG != 0 {
                    InputTransition::Released
                } else {
                    InputTransition::Pressed
                },
            ),
        ],
        RawEvent::Mouse { button_flags } => spec_mouse_events_from(button_flags, 1),
    }
}

/// The whole logical stream a sequence of raw notifications decodes to, in
/// arrival order.
pub open spec fn spec_decode_all(raws: Seq<RawEvent>) -> Seq<(LogicalInput, InputTransition)>
    decreases raws.len()
{
    if raws.len() == 0 {
        Seq::empty()
    } else {
        spec_decode_all(raws.drop_last()) + spec_decode(raws.last())
    }
}

/// Decoding a concatenation of raw notifications is the concatenation of the
/// decoded streams: arrival order survives decoding, so feeding notifications
/// one by one and feeding them as one burst yield the same logical stream.
pub proof fn lemma_decode_all_append(a: Seq<RawEvent>, b: Seq<RawEvent>)
    ensures
        spec_decode_all(a + b) == spec_decode_all(a) + spec_decode_all(b),
    decreases b.len(),
{
    if b.len() == 0 {
        assert(a + b =~= a);
        assert(spec_decode_all(a) + spec_decode_all(b) =~= spec_decode_all(a));
    } else {
        lemma_decode_all_append(a, b.drop_last());
        assert((a + b).drop_last() =~= a + b.drop_last());
        assert((a + b).last() == b.last());
        assert(spec_decode_all(a) + spec_decode_all(b.drop_last()) + spec_decode(b.last())
            =~= spec_decode_all(a) + spec_decode_all(b));
    }
}

/// Decodes one raw mouse bitfield into its logical events, in button order.
fn decode_mouse(button_flags: u16) -> (events: Vec<(LogicalInput, InputTransition)>)
    ensures
        events@ == spec_mouse_events_from(button_flags, 1),
{
    let mut events: Vec<(LogicalInput, InputTransition)> = Vec::new();
    let mut button: u16 = 1;
    while button <= MOUSE_BUTTON_COUNT
        invariant
            1 <= button <= MOUSE_BUTTON_COUNT + 1,
            events@ + spec_mouse_events_from(button_flags, button) == spec_mouse_events_from(
                button_flags,
                1,
            ),
        decreases MOUSE_BUTTON_COUNT + 1 - button,
    {
        let ghost events_before = events@;
        let down_mask: u16 = 1u16 << (2 * (button - 1));
        let up_mask: u16 = 1u16 << (2 * (button - 1) + 1);
        if button_flags & down_mask != 0 {
            events.push((LogicalInput::mouse(button), InputTransition::Pressed));
        }
        if button_flags & up_mask != 0 {
            events.push((LogicalInput::mouse(button), InputTransition::Released));
        }
        proof {
            assert(down_mask == spec_mouse_down_mask(button));
            assert(up_mask == spec_mouse_up_mask(button));
            assert(events@ + spec_mouse_events_from(button_flags, (button + 1) as u16)
                =~= events_before + spec_mouse_events_from(button_flags, button));
        }
        button = button + 1;
    }
    proof {
        assert(spec_mouse_events_from(button_flags, (MOUSE_BUTTON_COUNT + 1) as u16)
            =~= Seq::<(LogicalInput, InputTransition)>::empty());
        assert(events@ =~= events@ + spec_mouse_events_from(button_flags, button));
    }
    events
}

/// Decodes one raw notification into its logical events, in order.
pub fn decode_raw(raw: RawEvent) -> (events: Vec<(LogicalInput, InputTransition)>)
    ensures
        events@ == spec_decode(raw),
{
    match raw {
        RawEvent::Keyboard { vkey, flags } => {
            let transition = if flags & KEY_BREAK_FLAG != 0 {
                InputTransition::Released
            } else {
                InputTransition::Pressed
            };
            let mut events: Vec<(LogicalInput, InputTransition)> = Vec::new();
            events.push((LogicalInput::keyboard(vkey), transition));
            proof {
                assert(events@ =~= spec_decode(raw));
            }
            events
        },
        RawEvent::Mouse { button_flags } => decode_mouse(button_flags),
    }
}

/// Why a listener could not be built: the process-wide hook registration the
/// native layer attempted was refused (a permission or driver problem).
/// Surfaced at construction and not retried; capture then stays unavailable
/// rather than silently partial.
#[derive(Debug, Clone, Copy, PartialEq, Eq, Structural)]
pub enum CaptureInitError {
    HookRegistrationFailed,
}

/// The listener's stream state: the decoded events that have arrived and not
/// yet been consumed, oldest first. Exactly one consumer reads `next` at a
/// time; the native hook feeds `push_raw` for the listener's whole lifetime.
#[derive(Debug)]
pub struct Listener {
    queue: Vec<(LogicalInput, InputTransition)>,
}

impl View for Listener {
    type V = Seq<(LogicalInput, InputTransition)>;

    closed spec fn view(&self) -> Seq<(LogicalInput, InputTransition)> {
        self.queue@
    }
}

impl Listener {
    /// A listener with nothing pending. The surrounding application
    /// constructs one only once its process-wide hook registration has
    /// succeeded; if registration fails it reports that and never builds a
    /// listener, rather than degrade to partial capture.
    pub fn new() -> (r: Listener)
        ensures
            r@ == Seq::<(LogicalInput, InputTransition)>::empty(),
    {
        let queue: Vec<(LogicalInput, InputTransition)> = Vec::new();
        let r = Listener { queue };
        proof {
            assert(r@ =~= Seq::<(LogicalInput, InputTransition)>::empty());
        }
        r
    }

    /// Takes one raw notification from the hook: its decoded events join the
    /// pending stream at the end, after everything that arrived earlier —
    /// delivery order is kept exactly, and rapid repeats are all kept.
    pub fn push_raw(&mut self, raw: RawEvent)
        ensures
            final(self)@ == old(self)@ + spec_decode(raw),
    {
        let mut events = decode_raw(raw);
        self.queue.append(&mut events);
    }

    /// Yields the oldest pending event, or nothing while the stream is empty
    /// (the application's capture loop blocks on the hook in that case, then
    /// pushes and asks again).
    pub fn next(&mut self) -> (r: Option<(LogicalInput, InputTransition)>)
        ensures
            old(self)@.len() == 0 ==> r is None && final(self)@ == old(self)@,
            old(self)@.len() > 0 ==> {
                &&& r == Some(old(self)@[0])
                &&& final(self)@ == old(self)@.drop_first()
            },
    {
        if self.queue.len() == 0 {
            None
        } else {
            let event = self.queue.remove(0);
            proof {
                assert(self.queue@ =~= old(self)@.drop_first());
            }
            Some(event)
        }
    }

    /// Feeds a whole burst of raw notifications, oldest first: the pending
    /// stream grows by exactly the burst's decoded events, in arrival order.
    pub fn push_all(&mut self, raws: &Vec<RawEvent>)
        ensures
            final(self)@ == old(self)@ + spec_decode_all(raws@),
    {
        let mut i: usize = 0;
        while i < raws.len()
            invariant
                i <= raws.len(),
                self@ == old(self)@ + spec_decode_all(raws@.subrange(0, i as int)),
            decreases raws.len() - i,
        {
            self.push_raw(raws[i]);
            proof {
                let fed = raws@.subrange(0, i as int);
                let one = raws@.subrange(i as int, i as int + 1);
                lemma_decode_all_append(fed, one);
                assert(fed + one =~= raws@.subrange(0, i as int + 1));
                assert(one.drop_last() =~= Seq::<RawEvent>::empty());
                assert(spec_decode_all(Seq::<RawEvent>::empty()) == Seq::<(
                    LogicalInput,
                    InputTransition,
                )>::empty());
                assert(spec_decode_all(one) =~= spec_decode(raws@[i as int]));
                assert(self@ =~= old(self)@ + spec_decode_all(raws@.subrange(0, i as int + 1)));
            }
            i = i + 1;
        }
        proof {
            assert(raws@.subrange(0, raws@.len() as int) =~= raws@);
        }
    }

    /// Empties the pending stream: every event that was fed and not yet
    /// consumed comes out, in exactly the order it arrived, none coalesced —
    /// fed a simulated burst from empty, this returns precisely its decoding.
    pub fn drain_all(&mut self) -> (events: Vec<(LogicalInput, InputTransition)>)
        ensures
            events@ == old(self)@,
            final(self)@ == Seq::<(LogicalInput, InputTransition)>::empty(),
    {
        let mut events: Vec<(LogicalInput, InputTransition)> = Vec::new();
        loop
            invariant
                events@ + self@ == old(self)@,
            decreases self@.len(),
        {
            match self.next() {
                Some(event) => {
                    events.push(event);
                    proof {
                        assert(events@ + self@ =~= old(self)@);
                    }
                },
                None => {
                    proof {
                        assert(events@ =~= old(self)@);
                    }
                    return events;
                },
            }
        }
    }

    /// Builds the listener from the outcome of the native layer's one
    /// process-wide hook registration: a listener exactly when registration
    /// succeeded, the construction-time error exactly when it did not —
    /// failing fast rather than degrading to partial capture.
    pub fn from_hook_registration(registered: bool) -> (r: Result<Listener, CaptureInitError>)
        ensures
            registered ==> (r matches Ok(l) && l@ == Seq::<(
                LogicalInput,
                InputTransition,
            )>::empty()),
            !registered ==> r == Result::<Listener, CaptureInitError>::Err(
                CaptureInitError::HookRegistrationFailed,
            ),
    {
        if registered {
            Ok(Listener::new())
        } else {
            Err(CaptureInitError::HookRegistrationFailed)
        }
    }

    /// How many events are pending.
    pub fn pending(&self) -> (n: usize)
        ensures
            n == self@.len(),
    {
        self.queue.len()
    }
}

} // verus!
