//! Macro configuration: the ordered list of (key, delay) steps, the optional
//! hotkey, and the armed flag. Owned and edited by the surrounding
//! application; the dispatch loop only reads a snapshot per trigger.

use vstd::prelude::*;

use crate::input::LogicalInput;

verus! {

/// One playback step: `key` is pressed (or released, in the release phase)
/// `delay_ms` milliseconds after the trigger instant. Zero means immediate.
#[derive(Debug, Clone, Copy, PartialEq, Eq, Structural)]
pub struct MacroStep {
    pub key: LogicalInput,
    pub delay_ms: u64,
}

/// The configured macro: its steps, the hotkey that triggers playback, and
/// whether a hotkey press currently triggers anything at all.
#[derive(Debug)]
pub struct MacroConfiguration {
    pub steps: Vec<MacroStep>,
    pub hotkey: Option<LogicalInput>,
    pub armed: bool,
}

impl MacroConfiguration {
    /// An empty configuration: no steps, no hotkey, disarmed.
    pub fn new() -> (r: MacroConfiguration)
        ensures
            r.steps@ == Seq::<MacroStep>::empty(),
            r.hotkey is None,
            !r.armed,
    {
        MacroConfiguration { steps: Vec::new(), hotkey: None, armed: false }
    }

    /// The currently configured hotkey, if any.
    pub fn get_hotkey(&self) -> (r: Option<LogicalInput>)
        ensures
            r == self.hotkey,
    {
        self.hotkey
    }

    /// Whether a hotkey press triggers playback.
    pub fn is_armed(&self) -> (r: bool)
        ensures
            r == self.armed,
    {
        self.armed
    }

    /// A snapshot copy of the step list, in configured order.
    pub fn get_steps(&self) -> (r: Vec<MacroStep>)
        ensures
            r@ == self.steps@,
    {
        let mut r: Vec<MacroStep> = Vec::new();
        let mut i: usize = 0;
        while i < self.steps.len()
            invariant
                i <= self.steps.len(),
                r@ == self.steps@.subrange(0, i as int),
            decreases self.steps.len() - i,
        {
            r.push(self.steps[i]);
            proof {
                assert(r@ =~= self.steps@.subrange(0, i as int + 1));
            }
            i = i + 1;
        }
        proof {
            assert(r@ =~= self.steps@);
        }
        r
    }

    /// Replaces the hotkey.
    pub fn set_hotkey(&mut self, hotkey: Option<LogicalInput>)
        ensures
            final(self).hotkey == hotkey,
            final(self).steps@ == old(self).steps@,
            final(self).armed == old(self).armed,
    {
        self.hotkey = hotkey;
    }

    /// Arms or disarms the macro.
    pub fn set_armed(&mut self, armed: bool)
        ensures
            final(self).armed == armed,
            final(self).steps@ == old(self).steps@,
            final(self).hotkey == old(self).hotkey,
    {
        self.armed = armed;
    }

    /// Appends a step at the end of the list.
    pub fn add_step(&mut self, step: MacroStep)
        ensures
            final(self).steps@ == old(self).steps@.push(step),
            final(self).hotkey == old(self).hotkey,
            final(self).armed == old(self).armed,
    {
        self.steps.push(step);
    }

    /// Removes the first step equal to `target`, if one exists; reports
    /// whether anything was removed. Steps other than the removed one keep
    /// their relative order.
    pub fn remove_first_match(&mut self, target: MacroStep) -> (removed: bool)
        ensures
            removed <==> exists|i: int|
                0 <= i < old(self).steps@.len() && old(self).steps@[i] == target,
            removed ==> exists|i: int|
                {
                    &&& 0 <= i < old(self).steps@.len()
                    &&& old(self).steps@[i] == target
                    &&& forall|j: int| 0 <= j < i ==> old(self).steps@[j] != target
                    &&& final(self).steps@ == old(self).steps@.remove(i)
                },
            !removed ==> final(self).steps@ == old(self).steps@,
            final(self).hotkey == old(self).hotkey,
            final(self).armed == old(self).armed,
    {
        let mut i: usize = 0;
        while i < self.steps.len()
            invariant
                i <= self.steps.len(),
                *self == *old(self),
                forall|j: int| 0 <= j < i ==> self.steps@[j] != target,
            decreases self.steps.len() - i,
        {
            if self.steps[i] == target {
                self.steps.remove(i);
                return true;
            }
            i = i + 1;
        }
        false
    }
}

} // verus!
