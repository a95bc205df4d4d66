use vstd::prelude::*;

verus! {

use crate::step::{hail, hail_spec, unhail, unhail_spec};

/// The magnitude of a 16-bit value, as a natural number.
pub open spec fn magnitude(x: i16) -> nat {
    if x >= 0 {
        x as nat
    } else {
        (-x) as nat
    }
}

/// One step in the direction that the sign of `counter` selects: forward for
/// a positive count, backward otherwise.
pub open spec fn step_spec(n: i16, counter: i16) -> i16 {
    if counter > 0 {
        hail_spec(n)
    } else {
        unhail_spec(n)
    }
}

/// What the driver asks its caller to do next.
#[derive(Clone, Copy, Debug, PartialEq, Eq, Structural)]
pub enum Action {
    /// Print this freshly computed value.
    Emit(i16),
    /// A pass has ended and another one begins; nothing to print.
    Repeat,
    /// The run is over.
    Stop,
}

/// The abstract state of a [`Driver`].
pub ghost struct DriverView {
    pub value: i16,
    pub counter: i16,
    pub loop_mode: bool,
    /// Steps taken in the current pass.
    pub taken: nat,
}

/// The decisions of a run: from a start value and a signed iteration count,
/// one step per call, pass after pass when looping.
pub struct Driver {
    value: i16,
    counter: i16,
    loop_mode: bool,
    taken: u16,
}

impl View for Driver {
    type V = DriverView;

    closed spec fn view(&self) -> DriverView {
        DriverView {
            value: self.value,
            counter: self.counter,
            loop_mode: self.loop_mode,
            taken: self.taken as nat,
        }
    }
}

impl Driver {
    /// The current pass never runs past its length.
    pub open spec fn wf(&self) -> bool {
        self@.taken <= magnitude(self@.counter)
    }

    /// A driver at `start`, before the first step.
    pub fn new(start: i16, counter: i16, loop_mode: bool) -> (r: Driver)
        ensures
            r.wf(),
            r@ == (DriverView { value: start, counter, loop_mode, taken: 0 }),
    {
        Driver { value: start, counter, loop_mode, taken: 0 }
    }

    /// The value reached so far.
    pub fn value(&self) -> (r: i16)
        ensures
            r == self@.value,
    {
        self.value
    }

    /// Advances the run by one decision. Within a pass it takes one step and
    /// emits the new value; at the end of a pass it starts the next one in
    /// loop mode, and stops otherwise.
    pub fn next(&mut self) -> (r: Action)
        requires
            old(self).wf(),
        ensures
            final(self).wf(),
            final(self)@.counter == old(self)@.counter,
            final(self)@.loop_mode == old(self)@.loop_mode,
            old(self)@.taken < magnitude(old(self)@.counter) ==> {
                &&& final(self)@.value == step_spec(old(self)@.value, old(self)@.counter)
                &&& final(self)@.taken == old(self)@.taken + 1
                &&& r == Action::Emit(final(self)@.value)
            },
            old(self)@.taken == magnitude(old(self)@.counter) && old(self)@.loop_mode ==> {
                &&& final(self)@.value == old(self)@.value
                &&& final(self)@.taken == 0
                &&& r == Action::Repeat
            },
            old(self)@.taken == magnitude(old(self)@.counter) && !old(self)@.loop_mode ==> {
                &&& final(self)@ == old(self)@
                &&& r == Action::Stop
            },
    {
        if self.taken < pass_length(self.counter) {
            self.value = if self.counter > 0 {
                hail(self.value)
            } else {
                unhail(self.value)
            };
            self.taken = self.taken + 1;
            Action::Emit(self.value)
        } else if self.loop_mode {
            self.taken = 0;
            Action::Repeat
        } else {
            Action::Stop
        }
    }
}

/// The number of steps in one pass for a signed iteration count.
pub fn pass_length(counter: i16) -> (r: u16)
    ensures
        r == magnitude(counter),
{
    if counter >= 0 {
        counter as u16
    } else {
        (-(counter as i32)) as u16
    }
}

/// The length of the bar drawn beside a value in verbose output: the
/// value's magnitude.
pub fn bar_length(v: i16) -> (r: u16)
    ensures
        r == magnitude(v),
{
    pass_length(v)
}

} // verus!
