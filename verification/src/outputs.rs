//! The lines between the driver and the panel.
//!
//! The driver never touches hardware itself. It asks an [`Outputs`] value to drive
//! one line high or low, or to let some time pass, and stops at the first refusal.
//! What was asked, in which order and with which outcome is the whole observable
//! behaviour of the driver. The driver therefore reaches the lines through
//! [`Logged`], which keeps a log of it as ghost state, and the driver's contracts
//! are statements about how that log grows.

use vstd::prelude::*;

verus! {

/// The fourteen lines of the panel connector.
#[derive(Clone, Copy, Debug, PartialEq, Eq, Structural)]
pub enum Line {
    /// Red of the upper half.
    R1,
    /// Green of the upper half.
    G1,
    /// Blue of the upper half.
    B1,
    /// Red of the lower half.
    R2,
    /// Green of the lower half.
    G2,
    /// Blue of the lower half.
    B2,
    /// Row address, bit 0.
    A,
    /// Row address, bit 1.
    B,
    /// Row address, bit 2.
    C,
    /// Row address, bit 3.
    D,
    /// Row address, bit 4; only panels with 32 row addresses have it.
    F,
    /// Shift clock: a rising edge takes the six colour lines into the shift register.
    Clk,
    /// Latch: moves the shift register to the row drivers.
    Lat,
    /// Output enable, active low: high blanks the panel.
    Oe,
}

/// One thing the driver asks for.
#[derive(Clone, Copy, Debug, PartialEq, Eq, Structural)]
pub enum Action {
    /// Drive a line high (`true`) or low (`false`).
    Drive(Line, bool),
    /// Let at least this many microseconds pass.
    DelayUs(u32),
}

/// An action together with how it ended.
pub struct Attempt<E> {
    pub action: Action,
    pub result: Result<(), E>,
}

/// The way to the panel's lines: what a board has to offer so that the driver
/// can work on it.
///
/// `drive` reports a line that cannot be driven through `Err`. Nothing else is
/// asked of an implementation, and the driver relies on nothing else.
pub trait Outputs {
    /// Why a line could not be driven.
    type Error;

    /// Drives `line` high or low.
    fn drive(&mut self, line: Line, high: bool) -> Result<(), Self::Error>;

    /// Returns after at least `micros` microseconds.
    fn delay_us(&mut self, micros: u32);
}

/// Lines together with the log of what was asked of them. The driver works
/// through this wrapper only, so the log holds every action it ever asked for,
/// oldest first, each with the result that the lines returned.
pub struct Logged<P: Outputs> {
    pins: P,
    log: Ghost<Seq<Attempt<P::Error>>>,
}

impl<P: Outputs> Logged<P> {
    /// Everything that was asked so far, oldest first.
    pub closed spec fn log(&self) -> Seq<Attempt<P::Error>> {
        self.log@
    }

    /// The lines.
    pub closed spec fn lines(&self) -> P {
        self.pins
    }

    /// Wraps `pins` with an empty log.
    pub fn new(pins: P) -> (logged: Self)
        ensures
            logged.log() == Seq::<Attempt<P::Error>>::empty(),
            logged.lines() == pins,
    {
        Logged { pins, log: Ghost(Seq::empty()) }
    }

    /// Drives `line` high or low and notes it in the log.
    pub fn drive(&mut self, line: Line, high: bool) -> (r: Result<(), P::Error>)
        ensures
            final(self).log() == old(self).log().push(
                (Attempt { action: Action::Drive(line, high), result: r }),
            ),
    {
        let r = self.pins.drive(line, high);
        proof {
            self.log@ = self.log@.push(Attempt { action: Action::Drive(line, high), result: r });
        }
        r
    }

    /// Returns after at least `micros` microseconds and notes it in the log.
    pub fn delay_us(&mut self, micros: u32)
        ensures
            final(self).log() == old(self).log().push(
                (Attempt { action: Action::DelayUs(micros), result: Ok(()) }),
            ),
    {
        self.pins.delay_us(micros);
        proof {
            self.log@ = self.log@.push(
                Attempt { action: Action::DelayUs(micros), result: Ok(()) },
            );
        }
    }

    /// The lines.
    pub fn pins(&self) -> (pins: &P)
        ensures
            *pins == self.lines(),
    {
        &self.pins
    }

    /// Gives the lines back.
    pub fn into_pins(self) -> (pins: P)
        ensures
            pins == self.lines(),
    {
        self.pins
    }
}

/// How a log grew while the driver worked through `plan` and returned `r`.
///
/// `after` is `before` with new entries at its end. The new entries ask for the
/// actions of `plan`, in order and from its start. With `Ok` they are all of the
/// plan and all succeeded. With `Err(e)` they stop at the first action that was
/// refused, which is the last entry and was refused with `e`; nothing was asked
/// after it.
pub open spec fn ran<E>(
    before: Seq<Attempt<E>>,
    after: Seq<Attempt<E>>,
    plan: Seq<Action>,
    r: Result<(), E>,
) -> bool {
    let added = after.skip(before.len() as int);
    &&& before.len() <= after.len()
    &&& after.take(before.len() as int) =~= before
    &&& added.len() <= plan.len()
    &&& forall|i: int| 0 <= i < added.len() ==> (#[trigger] added[i]).action == plan[i]
    &&& forall|i: int| 0 <= i < added.len() - 1 ==> (#[trigger] added[i]).result is Ok
    &&& match r {
        Ok(_) => added.len() == plan.len() && forall|i: int|
            0 <= i < added.len() ==> (#[trigger] added[i]).result is Ok,
        Err(e) => added.len() >= 1 && added.last().result == Err::<(), E>(e),
    }
}

/// Asking for nothing leaves the log as it is.
pub proof fn lemma_ran_nothing<E>(log: Seq<Attempt<E>>)
    ensures
        ran(log, log, Seq::<Action>::empty(), Ok::<(), E>(())),
{
}

/// One call is a run of the plan that holds just its action.
pub proof fn lemma_ran_one<E>(before: Seq<Attempt<E>>, attempt: Attempt<E>)
    ensures
        ran(before, before.push(attempt), seq![attempt.action], attempt.result),
{
    let after = before.push(attempt);
    assert(after.skip(before.len() as int) =~= seq![attempt]);
}

/// A run that went through, followed by a second run, is a run of both plans.
pub proof fn lemma_ran_then<E>(
    start: Seq<Attempt<E>>,
    middle: Seq<Attempt<E>>,
    end: Seq<Attempt<E>>,
    first: Seq<Action>,
    second: Seq<Action>,
    r: Result<(), E>,
)
    requires
        ran(start, middle, first, Ok::<(), E>(())),
        ran(middle, end, second, r),
    ensures
        ran(start, end, first + second, r),
{
    let head = middle.skip(start.len() as int);
    let tail = end.skip(middle.len() as int);
    let added = end.skip(start.len() as int);
    assert(end.take(start.len() as int) =~= end.take(middle.len() as int).take(
        start.len() as int,
    ));
    assert(added =~= head + tail) by {
        assert forall|i: int| 0 <= i < added.len() implies added[i] == (head + tail)[i] by {
            if i < head.len() {
                assert(end.take(middle.len() as int)[start.len() + i] == middle[start.len() + i]);
            }
        }
    }
    assert forall|i: int| 0 <= i < added.len() implies (#[trigger] added[i]).action == (first
        + second)[i] by {
        if i < head.len() {
            assert(added[i] == head[i]);
        } else {
            assert(added[i] == tail[i - head.len()]);
        }
    }
    assert forall|i: int| 0 <= i < added.len() - 1 implies (#[trigger] added[i]).result is Ok by {
        if i < head.len() {
            assert(added[i] == head[i]);
        } else {
            assert(added[i] == tail[i - head.len()]);
        }
    }
    match r {
        Ok(_) => {
            assert forall|i: int| 0 <= i < added.len() implies (#[trigger] added[i]).result is Ok by {
                if i < head.len() {
                    assert(added[i] == head[i]);
                } else {
                    assert(added[i] == tail[i - head.len()]);
                }
            }
        },
        Err(e) => {
            assert(added.last() == tail.last());
        },
    }
}

/// A run that was refused is a refused run of every plan that starts the same way.
pub proof fn lemma_ran_stopped<E>(
    before: Seq<Attempt<E>>,
    after: Seq<Attempt<E>>,
    begun: Seq<Action>,
    plan: Seq<Action>,
    e: E,
)
    requires
        ran(before, after, begun, Err::<(), E>(e)),
        begun.is_prefix_of(plan),
    ensures
        ran(before, after, plan, Err::<(), E>(e)),
{
}

} // verus!
