//! Handing frames from the compositor to the refresher and back.
//!
//! Two frames exist. The compositor renders into one while the refresher scans
//! the other. A finished frame travels to the refresher through a single slot,
//! and the frame that the refresher gives up for it travels back through a
//! second one. A slot holds at most one item and a new item replaces a pending
//! one, so nobody ever waits for room. The refresher looks into its slot only
//! between two refreshes; while nothing is there it keeps showing the frame it
//! has.
//!
//! Each party is a small state machine here. What moves a frame between the
//! parties (a signal between tasks, or the two slots of an [`Exchange`]) hands
//! the party what arrived and carries away what the party gives up.

use vstd::prelude::*;

verus! {

/// A slot for one pending item. Its view is the pending item, if there is one.
pub struct Slot<T> {
    pending: Option<T>,
}

impl<T> Slot<T> {
    /// The pending item.
    pub closed spec fn view(&self) -> Option<T> {
        self.pending
    }

    /// An empty slot.
    pub fn new() -> (slot: Self)
        ensures
            slot@ is None,
    {
        Slot { pending: None }
    }

    /// Puts `item` into the slot. An item that was still pending is replaced and
    /// handed back.
    pub fn signal(&mut self, item: T) -> (displaced: Option<T>)
        ensures
            final(self)@ == signalled(old(self)@, item),
            displaced == old(self)@,
    {
        let mut incoming = Some(item);
        core::mem::swap(&mut self.pending, &mut incoming);
        incoming
    }

    /// Whether an item is pending.
    pub fn signaled(&self) -> (pending: bool)
        ensures
            pending == (self@ is Some),
    {
        self.pending.is_some()
    }

    /// Takes the pending item out, if there is one.
    pub fn try_take(&mut self) -> (item: Option<T>)
        ensures
            item == old(self)@,
            final(self)@ is None,
    {
        let mut taken = None;
        core::mem::swap(&mut self.pending, &mut taken);
        taken
    }
}

/// What a slot holds after `item` was put into it: the item, whatever was
/// pending.
pub open spec fn signalled<T>(pending: Option<T>, item: T) -> Option<T> {
    Some(item)
}

/// What a slot holds after `items` were put into it one after the other.
pub open spec fn after_signals<T>(pending: Option<T>, items: Seq<T>) -> Option<T>
    decreases items.len(),
{
    if items.len() == 0 {
        pending
    } else {
        signalled(after_signals(pending, items.drop_last()), items.last())
    }
}

/// The last writer wins: however many items were put into a slot since it was
/// last looked into, and whatever it held before, it holds the newest of them.
pub proof fn lemma_last_signal_wins<T>(pending: Option<T>, items: Seq<T>)
    requires
        items.len() > 0,
    ensures
        after_signals(pending, items) == Some(items.last()),
{
}

/// The refresher's side: the frame it holds, and whether it shows it. The
/// refresher starts with a frame of its own that it does not show; it begins to
/// show frames with the first one that is published.
pub struct Refresher<B> {
    current: B,
    showing: bool,
}

impl<B> Refresher<B> {
    /// The frame that the refresher holds.
    pub closed spec fn scanning(&self) -> B {
        self.current
    }

    /// Whether the refresher shows the frame it holds: whether a frame was
    /// published yet.
    pub closed spec fn showing(&self) -> bool {
        self.showing
    }

    /// A refresher that holds `buffer` and waits for the first frame.
    pub fn new(buffer: B) -> (refresher: Self)
        ensures
            refresher.scanning() == buffer,
            !refresher.showing(),
    {
        Refresher { current: buffer, showing: false }
    }

    /// The frame to scan next, once a frame was published.
    pub fn current(&self) -> (buffer: Option<&B>)
        ensures
            match buffer {
                Some(frame) => self.showing() && *frame == self.scanning(),
                None => !self.showing(),
            },
    {
        if self.showing {
            Some(&self.current)
        } else {
            None
        }
    }

    /// The frame that the refresher holds, shown or not.
    pub fn held(&self) -> (buffer: &B)
        ensures
            *buffer == self.scanning(),
    {
        &self.current
    }

    /// Decides what to show after a look into the slot, between two refreshes.
    /// A frame that was published is shown from now on, and the frame held so
    /// far is handed back. With nothing published nothing changes.
    pub fn adopt(&mut self, published: Option<B>) -> (returned: Option<B>)
        ensures
            match published {
                Some(newer) => {
                    &&& final(self).scanning() == newer
                    &&& final(self).showing()
                    &&& returned == Some(old(self).scanning())
                },
                None => {
                    &&& final(self).scanning() == old(self).scanning()
                    &&& final(self).showing() == old(self).showing()
                    &&& returned is None
                },
            },
    {
        match published {
            Some(newer) => {
                let mut older = newer;
                core::mem::swap(&mut self.current, &mut older);
                self.showing = true;
                Some(older)
            },
            None => None,
        }
    }
}

/// The compositor's side: the frame it renders into, unless that frame is on its
/// way to the refresher and none has come back yet.
pub struct Compositor<B> {
    owned: Option<B>,
}

impl<B> Compositor<B> {
    /// The frame that the compositor renders into, if it has one.
    pub closed spec fn rendering(&self) -> Option<B> {
        self.owned
    }

    /// A compositor that renders into `buffer`.
    pub fn new(buffer: B) -> (compositor: Self)
        ensures
            compositor.rendering() == Some(buffer),
    {
        Compositor { owned: Some(buffer) }
    }

    /// The frame to render into, if the compositor has one.
    pub fn buffer(&self) -> (buffer: Option<&B>)
        ensures
            match buffer {
                Some(owned) => self.rendering() == Some(*owned),
                None => self.rendering() is None,
            },
    {
        self.owned.as_ref()
    }

    /// Whether the compositor has a frame to render into.
    pub fn has_buffer(&self) -> (has: bool)
        ensures
            has == (self.rendering() is Some),
    {
        self.owned.is_some()
    }

    /// Gives the finished frame up for publishing. Without a frame there is
    /// nothing to publish.
    pub fn publish(&mut self) -> (finished: Option<B>)
        ensures
            finished == old(self).rendering(),
            final(self).rendering() is None,
    {
        let mut finished = None;
        core::mem::swap(&mut self.owned, &mut finished);
        finished
    }

    /// Takes the frame that came back as the one to render into next. A
    /// compositor that still has a frame keeps it and passes `buffer` on.
    pub fn receive(&mut self, buffer: B) -> (surplus: Option<B>)
        ensures
            old(self).rendering() is None ==> final(self).rendering() == Some(buffer)
                && surplus is None,
            old(self).rendering() is Some ==> final(self).rendering() == old(self).rendering()
                && surplus == Some(buffer),
    {
        if self.owned.is_some() {
            Some(buffer)
        } else {
            self.owned = Some(buffer);
            None
        }
    }
}

/// Where the two frames are: with the compositor, pending in the slot towards
/// the refresher, pending in the slot back to the compositor, or with the
/// refresher, which shows its frame once `showing` is set.
pub struct Holdings<B> {
    pub compositor: Option<B>,
    pub to_refresher: Option<B>,
    pub to_compositor: Option<B>,
    pub refresher: B,
    pub showing: bool,
}

/// What a party can do.
#[derive(Clone, Copy, Debug, PartialEq, Eq, Structural)]
pub enum Step {
    /// The compositor publishes the frame it has finished.
    Publish,
    /// The compositor takes the frame that came back.
    Receive,
    /// The refresher looks into its slot between two refreshes.
    Poll,
}

/// One frame is with the refresher and the other one is in exactly one other
/// place.
pub open spec fn exclusive<B>(h: Holdings<B>) -> bool {
    ||| (h.compositor matches Some(frame) && frame != h.refresher && h.to_refresher is None
        && h.to_compositor is None)
    ||| (h.to_refresher matches Some(frame) && frame != h.refresher && h.compositor is None
        && h.to_compositor is None)
    ||| (h.to_compositor matches Some(frame) && frame != h.refresher && h.compositor is None
        && h.to_refresher is None)
}

/// The frame that is not with the refresher, wherever it is.
pub open spec fn other_frame<B>(h: Holdings<B>) -> B
    recommends
        exclusive(h),
{
    if h.compositor is Some {
        h.compositor->0
    } else if h.to_refresher is Some {
        h.to_refresher->0
    } else {
        h.to_compositor->0
    }
}

/// The holdings after one step. A step that cannot be taken (publishing without
/// a frame, receiving while nothing came back or a frame is still at hand,
/// polling an empty slot) changes nothing.
pub open spec fn after_step<B>(h: Holdings<B>, step: Step) -> Holdings<B> {
    match step {
        Step::Publish => match h.compositor {
            Some(finished) => Holdings {
                compositor: None,
                to_refresher: signalled(h.to_refresher, finished),
                ..h
            },
            None => h,
        },
        Step::Receive => match (h.compositor, h.to_compositor) {
            (None, Some(back)) => Holdings { compositor: Some(back), to_compositor: None, ..h },
            _ => h,
        },
        Step::Poll => match h.to_refresher {
            Some(newer) => Holdings {
                to_refresher: None,
                to_compositor: signalled(h.to_compositor, h.refresher),
                refresher: newer,
                showing: true,
                ..h
            },
            None => h,
        },
    }
}

/// The holdings after a run of steps.
pub open spec fn after_steps<B>(h: Holdings<B>, steps: Seq<Step>) -> Holdings<B>
    decreases steps.len(),
{
    if steps.len() == 0 {
        h
    } else {
        after_step(after_steps(h, steps.drop_last()), steps.last())
    }
}

/// Both parties and the two slots between them, in one place: the exchange as a
/// whole, stepped by hand. Its view says where the two frames are.
pub struct Exchange<B> {
    compositor: Compositor<B>,
    to_refresher: Slot<B>,
    to_compositor: Slot<B>,
    refresher: Refresher<B>,
}

impl<B> Exchange<B> {
    /// Where the two frames are.
    pub closed spec fn view(&self) -> Holdings<B> {
        Holdings {
            compositor: self.compositor.rendering(),
            to_refresher: self.to_refresher@,
            to_compositor: self.to_compositor@,
            refresher: self.refresher.scanning(),
            showing: self.refresher.showing(),
        }
    }

    /// The exchange at the start: the compositor renders into one frame, the
    /// refresher holds the other one without showing it, and both slots are
    /// empty.
    pub fn new(for_compositor: B, for_refresher: B) -> (exchange: Self)
        ensures
            exchange@ == (Holdings {
                compositor: Some(for_compositor),
                to_refresher: None,
                to_compositor: None,
                refresher: for_refresher,
                showing: false,
            }),
    {
        Exchange {
            compositor: Compositor::new(for_compositor),
            to_refresher: Slot::new(),
            to_compositor: Slot::new(),
            refresher: Refresher::new(for_refresher),
        }
    }

    /// The compositor publishes its frame, if it has one. Says whether it did.
    pub fn publish(&mut self) -> (published: bool)
        ensures
            final(self)@ == after_step(old(self)@, Step::Publish),
            published == (old(self)@.compositor is Some),
    {
        match self.compositor.publish() {
            Some(finished) => {
                let _ = self.to_refresher.signal(finished);
                true
            },
            None => false,
        }
    }

    /// The compositor takes the frame that came back, if it has none and one
    /// came back. Says whether it did.
    pub fn receive(&mut self) -> (received: bool)
        ensures
            final(self)@ == after_step(old(self)@, Step::Receive),
            received == (old(self)@.compositor is None && old(self)@.to_compositor is Some),
    {
        if self.compositor.has_buffer() {
            return false;
        }
        match self.to_compositor.try_take() {
            Some(back) => {
                let _ = self.compositor.receive(back);
                true
            },
            None => false,
        }
    }

    /// The refresher looks into its slot: a published frame is shown from now on
    /// and the frame shown so far goes back. Says whether the frame changed.
    pub fn poll(&mut self) -> (swapped: bool)
        ensures
            final(self)@ == after_step(old(self)@, Step::Poll),
            swapped == (old(self)@.to_refresher is Some),
    {
        let published = self.to_refresher.try_take();
        match self.refresher.adopt(published) {
            Some(older) => {
                let _ = self.to_compositor.signal(older);
                true
            },
            None => false,
        }
    }

    /// Takes one step.
    pub fn step(&mut self, step: Step)
        ensures
            final(self)@ == after_step(old(self)@, step),
    {
        match step {
            Step::Publish => {
                let _ = self.publish();
            },
            Step::Receive => {
                let _ = self.receive();
            },
            Step::Poll => {
                let _ = self.poll();
            },
        }
    }

    /// The frame that the compositor renders into, if it has one.
    pub fn rendering(&self) -> (buffer: Option<&B>)
        ensures
            match buffer {
                Some(owned) => self@.compositor == Some(*owned),
                None => self@.compositor is None,
            },
    {
        self.compositor.buffer()
    }

    /// The frame that is being shown, once a frame was published.
    pub fn scanning(&self) -> (buffer: Option<&B>)
        ensures
            match buffer {
                Some(frame) => self@.showing && *frame == self@.refresher,
                None => !self@.showing,
            },
    {
        self.refresher.current()
    }

    /// The frame that the refresher holds, shown or not.
    pub fn held(&self) -> (buffer: &B)
        ensures
            *buffer == self@.refresher,
    {
        self.refresher.held()
    }
}

/// No step makes the two frames meet: if one frame is being shown and the other
/// is in exactly one other place, the same holds after any step.
pub proof fn lemma_step_keeps_exclusive<B>(h: Holdings<B>, step: Step)
    requires
        exclusive(h),
    ensures
        exclusive(after_step(h, step)),
{
}

/// A step moves frames and never makes or loses one: the two frames after a step
/// are the two frames before it.
pub proof fn lemma_step_keeps_frames<B>(h: Holdings<B>, step: Step)
    requires
        exclusive(h),
    ensures
        ({
            let next = after_step(h, step);
            ||| (next.refresher == h.refresher && other_frame(next) == other_frame(h))
            ||| (next.refresher == other_frame(h) && other_frame(next) == h.refresher)
        }),
{
}

/// The compositor never holds the frame that the refresher holds, and so never
/// the frame that is being shown, however the steps of the two parties
/// interleave.
pub proof fn lemma_never_aliased<B>(start: Holdings<B>, steps: Seq<Step>)
    requires
        exclusive(start),
    ensures
        exclusive(after_steps(start, steps)),
        after_steps(start, steps).compositor != Some(after_steps(start, steps).refresher),
    decreases steps.len(),
{
    if steps.len() > 0 {
        lemma_never_aliased(start, steps.drop_last());
        lemma_step_keeps_exclusive(after_steps(start, steps.drop_last()), steps.last());
    }
}

/// Ownership alternates: after the compositor published, the refresher polled
/// and the compositor received, each party has the frame that the other one had.
pub proof fn lemma_cycle_swaps_frames<B>(h: Holdings<B>)
    requires
        exclusive(h),
        h.compositor is Some,
    ensures
        after_steps(h, seq![Step::Publish, Step::Poll, Step::Receive]) == (Holdings {
            compositor: Some(h.refresher),
            to_refresher: None,
            to_compositor: None,
            refresher: h.compositor->0,
            showing: true,
        }),
{
    let steps = seq![Step::Publish, Step::Poll, Step::Receive];
    let two = steps.drop_last();
    let one = two.drop_last();
    assert(two =~= seq![Step::Publish, Step::Poll]);
    assert(one =~= seq![Step::Publish]);
    assert(one.drop_last() =~= Seq::<Step>::empty());
    assert(after_steps(h, one.drop_last()) == h);
    assert(after_steps(h, one) == after_step(h, Step::Publish));
    assert(after_steps(h, two) == after_step(after_steps(h, one), Step::Poll));
}

/// A refresher that is left alone keeps its frame: as long as nothing is
/// published, polling changes nothing.
pub proof fn lemma_poll_without_news<B>(h: Holdings<B>)
    requires
        h.to_refresher is None,
    ensures
        after_step(h, Step::Poll) == h,
{
}

/// The length, in microseconds, of the interval over which refreshes are
/// counted.
pub const FPS_INTERVAL_US: u64 = 1_000_000;

/// What a meter reports after a refresh that ended at `now`, having counted
/// `count` refreshes since `start`: the new count, once more than the interval
/// has passed. A clock that went back counts as no time.
pub open spec fn rate_due(start: int, now: int) -> bool {
    now >= start && now - start > FPS_INTERVAL_US
}

/// The count after one more refresh; it stays at the largest number.
pub open spec fn counted(count: int) -> int {
    if count < u32::MAX {
        count + 1
    } else {
        count
    }
}

/// Counts refreshes and reports how many there were each time more than a
/// second has passed.
pub struct RefreshMeter {
    count: u32,
    start: u64,
}

impl RefreshMeter {
    /// The refreshes counted since the last report.
    pub closed spec fn count(&self) -> int {
        self.count as int
    }

    /// When the count began, in microseconds.
    pub closed spec fn start(&self) -> int {
        self.start as int
    }

    /// A meter that begins to count at `now`.
    pub fn new(now: u64) -> (meter: Self)
        ensures
            meter.count() == 0,
            meter.start() == now,
    {
        RefreshMeter { count: 0, start: now }
    }

    /// Counts a refresh that ended at `now`. Once more than the interval has
    /// passed since the count began, the count is reported and begins again.
    pub fn refreshed(&mut self, now: u64) -> (rate: Option<u32>)
        ensures
            rate_due(old(self).start(), now as int) ==> rate == Some(
                counted(old(self).count()) as u32,
            ) && final(self).count() == 0 && final(self).start() == now,
            !rate_due(old(self).start(), now as int) ==> rate is None && final(self).count()
                == counted(old(self).count()) && final(self).start() == old(self).start(),
    {
        if self.count < u32::MAX {
            self.count += 1;
        }
        if now >= self.start && now - self.start > FPS_INTERVAL_US {
            let rate = self.count;
            self.count = 0;
            self.start = now;
            Some(rate)
        } else {
            None
        }
    }
}

/// Nothing is shown before something was published, and once a frame is shown
/// the panel never goes back to showing none: the refresher shows its frame
/// after a run of steps exactly if it did before or one of its looks into the
/// slot found a frame.
pub proof fn lemma_shows_what_was_published<B>(start: Holdings<B>, steps: Seq<Step>)
    ensures
        start.showing ==> after_steps(start, steps).showing,
        after_steps(start, steps).showing && !start.showing ==> exists|i: int|
            0 <= i < steps.len() && steps[i] == Step::Poll && (#[trigger] after_steps(
                start,
                steps.take(i),
            )).to_refresher is Some,
    decreases steps.len(),
{
    if steps.len() > 0 {
        let earlier = steps.drop_last();
        lemma_shows_what_was_published(start, earlier);
        let before = after_steps(start, earlier);
        assert(steps.take(steps.len() - 1) =~= earlier);
        if after_steps(start, steps).showing && !start.showing {
            if before.showing {
                let i = choose|i: int|
                    0 <= i < earlier.len() && earlier[i] == Step::Poll && (#[trigger] after_steps(
                        start,
                        earlier.take(i),
                    )).to_refresher is Some;
                assert(earlier.take(i) =~= steps.take(i));
            } else {
                let i = steps.len() - 1;
                assert(steps[i] == Step::Poll);
                assert(after_steps(start, steps.take(i)).to_refresher is Some);
            }
        }
    }
}

} // verus!
