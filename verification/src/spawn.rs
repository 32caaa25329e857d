//! The run loop's decisions: when a frame is drawn, how long the loop
//! waits when none is due, how many frames it drew in the last second, and
//! how it goes on after a view has drawn one.

use crate::context::Phi;
use crate::events::Event;
use crate::view::ViewAction;
use vstd::prelude::*;

verus! {

/// The frames that the run loop draws in a second, at most.
pub const FRAMES_PER_SECOND: u32 = 60;

/// The milliseconds in a second; the timer counts milliseconds.
pub const MILLIS_PER_SECOND: u32 = 1_000;

/// The least whole number of milliseconds in which a frame's share of a
/// second has passed: a sixtieth of a second, rounded up. No frame is drawn
/// before it.
pub const FRAME_INTERVAL: u32 = (MILLIS_PER_SECOND + FRAMES_PER_SECOND - 1) / FRAMES_PER_SECOND;

/// Whether a frame is due `dt` milliseconds after the last one: a frame's
/// share of a second has passed in full.
pub open spec fn frame_due(dt: int) -> bool {
    FRAMES_PER_SECOND * dt >= MILLIS_PER_SECOND
}

/// The time after which the count of frames is reported and started
/// again, in milliseconds.
pub const REPORT_INTERVAL: u32 = 1_000;

/// The time that every view is told has passed since the frame before, in
/// microseconds.
pub const FRAME_ELAPSED: i64 = 10_000;

/// What the run loop does at one reading of the timer.
#[derive(Clone, Copy, Debug, PartialEq, Eq, Structural)]
pub enum Tick {
    /// No frame is due: wait this many milliseconds, after which one is, and
    /// read the timer again.
    Wait(u32),
    /// A frame is due: draw it. Where a count comes with it, more than a
    /// second has passed since the last report, and this many frames were
    /// drawn in it.
    Frame(Option<u16>),
}

/// The pacing state of the run loop.
#[derive(Clone, Copy, Debug, PartialEq, Eq)]
pub struct FrameClock {
    /// The time of the last frame.
    before: u32,
    /// The time of the last report.
    last_second: u32,
    /// The frames drawn since the last report.
    fps: u16,
}

impl FrameClock {
    /// The last report does not lie after the last frame, nor more than a
    /// report interval before it, and no more frames are counted than fit
    /// between the two.
    #[verifier::type_invariant]
    pub closed spec fn wf(self) -> bool {
        &&& self.last_second <= self.before
        &&& self.before - self.last_second <= REPORT_INTERVAL
        &&& self.fps * FRAME_INTERVAL <= self.before - self.last_second
    }

    /// The time of the last frame.
    pub closed spec fn spec_before(&self) -> u32 {
        self.before
    }

    /// The time of the last report.
    pub closed spec fn spec_last_second(&self) -> u32 {
        self.last_second
    }

    /// The frames drawn since the last report.
    pub closed spec fn spec_fps(&self) -> u16 {
        self.fps
    }

    /// The state and the decision after the timer is read as `now`.
    pub closed spec fn step(self, now: u32) -> (FrameClock, Tick) {
        let dt = now - self.before;
        if dt < FRAME_INTERVAL {
            (self, Tick::Wait((FRAME_INTERVAL - dt) as u32))
        } else if now - self.last_second > REPORT_INTERVAL {
            (FrameClock { before: now, last_second: now, fps: 0 }, Tick::Frame(Some((self.fps + 1) as u16)))
        } else {
            (FrameClock { before: now, fps: (self.fps + 1) as u16, ..self }, Tick::Frame(None))
        }
    }

    /// The state after the timer is read as each of `nows` in turn.
    pub open spec fn after_ticks(self, nows: Seq<u32>) -> FrameClock
        decreases nows.len(),
    {
        if nows.len() == 0 {
            self
        } else {
            self.after_ticks(nows.drop_last()).step(nows.last()).0
        }
    }

    /// The number of frames that are drawn while the timer is read as each
    /// of `nows` in turn.
    pub open spec fn frames_drawn(self, nows: Seq<u32>) -> nat
        decreases nows.len(),
    {
        if nows.len() == 0 {
            0
        } else {
            let drawn = self.frames_drawn(nows.drop_last());
            if self.after_ticks(nows.drop_last()).step(nows.last()).1 is Frame {
                drawn + 1
            } else {
                drawn
            }
        }
    }

    /// The state of a loop that starts at time `start`.
    pub fn new(start: u32) -> (clock: FrameClock)
        ensures
            clock.wf(),
            clock.before() == start,
            clock.last_second() == start,
            clock.fps() == 0,
    {
        FrameClock { before: start, last_second: start, fps: 0 }
    }

    /// The time of the last frame.
    #[verifier::when_used_as_spec(spec_before)]
    pub fn before(&self) -> (time: u32)
        ensures
            time == self.spec_before(),
    {
        self.before
    }

    /// The time of the last report.
    #[verifier::when_used_as_spec(spec_last_second)]
    pub fn last_second(&self) -> (time: u32)
        ensures
            time == self.spec_last_second(),
    {
        self.last_second
    }

    /// The frames drawn since the last report.
    #[verifier::when_used_as_spec(spec_fps)]
    pub fn fps(&self) -> (count: u16)
        ensures
            count == self.spec_fps(),
            count * FRAME_INTERVAL <= REPORT_INTERVAL,
    {
        proof {
            use_type_invariant(self);
        }
        self.fps
    }

    /// Decides what the loop does when the timer reads `now`, which must not
    /// lie before the last frame. If less than a sixtieth of a second has
    /// passed since the last frame, no frame is drawn: the loop waits for the
    /// least whole number of milliseconds after which one is due, and nothing
    /// changes. Otherwise a frame is due: it is counted, and its time becomes
    /// the time of the last frame. The count is reported and started again
    /// once more than a report interval has passed since the last report.
    pub fn tick(&mut self, now: u32) -> (tick: Tick)
        requires
            now >= old(self).before(),
        ensures
            final(self).wf(),
            (*final(self), tick) == old(self).step(now),
            tick is Frame <==> frame_due(now - old(self).before()),
            tick matches Tick::Wait(ms) ==> {
                &&& *final(self) == *old(self)
                &&& ms == FRAME_INTERVAL - (now - old(self).before())
                &&& frame_due(now - old(self).before() + ms)
                &&& !frame_due(now - old(self).before() + ms - 1)
            },
            tick is Frame ==> final(self).before() == now,
            tick == Tick::Frame(None) ==> {
                &&& final(self).fps() == old(self).fps() + 1
                &&& final(self).last_second() == old(self).last_second()
            },
            tick matches Tick::Frame(Some(count)) ==> {
                &&& count == old(self).fps() + 1
                &&& final(self).fps() == 0
                &&& final(self).last_second() == now
            },
            tick matches Tick::Frame(report) ==> (report is Some <==> now - old(self).last_second()
                > REPORT_INTERVAL),
    {
        proof {
            use_type_invariant(&*self);
            FrameClock::lemma_frame_due(now - self.before);
        }
        let dt = now - self.before;
        if dt < FRAME_INTERVAL {
            return Tick::Wait(FRAME_INTERVAL - dt);
        }
        let counted: u16 = self.fps + 1;
        if now - self.last_second > REPORT_INTERVAL {
            *self = FrameClock { before: now, last_second: now, fps: 0 };
            Tick::Frame(Some(counted))
        } else {
            *self = FrameClock { before: now, last_second: self.last_second, fps: counted };
            Tick::Frame(None)
        }
    }

    /// A frame is due from the frame interval on, and not before.
    pub proof fn lemma_frame_due(dt: int)
        ensures
            frame_due(dt) <==> dt >= FRAME_INTERVAL,
            FRAME_INTERVAL == 17,
    {
    }

    /// While every reading of the timer lies less than a sixtieth of a
    /// second after the last frame, no frame is drawn and nothing changes.
    pub proof fn lemma_early_ticks_draw_nothing(clock: FrameClock, nows: Seq<u32>)
        requires
            forall|i: int|
                0 <= i < nows.len() ==> clock.before() <= #[trigger] nows[i] && !frame_due(
                    nows[i] - clock.before(),
                ),
        ensures
            clock.after_ticks(nows) == clock,
            clock.frames_drawn(nows) == 0,
        decreases nows.len(),
    {
        if nows.len() > 0 {
            let earlier = nows.drop_last();
            assert forall|i: int| 0 <= i < earlier.len() implies clock.before() <= #[trigger] earlier[i]
                && !frame_due(earlier[i] - clock.before()) by {
                assert(earlier[i] == nows[i]);
            }
            FrameClock::lemma_early_ticks_draw_nothing(clock, earlier);
            assert(clock.before() <= nows[nows.len() - 1]);
        }
    }

    /// The first reading of the timer that lies a sixtieth of a second or
    /// more after the last frame draws exactly one frame, and the time of the
    /// last frame becomes that reading.
    pub proof fn lemma_due_tick_draws_one(clock: FrameClock, early: Seq<u32>, now: u32)
        requires
            forall|i: int|
                0 <= i < early.len() ==> clock.before() <= #[trigger] early[i] && !frame_due(
                    early[i] - clock.before(),
                ),
            now >= clock.before(),
            frame_due(now - clock.before()),
        ensures
            clock.frames_drawn(early.push(now)) == 1,
            clock.after_ticks(early.push(now)).before() == now,
    {
        FrameClock::lemma_early_ticks_draw_nothing(clock, early);
        assert(early.push(now).drop_last() == early);
        assert(early.push(now).last() == now);
    }
}

/// How the run loop goes on after a frame.
pub enum Next<V> {
    /// Show the frame, and draw the next one with the same view.
    Present(V),
    /// Do not show the frame; draw the next one with this view. The view
    /// that drew this frame is gone.
    Switch(V),
    /// Leave the loop.
    Stop,
    /// The view could not draw a frame in this context; it was not asked to.
    Refused(V),
}

impl<V> Next<V> {
    /// The view that is active once the frame is over: the one that draws
    /// the next frame, if the loop goes on.
    pub open spec fn spec_active(self) -> Option<V> {
        match self {
            Next::Present(view) => Some(view),
            Next::Switch(view) => Some(view),
            Next::Stop => None,
            Next::Refused(view) => Some(view),
        }
    }

    /// The view that is active once the frame is over: the one that draws
    /// the next frame, if the loop goes on.
    #[verifier::when_used_as_spec(spec_active)]
    pub fn active(self) -> (view: Option<V>)
        ensures
            view == self.spec_active(),
    {
        match self {
            Next::Present(view) => Some(view),
            Next::Switch(view) => Some(view),
            Next::Stop => None,
            Next::Refused(view) => Some(view),
        }
    }
}

/// What the run loop does with the action that the view `current` gave.
pub open spec fn spec_interpret<V>(current: V, action: ViewAction<V>) -> Next<V> {
    match action {
        ViewAction::Continue => Next::Present(current),
        ViewAction::Quit => Next::Stop,
        ViewAction::ChangeView(next) => Next::Switch(next),
    }
}

/// Decides how the run loop goes on after the view `current` has drawn a
/// frame and given `action`: with the same view and the frame shown, with
/// the view named in the action, or not at all.
pub fn interpret<V>(current: V, action: ViewAction<V>) -> (next: Next<V>)
    ensures
        next == spec_interpret(current, action),
        action matches ViewAction::ChangeView(view) ==> next == Next::Switch(view),
        action is Quit ==> next is Stop,
        action is Continue ==> next == Next::Present(current),
{
    match action {
        ViewAction::Continue => Next::Present(current),
        ViewAction::Quit => Next::Stop,
        ViewAction::ChangeView(next) => Next::Switch(next),
    }
}

/// After a view has asked for another to take its place, that other view is
/// the active one, whatever the view was that asked; after it has asked to
/// go on, it is still the active one; and after it has asked to quit, none
/// is.
pub proof fn lemma_active_view<V>(current: V, next: V)
    ensures
        spec_interpret(current, ViewAction::ChangeView(next)).active() == Some(next),
        spec_interpret(current, ViewAction::Continue).active() == Some(current),
        spec_interpret(current, ViewAction::<V>::Quit).active() is None,
{
}

/// Draws one frame: takes the input source's reports into the snapshot,
/// has the view `current` draw with the fixed elapsed time, and decides how the
/// loop goes on. A view that cannot draw in the context is handed back
/// untouched.
pub fn run_frame<V: crate::view::View>(context: &mut Phi, current: V, polled: &Vec<Event>) -> (next: Next<V>)
    ensures
        !current.accepts(&old(context).pumped(polled@)) ==> next == Next::Refused(current)
            && *final(context) == old(context).pumped(polled@),
        current.accepts(&old(context).pumped(polled@)) ==> exists|view: V, action: ViewAction<V>|
            {
                &&& #[trigger] V::renders(
                    (current, old(context).pumped(polled@)),
                    FRAME_ELAPSED,
                    (view, *final(context)),
                    action,
                )
                &&& next == spec_interpret(view, action)
            },
{
    context.events.pump(polled);
    if !current.ready(context) {
        return Next::Refused(current);
    }
    let mut current = current;
    let action = current.render(context, FRAME_ELAPSED);
    interpret(current, action)
}

} // verus!
