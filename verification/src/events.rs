//! The input snapshot: what the tracked keys and the window did during the
//! frame that is being drawn, what they did during the one before, and which
//! keys are held.

use vstd::prelude::*;

verus! {

/// The keys that the snapshot follows.
#[derive(Clone, Copy, Debug, PartialEq, Eq, Structural)]
pub enum Key {
    Escape,
    Up,
    Down,
    Left,
    Right,
    Space,
    Enter,
}

/// What the input source reports between two frames, as far as the snapshot
/// follows it.
#[derive(Clone, Copy, Debug, PartialEq, Eq, Structural)]
pub enum Event {
    /// A tracked key went down, or repeats while it is held down.
    KeyDown(Key),
    /// A tracked key went up.
    KeyUp(Key),
    /// The window was asked to close.
    Quit,
}

impl Key {
    /// The key code under which the input source reports the key.
    pub open spec fn spec_keycode(self) -> i32 {
        match self {
            Key::Escape => 27,
            Key::Up => 1073741906,
            Key::Down => 1073741905,
            Key::Left => 1073741904,
            Key::Right => 1073741903,
            Key::Space => 32,
            Key::Enter => 13,
        }
    }

    /// The tracked key that has the key code `code`, if there is one.
    pub open spec fn spec_from_keycode(code: i32) -> Option<Key> {
        if code == 27 {
            Some(Key::Escape)
        } else if code == 1073741906 {
            Some(Key::Up)
        } else if code == 1073741905 {
            Some(Key::Down)
        } else if code == 1073741904 {
            Some(Key::Left)
        } else if code == 1073741903 {
            Some(Key::Right)
        } else if code == 32 {
            Some(Key::Space)
        } else if code == 13 {
            Some(Key::Enter)
        } else {
            None
        }
    }

    /// The key code under which the input source reports the key.
    #[verifier::when_used_as_spec(spec_keycode)]
    pub fn keycode(self) -> (code: i32)
        ensures
            code == self.spec_keycode(),
    {
        match self {
            Key::Escape => 27,
            Key::Up => 1073741906,
            Key::Down => 1073741905,
            Key::Left => 1073741904,
            Key::Right => 1073741903,
            Key::Space => 32,
            Key::Enter => 13,
        }
    }

    /// The tracked key that has the key code `code`; nothing for the code of
    /// a key that is not tracked.
    #[verifier::when_used_as_spec(spec_from_keycode)]
    pub fn from_keycode(code: i32) -> (key: Option<Key>)
        ensures
            key == Key::spec_from_keycode(code),
            key matches Some(k) ==> k.keycode() == code,
            key is None ==> forall|k: Key| k.keycode() != code,
    {
        if code == 27 {
            Some(Key::Escape)
        } else if code == 1073741906 {
            Some(Key::Up)
        } else if code == 1073741905 {
            Some(Key::Down)
        } else if code == 1073741904 {
            Some(Key::Left)
        } else if code == 1073741903 {
            Some(Key::Right)
        } else if code == 32 {
            Some(Key::Space)
        } else if code == 13 {
            Some(Key::Enter)
        } else {
            None
        }
    }

    /// Every tracked key is found again under its own key code, so no two
    /// tracked keys share one.
    pub proof fn lemma_keycode_round_trip(key: Key)
        ensures
            Key::from_keycode(key.keycode()) == Some(key),
    {
    }
}

/// What happened during one frame: for each tracked key, whether it was
/// pressed (`Some(true)`), released (`Some(false)`) or neither (`None`), and
/// whether the window was asked to close.
#[derive(Clone, Copy, Debug, PartialEq, Eq, Structural)]
pub struct ImmediateEvents {
    pub key_escape: Option<bool>,
    pub key_up: Option<bool>,
    pub key_down: Option<bool>,
    pub key_left: Option<bool>,
    pub key_right: Option<bool>,
    pub key_space: Option<bool>,
    pub key_enter: Option<bool>,
    pub quit: bool,
}

impl ImmediateEvents {
    /// A frame during which nothing happened.
    pub open spec fn spec_new() -> ImmediateEvents {
        ImmediateEvents {
            key_escape: None,
            key_up: None,
            key_down: None,
            key_left: None,
            key_right: None,
            key_space: None,
            key_enter: None,
            quit: false,
        }
    }

    /// What `key` did during the frame.
    pub open spec fn spec_key(&self, key: Key) -> Option<bool> {
        match key {
            Key::Escape => self.key_escape,
            Key::Up => self.key_up,
            Key::Down => self.key_down,
            Key::Left => self.key_left,
            Key::Right => self.key_right,
            Key::Space => self.key_space,
            Key::Enter => self.key_enter,
        }
    }

    /// The frame with `state` as what `key` did, and all else as in `self`.
    pub open spec fn with_key(self, key: Key, state: Option<bool>) -> ImmediateEvents {
        match key {
            Key::Escape => ImmediateEvents { key_escape: state, ..self },
            Key::Up => ImmediateEvents { key_up: state, ..self },
            Key::Down => ImmediateEvents { key_down: state, ..self },
            Key::Left => ImmediateEvents { key_left: state, ..self },
            Key::Right => ImmediateEvents { key_right: state, ..self },
            Key::Space => ImmediateEvents { key_space: state, ..self },
            Key::Enter => ImmediateEvents { key_enter: state, ..self },
        }
    }

    /// A frame during which nothing happened.
    #[verifier::when_used_as_spec(spec_new)]
    pub fn new() -> (fresh: ImmediateEvents)
        ensures
            fresh == ImmediateEvents::spec_new(),
    {
        ImmediateEvents {
            key_escape: None,
            key_up: None,
            key_down: None,
            key_left: None,
            key_right: None,
            key_space: None,
            key_enter: None,
            quit: false,
        }
    }

    /// What `key` did during the frame.
    #[verifier::when_used_as_spec(spec_key)]
    pub fn key(&self, key: Key) -> (state: Option<bool>)
        ensures
            state == self.spec_key(key),
    {
        match key {
            Key::Escape => self.key_escape,
            Key::Up => self.key_up,
            Key::Down => self.key_down,
            Key::Left => self.key_left,
            Key::Right => self.key_right,
            Key::Space => self.key_space,
            Key::Enter => self.key_enter,
        }
    }

    proof fn lemma_with_key(frame: ImmediateEvents, changed: Key, state: Option<bool>, key: Key)
        ensures
            frame.with_key(changed, state).quit == frame.quit,
            frame.with_key(changed, state).key(key) == (if key == changed {
                state
            } else {
                frame.key(key)
            }),
    {
    }

    fn set_key(&mut self, key: Key, state: Option<bool>)
        ensures
            *final(self) == old(self).with_key(key, state),
    {
        match key {
            Key::Escape => self.key_escape = state,
            Key::Up => self.key_up = state,
            Key::Down => self.key_down = state,
            Key::Left => self.key_left = state,
            Key::Right => self.key_right = state,
            Key::Space => self.key_space = state,
            Key::Enter => self.key_enter = state,
        }
    }
}

/// The input snapshot. `now` holds what happened during the current frame
/// and `previous` what happened during the one before; the flags tell which
/// keys are held down.
#[derive(Clone, Copy, Debug, PartialEq, Eq, Structural)]
pub struct Events {
    pub now: ImmediateEvents,
    pub previous: ImmediateEvents,
    pub key_escape: bool,
    pub key_up: bool,
    pub key_down: bool,
    pub key_left: bool,
    pub key_right: bool,
    pub key_space: bool,
    pub key_enter: bool,
}

impl Events {
    /// The snapshot before any input: nothing happened and no key is held.
    pub open spec fn spec_new() -> Events {
        Events {
            now: ImmediateEvents::spec_new(),
            previous: ImmediateEvents::spec_new(),
            key_escape: false,
            key_up: false,
            key_down: false,
            key_left: false,
            key_right: false,
            key_space: false,
            key_enter: false,
        }
    }

    /// Whether `key` is held down.
    pub open spec fn spec_held(&self, key: Key) -> bool {
        match key {
            Key::Escape => self.key_escape,
            Key::Up => self.key_up,
            Key::Down => self.key_down,
            Key::Left => self.key_left,
            Key::Right => self.key_right,
            Key::Space => self.key_space,
            Key::Enter => self.key_enter,
        }
    }

    /// The snapshot with `key` held or not as `held` says, and all else as
    /// in `self`.
    pub open spec fn with_held(self, key: Key, held: bool) -> Events {
        match key {
            Key::Escape => Events { key_escape: held, ..self },
            Key::Up => Events { key_up: held, ..self },
            Key::Down => Events { key_down: held, ..self },
            Key::Left => Events { key_left: held, ..self },
            Key::Right => Events { key_right: held, ..self },
            Key::Space => Events { key_space: held, ..self },
            Key::Enter => Events { key_enter: held, ..self },
        }
    }

    /// The snapshot at the start of a new frame: what was the current frame
    /// is the previous one, nothing has happened yet, and the held keys are
    /// still held.
    pub open spec fn rotated(self) -> Events {
        Events { now: ImmediateEvents::spec_new(), previous: self.now, ..self }
    }

    /// The snapshot after one report of the input source. A key that goes
    /// down counts as pressed only if it was not held; it is held from then
    /// on. A key that goes up counts as released and is no longer held.
    pub open spec fn after(self, event: Event) -> Events {
        match event {
            Event::KeyDown(key) => {
                let now = if self.spec_held(key) {
                    self.now
                } else {
                    self.now.with_key(key, Some(true))
                };
                (Events { now, ..self }).with_held(key, true)
            },
            Event::KeyUp(key) => (Events {
                now: self.now.with_key(key, Some(false)),
                ..self
            }).with_held(key, false),
            Event::Quit => Events { now: ImmediateEvents { quit: true, ..self.now }, ..self },
        }
    }

    /// The snapshot after a run of reports, taken in order.
    pub open spec fn after_all(self, events: Seq<Event>) -> Events
        decreases events.len(),
    {
        if events.len() == 0 {
            self
        } else {
            self.after_all(events.drop_last()).after(events.last())
        }
    }

    /// The snapshot before any input.
    #[verifier::when_used_as_spec(spec_new)]
    pub fn new() -> (events: Events)
        ensures
            events == Events::spec_new(),
    {
        Events {
            now: ImmediateEvents::new(),
            previous: ImmediateEvents::new(),
            key_escape: false,
            key_up: false,
            key_down: false,
            key_left: false,
            key_right: false,
            key_space: false,
            key_enter: false,
        }
    }

    /// Whether `key` is held down.
    #[verifier::when_used_as_spec(spec_held)]
    pub fn held(&self, key: Key) -> (held: bool)
        ensures
            held == self.spec_held(key),
    {
        match key {
            Key::Escape => self.key_escape,
            Key::Up => self.key_up,
            Key::Down => self.key_down,
            Key::Left => self.key_left,
            Key::Right => self.key_right,
            Key::Space => self.key_space,
            Key::Enter => self.key_enter,
        }
    }

    fn set_held(&mut self, key: Key, held: bool)
        ensures
            *final(self) == old(self).with_held(key, held),
    {
        match key {
            Key::Escape => self.key_escape = held,
            Key::Up => self.key_up = held,
            Key::Down => self.key_down = held,
            Key::Left => self.key_left = held,
            Key::Right => self.key_right = held,
            Key::Space => self.key_space = held,
            Key::Enter => self.key_enter = held,
        }
    }

    /// Takes one report of the input source into the snapshot.
    pub fn handle(&mut self, event: Event)
        ensures
            *final(self) == old(self).after(event),
    {
        match event {
            Event::KeyDown(key) => {
                if !self.held(key) {
                    self.now.set_key(key, Some(true));
                }
                self.set_held(key, true);
            },
            Event::KeyUp(key) => {
                self.now.set_key(key, Some(false));
                self.set_held(key, false);
            },
            Event::Quit => {
                self.now.quit = true;
            },
        }
    }

    /// Starts a new frame and takes in what the input source reported since
    /// the last one, in order.
    pub fn pump(&mut self, polled: &Vec<Event>)
        ensures
            *final(self) == old(self).rotated().after_all(polled@),
            final(self).previous == old(self).now,
    {
        self.previous = self.now;
        self.now = ImmediateEvents::new();
        let ghost start = *self;
        let mut i: usize = 0;
        while i < polled.len()
            invariant
                i <= polled.len(),
                *self == start.after_all(polled@.take(i as int)),
            decreases polled.len() - i,
        {
            proof {
                assert(polled@.take(i + 1).drop_last() == polled@.take(i as int));
            }
            self.handle(polled[i]);
            i += 1;
        }
        proof {
            assert(polled@.take(polled.len() as int) == polled@);
            Events::lemma_previous_kept(start, polled@);
        }
    }

    /// No report changes what happened during the previous frame.
    pub proof fn lemma_previous_kept(before: Events, events: Seq<Event>)
        ensures
            before.after_all(events).previous == before.previous,
        decreases events.len(),
    {
        if events.len() > 0 {
            Events::lemma_previous_kept(before, events.drop_last());
        }
    }

    /// Whatever is reported, a pump hands the current frame down to be the
    /// previous one; and if nothing is reported, nothing has happened in the
    /// new frame and the held keys are still held.
    pub proof fn lemma_pump_rotates(before: Events, events: Seq<Event>)
        ensures
            before.rotated().after_all(events).previous == before.now,
            before.rotated().after_all(Seq::empty()).now == ImmediateEvents::spec_new(),
            forall|key: Key| before.rotated().after_all(Seq::empty()).held(key) == before.held(key),
    {
        Events::lemma_previous_kept(before.rotated(), events);
    }

    /// What one report does to one key: only the reported key is touched.
    pub proof fn lemma_after_one_key(before: Events, event: Event, key: Key)
        ensures
            event == Event::Quit ==> before.after(event).held(key) == before.held(key)
                && before.after(event).now.key(key) == before.now.key(key),
            event matches Event::KeyDown(k) && k != key ==> before.after(event).held(key)
                == before.held(key) && before.after(event).now.key(key) == before.now.key(key),
            event matches Event::KeyUp(k) && k != key ==> before.after(event).held(key)
                == before.held(key) && before.after(event).now.key(key) == before.now.key(key),
            event == Event::KeyDown(key) ==> before.after(event).held(key) && before.after(
                event,
            ).now.key(key) == (if before.held(key) {
                before.now.key(key)
            } else {
                Some(true)
            }),
            event == Event::KeyUp(key) ==> !before.after(event).held(key) && before.after(
                event,
            ).now.key(key) == Some(false),
    {
        match event {
            Event::KeyDown(k) => {
                let now = if before.spec_held(k) {
                    before.now
                } else {
                    before.now.with_key(k, Some(true))
                };
                ImmediateEvents::lemma_with_key(before.now, k, Some(true), key);
                Events::lemma_with_held(Events { now, ..before }, k, true, key);
            },
            Event::KeyUp(k) => {
                ImmediateEvents::lemma_with_key(before.now, k, Some(false), key);
                Events::lemma_with_held(
                    Events { now: before.now.with_key(k, Some(false)), ..before },
                    k,
                    false,
                    key,
                );
            },
            Event::Quit => {},
        }
    }

    proof fn lemma_with_held(events: Events, changed: Key, held: bool, key: Key)
        ensures
            events.with_held(changed, held).now == events.now,
            events.with_held(changed, held).previous == events.previous,
            events.with_held(changed, held).held(key) == (if key == changed {
                held
            } else {
                events.held(key)
            }),
    {
    }

    /// A key that the current frame counts as pressed is held at the end of
    /// the pump, and one that it counts as released is not, whatever was
    /// reported.
    pub proof fn lemma_edges_agree_with_held(before: Events, events: Seq<Event>, key: Key)
        requires
            before.now.key(key) matches Some(pressed) ==> before.held(key) == pressed,
        ensures
            before.after_all(events).now.key(key) matches Some(pressed) ==> before.after_all(
                events,
            ).held(key) == pressed,
        decreases events.len(),
    {
        if events.len() > 0 {
            Events::lemma_edges_agree_with_held(before, events.drop_last(), key);
            Events::lemma_after_one_key(before.after_all(events.drop_last()), events.last(), key);
        }
    }
}

} // verus!
