use vstd::prelude::*;

use crate::admission::{admission, check_admission, listed, same_path, same_path_as, AdmitError};
use crate::event::{InputEvent, Key, EV_KEY, EV_REL, REL_X, REL_Y};
use crate::states::{start_frame, stop_frame, Fingers, Normal, State, Swiping};

verus! {

/// What the engine is told by its caller, fixed for its lifetime.
pub struct Config {
    /// Source paths to admit; when empty, every path may be admitted.
    pub input_allow: Vec<String>,
    /// Source paths never to admit.
    pub input_deny: Vec<String>,
    /// The key that starts a swipe with two, three, four or five fingers.
    pub swipe_2: Option<Key>,
    pub swipe_3: Option<Key>,
    pub swipe_4: Option<Key>,
    pub swipe_5: Option<Key>,
    /// Whether a swipe takes exclusive use of its source device.
    pub grab: bool,
}

/// A change among the files of the input-device directory.
pub enum NotifyEvent {
    Created(String),
    Removed(String),
}

/// What the caller is to do after an input event.
#[derive(Debug)]
pub enum Reaction {
    /// Nothing.
    Nothing,
    /// A trigger key was pressed while idle. The caller grabs the source
    /// device if `grab` holds, and unless that fails calls
    /// `Engine::start_swiping` with these values.
    StartRequested { trigger: Key, fingers: Fingers, grab: bool },
    /// The swipe moved: the offset is now (x, y). The caller scales it and
    /// emits `update_events` for the fingers.
    Moved { fingers: Fingers, x: i64, y: i64 },
    /// The swipe ended. The caller emits `events`, and ungrabs the source
    /// device if `ungrab` holds.
    Stopped { events: Vec<InputEvent>, ungrab: bool },
}

/// What the caller is to do after a device was removed.
#[derive(Debug)]
pub enum Removal {
    /// The path was not registered: nothing.
    NotRegistered,
    /// The path is no longer registered; the caller drops its handle.
    Removed,
    /// The path owned the swipe, which has ended. The caller emits `events`,
    /// never ungrabs the device, which is gone, and drops its handle.
    StoppedSwipe(Vec<InputEvent>),
}

/// What became of a device notification.
#[derive(Debug)]
pub enum DeviceOutcome {
    /// The created path is registered; the caller opens it.
    Admitted,
    /// The created path is not registered, for this reason.
    NotAdmitted(AdmitError),
    /// What the removal of a path asks of the caller.
    Removal(Removal),
}

/// Whether the event presses the key `trigger`, if there is one.
pub open spec fn presses(trigger: Option<Key>, e: InputEvent) -> bool {
    &&& trigger is Some
    &&& e.event_type == EV_KEY
    &&& e.code == trigger.unwrap().0
    &&& e.value == 1
}

/// The trigger and finger count that the event starts a swipe with, if any.
/// Where several finger counts share one key, the largest count wins.
pub open spec fn start_trigger(c: Config, e: InputEvent) -> Option<(Key, Fingers)> {
    if presses(c.swipe_5, e) {
        Some((c.swipe_5.unwrap(), Fingers::Five))
    } else if presses(c.swipe_4, e) {
        Some((c.swipe_4.unwrap(), Fingers::Four))
    } else if presses(c.swipe_3, e) {
        Some((c.swipe_3.unwrap(), Fingers::Three))
    } else if presses(c.swipe_2, e) {
        Some((c.swipe_2.unwrap(), Fingers::Two))
    } else {
        None
    }
}

pub open spec fn is_rel(e: InputEvent, axis: u16) -> bool {
    e.event_type == EV_REL && e.code == axis
}

pub open spec fn fits_i64(v: int) -> bool {
    i64::MIN <= v <= i64::MAX
}

/// Whether `p` is, letter for letter, one of the paths of `list`.
pub open spec fn holds_path(list: Seq<String>, p: Seq<char>) -> bool {
    exists|i: int| 0 <= i < list.len() && #[trigger] list[i]@ == p
}

/// The index of the first path of `list` that is the same path as `p`.
pub open spec fn first_match(list: Seq<String>, p: Seq<char>, i: int) -> bool {
    &&& 0 <= i < list.len()
    &&& same_path_as(list[i]@, p)
    &&& forall|j: int| 0 <= j < i ==> !same_path_as(#[trigger] list[j]@, p)
}

fn trigger_pressed(trigger: Option<Key>, e: &InputEvent) -> (r: bool)
    ensures
        r == presses(trigger, *e),
{
    match trigger {
        Some(k) => e.event_type == EV_KEY && e.code == k.0 && e.value == 1,
        None => false,
    }
}

fn find_path(list: &Vec<String>, path: &String) -> (r: Option<usize>)
    ensures
        match r {
            Some(i) => first_match(list@, path@, i as int),
            None => !listed(list@, path@),
        },
{
    let mut i: usize = 0;
    while i < list.len()
        invariant
            0 <= i <= list@.len(),
            forall|j: int| 0 <= j < i ==> !same_path_as(#[trigger] list@[j]@, path@),
        decreases list@.len() - i,
    {
        if same_path(&list[i], path) {
            return Some(i);
        }
        i = i + 1;
    }
    None
}

/// The engine: the registry of source paths and the gesture machine.
pub struct Engine {
    config: Config,
    sink_dev_nodes: Vec<String>,
    sources: Vec<String>,
    state: State,
}

impl Engine {
    pub closed spec fn config(&self) -> Config {
        self.config
    }

    /// The device nodes of the synthetic trackpad.
    pub closed spec fn sink_dev_nodes(&self) -> Seq<String> {
        self.sink_dev_nodes@
    }

    /// The registered source paths, in the order of their admission.
    pub closed spec fn sources(&self) -> Seq<String> {
        self.sources@
    }

    pub closed spec fn state(&self) -> State {
        self.state
    }

    /// No two registered paths are the same path, and a swipe's source path
    /// is registered.
    pub closed spec fn wf(&self) -> bool {
        &&& forall|i: int, j: int|
            0 <= i < j < self.sources@.len() ==> !same_path_as(
                #[trigger] self.sources@[i]@,
                #[trigger] self.sources@[j]@,
            )
        &&& self.state matches State::Swiping(s) ==> holds_path(self.sources@, s.input_path@)
    }

    /// An idle engine with no source registered.
    pub fn new(config: Config, sink_dev_nodes: Vec<String>) -> (r: Engine)
        ensures
            r.config() == config,
            r.sink_dev_nodes() == sink_dev_nodes@,
            r.sources() == Seq::<String>::empty(),
            r.state() is Normal,
            r.wf(),
    {
        Engine { config, sink_dev_nodes, sources: Vec::new(), state: State::Normal(Normal::new()) }
    }

    pub fn is_swiping(&self) -> (r: bool)
        ensures
            r == self.state() is Swiping,
    {
        match self.state {
            State::Swiping(_) => true,
            State::Normal(_) => false,
        }
    }

    /// Admits `path` as a source and registers it, or says why not (see
    /// `check_admission`). The caller then opens the device; if that fails
    /// it removes the path again.
    pub fn add_device(&mut self, path: String) -> (r: Result<(), AdmitError>)
        requires
            old(self).wf(),
        ensures
            final(self).wf(),
            r == admission(
                path@,
                old(self).sink_dev_nodes(),
                old(self).config().input_allow@,
                old(self).config().input_deny@,
                old(self).sources(),
            ),
            r is Ok ==> final(self).sources() == old(self).sources().push(path),
            r is Err ==> final(self).sources() == old(self).sources(),
            final(self).state() == old(self).state(),
            final(self).config() == old(self).config(),
            final(self).sink_dev_nodes() == old(self).sink_dev_nodes(),
    {
        let r = check_admission(
            &path,
            &self.sink_dev_nodes,
            &self.config.input_allow,
            &self.config.input_deny,
            &self.sources,
        );
        if r.is_ok() {
            let ghost before = self.sources@;
            self.sources.push(path);
            proof {
                assert forall|i: int| 0 <= i < before.len() implies before[i]@ != path@ by {
                    assert(!same_path_as(before[i]@, path@));
                }
                if let State::Swiping(s) = &self.state {
                    let k = choose|k: int| 0 <= k < before.len() && #[trigger] before[k]@ == s.input_path@;
                    assert(self.sources@[k]@ == s.input_path@);
                }
            }
        }
        r
    }

    /// Unregisters `path`. When it owned the swipe, the swipe ends, and the
    /// device is not ungrabbed; a swipe on another device goes on untouched.
    pub fn remove_device(&mut self, path: &String) -> (r: Removal)
        requires
            old(self).wf(),
        ensures
            final(self).wf(),
            final(self).config() == old(self).config(),
            final(self).sink_dev_nodes() == old(self).sink_dev_nodes(),
            !listed(old(self).sources(), path@) ==> {
                &&& r is NotRegistered
                &&& final(self).sources() == old(self).sources()
                &&& final(self).state() == old(self).state()
            },
            listed(old(self).sources(), path@) ==> exists|i: int|
                first_match(old(self).sources(), path@, i) && final(self).sources() == old(
                    self,
                ).sources().remove(i),
            listed(old(self).sources(), path@) ==> match old(self).state() {
                State::Swiping(s) => if same_path_as(s.input_path@, path@) {
                    &&& final(self).state() is Normal
                    &&& r matches Removal::StoppedSwipe(events)
                    &&& events@ == stop_frame(s.fingers)
                } else {
                    &&& final(self).state() == old(self).state()
                    &&& r is Removed
                },
                State::Normal(_) => {
                    &&& final(self).state() == old(self).state()
                    &&& r is Removed
                },
            },
    {
        let i = match find_path(&self.sources, path) {
            Some(i) => i,
            None => {
                return Removal::NotRegistered;
            },
        };
        let ghost before = self.sources@;
        self.sources.remove(i);
        proof {
            assert forall|a: int, b: int|
                0 <= a < b < self.sources@.len() implies !same_path_as(
                #[trigger] self.sources@[a]@,
                #[trigger] self.sources@[b]@,
            ) by {
                let a0 = if a < i { a } else { a + 1 };
                let b0 = if b < i { b } else { b + 1 };
                assert(self.sources@[a] == before[a0]);
                assert(self.sources@[b] == before[b0]);
            }
        }
        let stop = match &self.state {
            State::Swiping(s) => same_path(&s.input_path, path),
            State::Normal(_) => false,
        };
        if stop {
            let mut st = State::Normal(Normal::new());
            std::mem::swap(&mut self.state, &mut st);
            match st {
                State::Swiping(s) => {
                    let (normal, events) = s.stop();
                    self.state = State::from(normal);
                    Removal::StoppedSwipe(events)
                },
                State::Normal(n) => {
                    self.state = State::Normal(n);
                    Removal::Removed
                },
            }
        } else {
            proof {
                if let State::Swiping(s) = &self.state {
                    let k = choose|k: int| 0 <= k < before.len() && #[trigger] before[k]@ == s.input_path@;
                    assert(k != i);
                    let k1 = if k < i { k } else { k - 1 };
                    assert(self.sources@[k1] == before[k]);
                }
            }
            Removal::Removed
        }
    }

    /// Starts a swipe from `source_path` once the caller has grabbed the
    /// device (or grabbing is off). Returns the events that put the fingers
    /// down; `None`, with nothing changed, while a swipe is running already or
    /// when `source_path` is not registered under exactly this spelling.
    pub fn start_swiping(&mut self, source_path: String, trigger: Key, fingers: Fingers) -> (r:
        Option<Vec<InputEvent>>)
        requires
            old(self).wf(),
        ensures
            final(self).wf(),
            final(self).config() == old(self).config(),
            final(self).sink_dev_nodes() == old(self).sink_dev_nodes(),
            final(self).sources() == old(self).sources(),
            (old(self).state() is Normal && holds_path(old(self).sources(), source_path@)) ==> {
                &&& r matches Some(events)
                &&& events@ == start_frame(fingers)
                &&& final(self).state() == State::Swiping(
                    Swiping { input_path: source_path, trigger, fingers, x: 0, y: 0 },
                )
            },
            !(old(self).state() is Normal && holds_path(old(self).sources(), source_path@)) ==> {
                &&& r is None
                &&& final(self).state() == old(self).state()
            },
    {
        if !self.is_registered(&source_path) {
            return None;
        }
        let mut st = State::Normal(Normal::new());
        std::mem::swap(&mut self.state, &mut st);
        match st {
            State::Normal(normal) => {
                let (swiping, events) = normal.start_swiping(source_path, trigger, fingers);
                self.state = State::from(swiping);
                Some(events)
            },
            State::Swiping(swiping) => {
                self.state = State::from(swiping);
                None
            },
        }
    }

    /// Interprets one event read from the source at `source_path`.
    ///
    /// Idle, a press of a trigger key asks for a swipe to start. Swiping,
    /// relative motion on X or Y from any source moves the swipe (motion that
    /// would take the offset out of the range of `i64` is dropped), and the
    /// release of the swipe's trigger key ends it. Any other event changes
    /// nothing.
    pub fn on_input_event(&mut self, source_path: &String, event: InputEvent) -> (r: Reaction)
        requires
            old(self).wf(),
        ensures
            final(self).wf(),
            final(self).config() == old(self).config(),
            final(self).sink_dev_nodes() == old(self).sink_dev_nodes(),
            final(self).sources() == old(self).sources(),
            match old(self).state() {
                State::Normal(_) => {
                    &&& final(self).state() == old(self).state()
                    &&& match start_trigger(old(self).config(), event) {
                        Some((trigger, fingers)) => r == Reaction::StartRequested {
                            trigger,
                            fingers,
                            grab: old(self).config().grab,
                        },
                        None => r is Nothing,
                    }
                },
                State::Swiping(s) => if is_rel(event, REL_X) && fits_i64(s.x + event.value) {
                    &&& final(self).state() == State::Swiping(
                        Swiping { x: (s.x + event.value) as i64, ..s },
                    )
                    &&& r == Reaction::Moved {
                        fingers: s.fingers,
                        x: (s.x + event.value) as i64,
                        y: s.y,
                    }
                } else if is_rel(event, REL_Y) && fits_i64(s.y + event.value) {
                    &&& final(self).state() == State::Swiping(
                        Swiping { y: (s.y + event.value) as i64, ..s },
                    )
                    &&& r == Reaction::Moved {
                        fingers: s.fingers,
                        x: s.x,
                        y: (s.y + event.value) as i64,
                    }
                } else if event.event_type == EV_KEY && event.code == s.trigger.0 && event.value
                    == 0 {
                    &&& final(self).state() is Normal
                    &&& r matches Reaction::Stopped { events, ungrab }
                    &&& events@ == stop_frame(s.fingers)
                    &&& ungrab == old(self).config().grab
                } else {
                    &&& final(self).state() == old(self).state()
                    &&& r is Nothing
                },
            },
    {
        let mut st = State::Normal(Normal::new());
        std::mem::swap(&mut self.state, &mut st);
        match st {
            State::Normal(normal) => {
                self.state = State::from(normal);
                let mut start: Option<(Key, Fingers)> = None;
                if trigger_pressed(self.config.swipe_2, &event) {
                    start = Some((self.config.swipe_2.unwrap(), Fingers::Two));
                }
                if trigger_pressed(self.config.swipe_3, &event) {
                    start = Some((self.config.swipe_3.unwrap(), Fingers::Three));
                }
                if trigger_pressed(self.config.swipe_4, &event) {
                    start = Some((self.config.swipe_4.unwrap(), Fingers::Four));
                }
                if trigger_pressed(self.config.swipe_5, &event) {
                    start = Some((self.config.swipe_5.unwrap(), Fingers::Five));
                }
                match start {
                    Some((trigger, fingers)) => Reaction::StartRequested {
                        trigger,
                        fingers,
                        grab: self.config.grab,
                    },
                    None => Reaction::Nothing,
                }
            },
            State::Swiping(mut swiping) => {
                let x_motion = event.event_type == EV_REL && event.code == REL_X;
                let y_motion = event.event_type == EV_REL && event.code == REL_Y;
                if x_motion && swiping.x.checked_add(event.value as i64).is_some() {
                    swiping.update(event.value, 0);
                    let r = Reaction::Moved { fingers: swiping.fingers, x: swiping.x, y: swiping.y };
                    self.state = State::from(swiping);
                    r
                } else if y_motion && swiping.y.checked_add(event.value as i64).is_some() {
                    swiping.update(0, event.value);
                    let r = Reaction::Moved { fingers: swiping.fingers, x: swiping.x, y: swiping.y };
                    self.state = State::from(swiping);
                    r
                } else if event.event_type == EV_KEY && event.code == swiping.trigger.0
                    && event.value == 0 {
                    let (normal, events) = swiping.stop();
                    self.state = State::from(normal);
                    Reaction::Stopped { events, ungrab: self.config.grab }
                } else {
                    self.state = State::from(swiping);
                    Reaction::Nothing
                }
            },
        }
    }

    /// Handles a notification of the input-device directory: a created path
    /// goes through `add_device`, a removed one through `remove_device`.
    pub fn on_device_event(&mut self, event: NotifyEvent) -> (r: DeviceOutcome)
        requires
            old(self).wf(),
        ensures
            final(self).wf(),
            final(self).config() == old(self).config(),
            final(self).sink_dev_nodes() == old(self).sink_dev_nodes(),
            match event {
                NotifyEvent::Created(path) => {
                    let a = admission(
                        path@,
                        old(self).sink_dev_nodes(),
                        old(self).config().input_allow@,
                        old(self).config().input_deny@,
                        old(self).sources(),
                    );
                    &&& final(self).state() == old(self).state()
                    &&& match a {
                        Ok(_) => r is Admitted && final(self).sources() == old(self).sources().push(
                            path,
                        ),
                        Err(e) => r == DeviceOutcome::NotAdmitted(e) && final(self).sources()
                            == old(self).sources(),
                    }
                },
                NotifyEvent::Removed(path) => {
                    &&& r is Removal
                    &&& !listed(old(self).sources(), path@) ==> {
                        &&& final(self).sources() == old(self).sources()
                        &&& final(self).state() == old(self).state()
                    }
                    &&& listed(old(self).sources(), path@) ==> exists|i: int|
                        first_match(old(self).sources(), path@, i) && final(self).sources()
                            == old(self).sources().remove(i)
                    &&& listed(old(self).sources(), path@) ==> match old(self).state() {
                        State::Swiping(s) => if same_path_as(s.input_path@, path@) {
                            &&& final(self).state() is Normal
                            &&& r matches DeviceOutcome::Removal(Removal::StoppedSwipe(events))
                            &&& events@ == stop_frame(s.fingers)
                        } else {
                            &&& final(self).state() == old(self).state()
                            &&& r matches DeviceOutcome::Removal(Removal::Removed)
                        },
                        State::Normal(_) => {
                            &&& final(self).state() == old(self).state()
                            &&& r matches DeviceOutcome::Removal(Removal::Removed)
                        },
                    }
                },
            },
    {
        match event {
            NotifyEvent::Created(path) => match self.add_device(path) {
                Ok(()) => DeviceOutcome::Admitted,
                Err(e) => DeviceOutcome::NotAdmitted(e),
            },
            NotifyEvent::Removed(path) => DeviceOutcome::Removal(self.remove_device(&path)),
        }
    }

    /// Whether `path` is registered under exactly this spelling.
    pub fn is_registered(&self, path: &String) -> (r: bool)
        ensures
            r == holds_path(self.sources(), path@),
    {
        let mut i: usize = 0;
        while i < self.sources.len()
            invariant
                0 <= i <= self.sources@.len(),
                forall|j: int| 0 <= j < i ==> #[trigger] self.sources@[j]@ != path@,
            decreases self.sources@.len() - i,
        {
            if self.sources[i] == *path {
                return true;
            }
            i = i + 1;
        }
        false
    }
}

} // verus!
