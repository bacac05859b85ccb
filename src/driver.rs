use vstd::prelude::*;
use crate::scene::{init_camera, init_square, quad_drawable, CameraSpec, SceneModel, SceneState};

verus! {

/// A key of the keyboard, as far as the driver tells keys apart.
#[derive(Clone, Copy, Debug, PartialEq, Eq, Structural)]
pub enum Key {
    Escape,
    Letter(char),
    Other(u32),
}

/// An input event handed to the driver by the host loop.
#[derive(Clone, Copy, Debug, PartialEq, Eq, Structural)]
pub enum Event {
    /// The window manager asked to close the window.
    CloseRequested,
    KeyPressed(Key),
    KeyReleased(Key),
    /// Any other input, which the driver ignores.
    Other,
}

/// Where the driver is in its life. `Quitting` is terminal.
#[derive(Clone, Copy, Debug, PartialEq, Eq, Structural)]
pub enum DriverState {
    /// Built, but `on_start` has not run yet.
    NotStarted,
    Running,
    Quitting,
}

/// What the driver asks of the host loop after a callback.
#[derive(Clone, Copy, Debug, PartialEq, Eq, Structural)]
pub enum Trans {
    /// Keep going.
    Continue,
    /// Stop the loop and tear the window down.
    Quit,
}

/// An event asks to quit when it is a close request or a press of Escape.
pub open spec fn is_quit_event(e: Event) -> bool {
    e == Event::CloseRequested || e == Event::KeyPressed(Key::Escape)
}

/// The state after one event: a running driver quits on a quit event, and
/// every other pair of state and event leaves the state as it was.
pub open spec fn next_state(s: DriverState, e: Event) -> DriverState {
    if s == DriverState::Running && is_quit_event(e) {
        DriverState::Quitting
    } else {
        s
    }
}

/// The state after a whole sequence of events, taken in order.
pub open spec fn run_events(s: DriverState, events: Seq<Event>) -> DriverState
    decreases events.len(),
{
    if events.len() == 0 {
        s
    } else {
        next_state(run_events(s, events.drop_last()), events.last())
    }
}

/// The driver as a value: its state and its scene.
pub struct DriverModel {
    pub state: DriverState,
    pub scene: SceneModel,
}

/// `after` is what `on_start` makes of `before`: the state is `Running`, one
/// standard 2D camera and then the quad were appended to the scene, and
/// nothing that was there changed.
pub open spec fn starts(before: DriverModel, after: DriverModel) -> bool {
    &&& after.state == DriverState::Running
    &&& after.scene.cameras == before.scene.cameras.push(CameraSpec::Standard2d)
    &&& after.scene.drawables.len() == before.scene.drawables.len() + 1
    &&& forall|i: int|
        0 <= i < before.scene.drawables.len() ==> #[trigger] after.scene.drawables[i]
            == before.scene.drawables[i]
    &&& after.scene.drawables.last()@ == quad_drawable()
}

/// What `update` makes of the driver: the scene is static, so nothing changes.
pub open spec fn updated(m: DriverModel) -> DriverModel {
    m
}

/// The driver after `n` calls of `update`.
pub open spec fn after_updates(m: DriverModel, n: nat) -> DriverModel
    decreases n,
{
    if n == 0 {
        m
    } else {
        updated(after_updates(m, (n - 1) as nat))
    }
}

/// The per-frame control of the program: builds the scene on start, watches
/// the input for a request to quit, and keeps the scene as it is on update.
pub struct FrameDriver {
    state: DriverState,
    scene: SceneState,
}

impl View for FrameDriver {
    type V = DriverModel;

    closed spec fn view(&self) -> DriverModel {
        DriverModel { state: self.state, scene: self.scene@ }
    }
}

impl FrameDriver {
    /// A driver that has not started, with an empty scene.
    pub fn new() -> (r: FrameDriver)
        ensures
            r@.state == DriverState::NotStarted,
            r@.scene.cameras.len() == 0,
            r@.scene.drawables.len() == 0,
    {
        FrameDriver { state: DriverState::NotStarted, scene: SceneState::new() }
    }

    /// Builds the scene (the camera, then the quad) and enters `Running`.
    pub fn on_start(&mut self)
        ensures
            starts(old(self)@, final(self)@),
    {
        init_camera(&mut self.scene);
        init_square(&mut self.scene);
        self.state = DriverState::Running;
    }

    /// Reacts to one input event: asks to quit on a close request or on a
    /// press of Escape, and moves a running driver to `Quitting` then. The
    /// scene is not touched.
    pub fn handle_event(&mut self, event: Event) -> (r: Trans)
        ensures
            r == (if is_quit_event(event) { Trans::Quit } else { Trans::Continue }),
            final(self)@.state == next_state(old(self)@.state, event),
            final(self)@.scene == old(self)@.scene,
    {
        let quit = match event {
            Event::CloseRequested => true,
            Event::KeyPressed(Key::Escape) => true,
            _ => false,
        };
        if quit {
            if self.state == DriverState::Running {
                self.state = DriverState::Quitting;
            }
            Trans::Quit
        } else {
            Trans::Continue
        }
    }

    /// The per-frame step: the scene is static, so it changes nothing and
    /// asks the host to go on.
    pub fn update(&mut self) -> (r: Trans)
        ensures
            r == Trans::Continue,
            final(self)@ == updated(old(self)@),
    {
        Trans::Continue
    }

    /// Hands the events to `handle_event` in order and returns the state
    /// before the first event and after each one.
    pub fn feed_events(&mut self, events: &Vec<Event>) -> (r: Vec<DriverState>)
        requires
            events@.len() < usize::MAX,
        ensures
            r@.len() == events@.len() + 1,
            forall|i: int|
                0 <= i <= events@.len() ==> #[trigger] r@[i] == run_events(
                    old(self)@.state,
                    events@.take(i),
                ),
            final(self)@.state == run_events(old(self)@.state, events@),
            final(self)@.scene == old(self)@.scene,
    {
        let ghost s0 = self@.state;
        let mut r: Vec<DriverState> = Vec::new();
        r.push(self.state);
        assert(events@.take(0) =~= Seq::<Event>::empty());
        let mut i: usize = 0;
        while i < events.len()
            invariant
                i <= events@.len(),
                r@.len() == i + 1,
                forall|j: int| 0 <= j <= i ==> #[trigger] r@[j] == run_events(s0, events@.take(j)),
                self@.state == run_events(s0, events@.take(i as int)),
                self@.scene == old(self)@.scene,
            decreases events@.len() - i,
        {
            self.handle_event(events[i]);
            assert(events@.take(i + 1).drop_last() =~= events@.take(i as int));
            i = i + 1;
            r.push(self.state);
        }
        assert(events@.take(i as int) =~= events@);
        r
    }

    pub fn state(&self) -> (r: DriverState)
        ensures
            r == self@.state,
    {
        self.state
    }

    pub fn scene(&self) -> (r: &SceneState)
        ensures
            r@ == self@.scene,
    {
        &self.scene
    }
}

/// A run that starts `Running` is, after any events, `Running` or `Quitting`.
pub proof fn lemma_running_stays_live(events: Seq<Event>)
    ensures
        run_events(DriverState::Running, events) == DriverState::Running || run_events(
            DriverState::Running,
            events,
        ) == DriverState::Quitting,
    decreases events.len(),
{
    if events.len() > 0 {
        lemma_running_stays_live(events.drop_last());
    }
}

/// Starting a fresh driver leaves exactly one camera and exactly one
/// drawable, the quad, in its scene, and the driver `Running`.
pub proof fn lemma_start_builds_one_of_each(before: DriverModel, after: DriverModel)
    requires
        before.scene.cameras.len() == 0,
        before.scene.drawables.len() == 0,
        starts(before, after),
    ensures
        after.state == DriverState::Running,
        after.scene.cameras == seq![CameraSpec::Standard2d],
        after.scene.drawables.len() == 1,
        after.scene.drawables[0]@ == quad_drawable(),
{
    assert(after.scene.cameras =~= seq![CameraSpec::Standard2d]);
}

/// A close request always ends a run that started `Running`, whatever events
/// came before it.
pub proof fn lemma_close_always_quits(history: Seq<Event>)
    ensures
        run_events(DriverState::Running, history.push(Event::CloseRequested))
            == DriverState::Quitting,
{
    lemma_running_stays_live(history);
    assert(history.push(Event::CloseRequested).drop_last() =~= history);
}

/// A press of Escape always ends a run that started `Running`, whatever
/// events came before it; a press of any other key never changes the state.
pub proof fn lemma_escape_quits_other_keys_do_not(history: Seq<Event>, s: DriverState, k: Key)
    ensures
        run_events(DriverState::Running, history.push(Event::KeyPressed(Key::Escape)))
            == DriverState::Quitting,
        k != Key::Escape ==> next_state(s, Event::KeyPressed(k)) == s,
{
    lemma_running_stays_live(history);
    assert(history.push(Event::KeyPressed(Key::Escape)).drop_last() =~= history);
}

/// Any number of updates leaves the state and the scene, and so the number
/// of cameras and drawables, as they were.
pub proof fn lemma_updates_keep_scene(m: DriverModel, n: nat)
    ensures
        after_updates(m, n) == m,
        after_updates(m, n).scene.cameras.len() == m.scene.cameras.len(),
        after_updates(m, n).scene.drawables.len() == m.scene.drawables.len(),
    decreases n,
{
    if n > 0 {
        lemma_updates_keep_scene(m, (n - 1) as nat);
    }
}

/// Why the process could not start. Either one ends it before the driver
/// ever runs.
#[derive(Clone, Copy, Debug, PartialEq, Eq, Structural)]
pub enum StartupError {
    /// The display configuration was missing or malformed.
    ConfigLoad,
    /// The render pipeline or its bundle could not be built.
    PipelineBuild,
}

/// The process exit status for the outcome of a run: 0 when it ended by
/// quitting normally, 1 when it could not start.
pub fn exit_code(outcome: &Result<(), StartupError>) -> (r: i32)
    ensures
        outcome is Ok ==> r == 0,
        outcome is Err ==> r == 1,
{
    match outcome {
        Ok(()) => 0,
        Err(_) => 1,
    }
}

} // verus!
