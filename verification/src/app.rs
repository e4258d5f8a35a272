//! The event loop: two states, three kinds of event, and what each event
//! asks of the program that runs the loop.

use vstd::prelude::*;
use crate::error::ShellError;
use crate::window::{spec_complete, Outcome, Stage, Window};

verus! {

/// The state of the event loop. `Terminated` is final.
#[derive(Clone, Copy, Debug, PartialEq, Eq, Structural)]
pub enum LoopState {
    Running,
    Terminated,
}

/// An event of the platform, by the kinds that the loop tells apart.
#[derive(Clone, Copy, Debug, PartialEq, Eq, Structural)]
pub enum Event {
    CloseRequested,
    RedrawRequested,
    /// Any other event.
    Other,
}

/// How the loop goes on after an event: it blocks until the next one, or it
/// ends.
#[derive(Clone, Copy, Debug, PartialEq, Eq, Structural)]
pub enum LoopControl {
    Wait,
    Exit,
}

/// What a redraw looks at: read from the window, changing nothing.
#[derive(Clone, Copy, Debug, PartialEq, Eq, Structural)]
pub struct Diagnostics {
    pub resource_cache_limit: usize,
    pub surface_width: i32,
    pub surface_height: i32,
}

/// What an event asks of the program that runs the loop.
#[derive(Clone, Copy, Debug, PartialEq, Eq, Structural)]
pub enum Action {
    /// A redraw was requested: report what was read.
    Inspect { diagnostics: Diagnostics },
    /// A close was requested: give notice; the loop ends.
    AnnounceClose,
    /// Nothing to do.
    Ignore,
}

/// What the loop has done with a run of events.
#[derive(Clone, Debug, PartialEq, Eq)]
pub struct LoopRun {
    /// The state after the last event that was dispatched.
    pub state: LoopState,
    /// One action for each event that was dispatched, in their order.
    pub actions: Vec<Action>,
}

/// The window with its context and surface, as the event loop owns it.
#[derive(Clone, Debug, PartialEq, Eq)]
pub struct App {
    pub window: Window,
}

/// The state after `event`: a close request ends a running loop, and nothing
/// moves a terminated one.
pub open spec fn spec_transition(state: LoopState, event: Event) -> LoopState {
    match (state, event) {
        (LoopState::Running, Event::CloseRequested) => LoopState::Terminated,
        _ => state,
    }
}

/// The state after the events of `events`, in their order.
pub open spec fn spec_run(state: LoopState, events: Seq<Event>) -> LoopState
    decreases events.len(),
{
    if events.len() == 0 {
        state
    } else {
        spec_transition(spec_run(state, events.drop_last()), events.last())
    }
}

impl LoopState {
    /// How the loop goes on in a state.
    pub open spec fn spec_control(self) -> LoopControl {
        match self {
            LoopState::Running => LoopControl::Wait,
            LoopState::Terminated => LoopControl::Exit,
        }
    }

    /// The state in which a loop starts.
    pub fn initial() -> (state: LoopState)
        ensures
            state == LoopState::Running,
    {
        LoopState::Running
    }

    /// Whether the loop has ended.
    pub fn is_terminated(&self) -> (ended: bool)
        ensures
            ended == (*self == LoopState::Terminated),
    {
        match self {
            LoopState::Running => false,
            LoopState::Terminated => true,
        }
    }

    /// The state after `event`.
    pub fn transition(self, event: Event) -> (next: LoopState)
        ensures
            next == spec_transition(self, event),
            self == LoopState::Terminated ==> next == LoopState::Terminated,
    {
        match (self, event) {
            (LoopState::Running, Event::CloseRequested) => LoopState::Terminated,
            (state, _) => state,
        }
    }

    /// How the loop goes on: a running loop blocks until the next event, it
    /// never polls; a terminated one exits.
    pub fn control(&self) -> (control: LoopControl)
        ensures
            control == self.spec_control(),
    {
        match self {
            LoopState::Running => LoopControl::Wait,
            LoopState::Terminated => LoopControl::Exit,
        }
    }

    /// The exit code of the process: 0 once the loop has ended on a close
    /// request, none while it runs.
    pub fn exit_code(&self) -> (code: Option<i32>)
        ensures
            code == (if *self == LoopState::Terminated {
                Some(0i32)
            } else {
                None
            }),
    {
        match self {
            LoopState::Running => None,
            LoopState::Terminated => Some(0),
        }
    }
}

impl Window {
    /// What a redraw reads from a window: the limit of the context's resource
    /// cache and the size of the surface.
    pub open spec fn spec_diagnostics(self) -> Diagnostics {
        Diagnostics {
            resource_cache_limit: self.context.resource_cache_limit,
            surface_width: self.surface.width,
            surface_height: self.surface.height,
        }
    }

    /// Reads what a redraw reports. The window stays as it is.
    pub fn diagnostics(&self) -> (diagnostics: Diagnostics)
        ensures
            diagnostics == self.spec_diagnostics(),
    {
        Diagnostics {
            resource_cache_limit: self.context.resource_cache_limit(),
            surface_width: self.surface.width(),
            surface_height: self.surface.height(),
        }
    }
}

/// What `event` asks for in `state`: in a running loop a redraw request asks
/// for one inspection of the window and a close request for a notice; any
/// other event, and every event after the loop has ended, asks for nothing.
pub open spec fn spec_action(state: LoopState, window: Window, event: Event) -> Action {
    match (state, event) {
        (LoopState::Running, Event::RedrawRequested) => Action::Inspect {
            diagnostics: window.spec_diagnostics(),
        },
        (LoopState::Running, Event::CloseRequested) => Action::AnnounceClose,
        _ => Action::Ignore,
    }
}

impl App {
    /// Constructs the window from what came of the platform calls, and takes
    /// it into the loop's ownership.
    pub fn new(name: &str, width: u32, height: u32, outcomes: &Vec<Outcome>) -> (result: Result<
        App,
        ShellError,
    >)
        requires
            width > 0,
            height > 0,
        ensures
            result is Ok <==> spec_complete(outcomes@),
            result matches Ok(app) ==> {
                &&& app.window.handle.title@ == name@
                &&& app.window.handle.logical_width == width
                &&& app.window.handle.logical_height == height
                &&& Stage::AwaitingWindow.spec_replay(outcomes@) == (Stage::Bound {
                    context: app.window.context,
                    surface: app.window.surface,
                })
                &&& app.window.context.resource_cache_limit
                    == outcomes@[3]->GpuContextCreated_resource_cache_limit
                &&& app.window.surface.width == outcomes@[4]->DriverState_info.physical_width
                &&& app.window.surface.height == outcomes@[4]->DriverState_info.physical_height
            },
            result matches Err(error) ==> error == Stage::AwaitingWindow.spec_replay(
                outcomes@,
            ).spec_error(),
    {
        match Window::new(name, width, height, outcomes) {
            Ok(window) => Ok(App { window }),
            Err(error) => Err(error),
        }
    }

    /// Dispatches one event: the state that follows, and what the event asks
    /// for. The window is only read.
    pub fn dispatch(&self, state: LoopState, event: Event) -> (step: (LoopState, Action))
        ensures
            step.0 == spec_transition(state, event),
            step.1 == spec_action(state, self.window, event),
            state == LoopState::Terminated ==> step == (LoopState::Terminated, Action::Ignore),
    {
        let action = match (state, event) {
            (LoopState::Running, Event::RedrawRequested) => Action::Inspect {
                diagnostics: self.window.diagnostics(),
            },
            (LoopState::Running, Event::CloseRequested) => Action::AnnounceClose,
            _ => Action::Ignore,
        };
        (state.transition(event), action)
    }
}

/// Termination is final: from the terminated state no run of events leads
/// anywhere else, and none of its events asks for a redraw or a close notice.
pub proof fn lemma_terminated_is_final(window: Window, events: Seq<Event>)
    ensures
        spec_run(LoopState::Terminated, events) == LoopState::Terminated,
        forall|i: int|
            0 <= i < events.len() ==> spec_action(
                LoopState::Terminated,
                window,
                #[trigger] events[i],
            ) == Action::Ignore,
    decreases events.len(),
{
    if events.len() > 0 {
        lemma_terminated_is_final(window, events.drop_last());
    }
}

/// Running two runs of events one after the other is running them joined.
pub proof fn lemma_run_joined(state: LoopState, first: Seq<Event>, rest: Seq<Event>)
    ensures
        spec_run(state, first + rest) == spec_run(spec_run(state, first), rest),
    decreases rest.len(),
{
    if rest.len() == 0 {
        assert(first + rest == first);
    } else {
        lemma_run_joined(state, first, rest.drop_last());
        assert((first + rest).drop_last() == first + rest.drop_last());
        assert((first + rest).last() == rest.last());
    }
}

/// A loop is still running after a run of events exactly if none of them
/// asked to close: redraw requests and other events, however many, leave it
/// running.
pub proof fn lemma_running_iff_no_close(events: Seq<Event>)
    ensures
        spec_run(LoopState::Running, events) == LoopState::Running <==> forall|i: int|
            0 <= i < events.len() ==> #[trigger] events[i] != Event::CloseRequested,
    decreases events.len(),
{
    if events.len() > 0 {
        let before = events.drop_last();
        lemma_running_iff_no_close(before);
        if spec_run(LoopState::Running, events) == LoopState::Running {
            assert forall|i: int| 0 <= i < events.len() implies #[trigger] events[i]
                != Event::CloseRequested by {
                if i < before.len() {
                    assert(events[i] == before[i]);
                }
            }
        } else {
            if forall|i: int| 0 <= i < events.len() ==> #[trigger] events[i] != Event::CloseRequested {
                assert forall|i: int| 0 <= i < before.len() implies #[trigger] before[i]
                    != Event::CloseRequested by {
                    assert(before[i] == events[i]);
                }
                assert(events.last() == events[events.len() - 1]);
            }
        }
    }
}

impl App {
    /// Runs the loop over `events`, from the running state: each event is
    /// dispatched in its turn until one asks to close; that one is the last
    /// to be dispatched. The result holds one action for each dispatched
    /// event, and the state that the loop was left in.
    pub fn main_loop(self, events: &Vec<Event>) -> (run: LoopRun)
        ensures
            run.state == spec_run(LoopState::Running, events@),
            run.actions@.len() <= events@.len(),
            forall|i: int|
                0 <= i < run.actions@.len() ==> #[trigger] run.actions@[i] == spec_action(
                    LoopState::Running,
                    self.window,
                    events@[i],
                ),
            forall|i: int|
                0 <= i < run.actions@.len() - 1 ==> #[trigger] events@[i] != Event::CloseRequested,
            run.state == LoopState::Terminated <==> run.actions@.len() > 0 && events@[run.actions@.len()
                - 1] == Event::CloseRequested,
            run.state == LoopState::Running ==> run.actions@.len() == events@.len(),
    {
        let mut state = LoopState::initial();
        let mut actions: Vec<Action> = Vec::new();
        let mut i: usize = 0;
        while i < events.len() && !state.is_terminated()
            invariant
                i <= events.len(),
                actions@.len() == i,
                state == spec_run(LoopState::Running, events@.take(i as int)),
                forall|j: int|
                    0 <= j < i ==> #[trigger] actions@[j] == spec_action(
                        LoopState::Running,
                        self.window,
                        events@[j],
                    ),
                forall|j: int| 0 <= j < i - 1 ==> #[trigger] events@[j] != Event::CloseRequested,
                state == LoopState::Terminated <==> i > 0 && events@[i - 1]
                    == Event::CloseRequested,
            decreases events.len() - i,
        {
            proof {
                assert(events@.take(i + 1).drop_last() == events@.take(i as int));
                assert(events@.take(i + 1).last() == events@[i as int]);
            }
            let (next, action) = self.dispatch(state, events[i]);
            actions.push(action);
            state = next;
            i += 1;
        }
        proof {
            let seen = events@.take(i as int);
            let unseen = events@.skip(i as int);
            assert(seen + unseen == events@);
            lemma_run_joined(LoopState::Running, seen, unseen);
            if i < events.len() {
                lemma_terminated_is_final(self.window, unseen);
            } else {
                assert(seen == events@);
            }
        }
        LoopRun { state, actions }
    }
}

} // verus!
