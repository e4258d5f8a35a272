use surface_host::app::{Action, App, Diagnostics, Event, LoopControl, LoopState};
use surface_host::surface::RenderSurface;
use surface_host::window::{GpuContext, Window, WindowHandle};

fn app() -> App {
    App {
        window: Window {
            handle: WindowHandle {
                title: String::from("main"),
                logical_width: 512,
                logical_height: 256,
            },
            context: GpuContext { resource_cache_limit: 1 << 20 },
            surface: RenderSurface { width: 1024, height: 512 },
        },
    }
}

fn inspect() -> Action {
    Action::Inspect {
        diagnostics: Diagnostics {
            resource_cache_limit: 1 << 20,
            surface_width: 1024,
            surface_height: 512,
        },
    }
}

#[test]
fn loop_starts_running_and_waits() {
    let state = LoopState::initial();
    assert_eq!(state, LoopState::Running);
    assert!(!state.is_terminated());
    assert_eq!(state.control(), LoopControl::Wait);
    assert_eq!(state.exit_code(), None);
}

#[test]
fn terminated_loop_exits_with_code_zero() {
    let state = LoopState::initial().transition(Event::CloseRequested);
    assert_eq!(state, LoopState::Terminated);
    assert!(state.is_terminated());
    assert_eq!(state.control(), LoopControl::Exit);
    assert_eq!(state.exit_code(), Some(0));
}

#[test]
fn transitions_of_a_running_loop() {
    assert_eq!(LoopState::Running.transition(Event::RedrawRequested), LoopState::Running);
    assert_eq!(LoopState::Running.transition(Event::Other), LoopState::Running);
    assert_eq!(LoopState::Running.transition(Event::CloseRequested), LoopState::Terminated);
}

#[test]
fn termination_is_final() {
    for event in [Event::CloseRequested, Event::RedrawRequested, Event::Other] {
        assert_eq!(LoopState::Terminated.transition(event), LoopState::Terminated);
        assert_eq!(
            app().dispatch(LoopState::Terminated, event),
            (LoopState::Terminated, Action::Ignore)
        );
    }
}

#[test]
fn dispatch_of_a_running_loop() {
    let app = app();
    assert_eq!(
        app.dispatch(LoopState::Running, Event::RedrawRequested),
        (LoopState::Running, inspect())
    );
    assert_eq!(
        app.dispatch(LoopState::Running, Event::CloseRequested),
        (LoopState::Terminated, Action::AnnounceClose)
    );
    assert_eq!(app.dispatch(LoopState::Running, Event::Other), (LoopState::Running, Action::Ignore));
}

#[test]
fn diagnostics_read_the_window() {
    let app = app();
    let before = app.window.clone();
    assert_eq!(
        app.window.diagnostics(),
        Diagnostics { resource_cache_limit: 1 << 20, surface_width: 1024, surface_height: 512 }
    );
    assert_eq!(app.window, before);
}

#[test]
fn main_loop_without_events_stays_running() {
    let run = app().main_loop(&Vec::new());
    assert_eq!(run.state, LoopState::Running);
    assert!(run.actions.is_empty());
}

#[test]
fn main_loop_dispatches_every_event_until_close() {
    let events = vec![
        Event::Other,
        Event::RedrawRequested,
        Event::Other,
        Event::RedrawRequested,
        Event::CloseRequested,
        Event::RedrawRequested,
        Event::Other,
    ];
    let run = app().main_loop(&events);
    assert_eq!(run.state, LoopState::Terminated);
    assert_eq!(
        run.actions,
        vec![Action::Ignore, inspect(), Action::Ignore, inspect(), Action::AnnounceClose]
    );
}

#[test]
fn main_loop_without_close_dispatches_everything() {
    let events = vec![Event::RedrawRequested, Event::Other, Event::RedrawRequested];
    let run = app().main_loop(&events);
    assert_eq!(run.state, LoopState::Running);
    assert_eq!(run.actions, vec![inspect(), Action::Ignore, inspect()]);
}

#[test]
fn two_runs_in_a_row_are_one_joined_run() {
    let first = vec![Event::RedrawRequested, Event::Other];
    let rest = vec![Event::CloseRequested, Event::RedrawRequested];
    let mut joined = first.clone();
    joined.extend(rest.iter().copied());
    let mut state = LoopState::initial();
    for event in first.iter().chain(rest.iter()) {
        state = state.transition(*event);
    }
    assert_eq!(app().main_loop(&joined).state, state);
    assert_eq!(state, LoopState::Terminated);
}
