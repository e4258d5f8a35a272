//! Bringing up the window, its GPU context and its drawing surface, in that
//! order. The platform calls are made elsewhere; `Construction` says which
//! one is due, takes what came of it, and refuses whatever arrives out of
//! turn.

use vstd::prelude::*;
use crate::error::ShellError;
use crate::policy::PixelFormatRequest;
use crate::surface::{bind_surface, plan_surface, spec_bind_surface, spec_plan_surface};
use crate::surface::{PixelFormatInfo, RenderSurface, SurfaceRequest};

verus! {

/// The native window with its OpenGL context, current on the thread that made
/// it.
#[derive(Clone, Debug, PartialEq, Eq)]
pub struct WindowHandle {
    pub title: String,
    pub logical_width: u32,
    pub logical_height: u32,
}

/// The GPU context that was derived from the window's OpenGL bindings.
#[derive(Clone, Copy, Debug, PartialEq, Eq, Structural)]
pub struct GpuContext {
    pub resource_cache_limit: usize,
}

impl GpuContext {
    /// The limit of the context's resource cache, in bytes.
    pub fn resource_cache_limit(&self) -> (limit: usize)
        ensures
            limit == self.resource_cache_limit,
    {
        self.resource_cache_limit
    }
}

/// The window, its GPU context and the surface bound to them, as one unit.
#[derive(Clone, Debug, PartialEq, Eq)]
pub struct Window {
    pub handle: WindowHandle,
    pub context: GpuContext,
    pub surface: RenderSurface,
}

/// What came of a platform call during construction.
#[derive(Clone, Copy, Debug, PartialEq, Eq)]
pub enum Outcome {
    /// The platform made the window and its context.
    WindowBuilt,
    /// The context is now current on the calling thread.
    Activated,
    /// The OpenGL function pointers were loaded through the current context.
    BindingsLoaded,
    /// The GPU context was made.
    GpuContextCreated { resource_cache_limit: usize },
    /// The driver's framebuffer binding and what the window reports, read
    /// now.
    DriverState { framebuffer_binding: i32, info: PixelFormatInfo },
    /// The GPU layer made a surface, which reports this size.
    SurfaceCreated { width: i32, height: i32 },
    /// The call failed.
    Refused,
}

/// How far construction has come.
#[derive(Clone, Copy, Debug, PartialEq, Eq)]
pub enum Stage {
    AwaitingWindow,
    AwaitingActivation,
    AwaitingBindings,
    AwaitingGpuContext,
    AwaitingDriverState { context: GpuContext },
    AwaitingSurface { context: GpuContext, request: SurfaceRequest },
    Bound { context: GpuContext, surface: RenderSurface },
    Failed { error: ShellError },
}

/// The platform call that is due.
#[derive(Clone, Copy, Debug, PartialEq, Eq)]
pub enum Task {
    /// Create the window and its context with this pixel format.
    CreateWindow { format: PixelFormatRequest },
    /// Make the window's context current on this thread.
    MakeCurrent,
    /// Load the OpenGL function pointers through the current context.
    LoadBindings,
    /// Create the GPU context.
    CreateGpuContext,
    /// Read the framebuffer binding from the driver, and the pixel format and
    /// physical size from the window.
    QueryDriver,
    /// Ask the GPU layer for this surface.
    CreateSurface { request: SurfaceRequest },
    /// Nothing is due: the surface is bound.
    Done,
    /// Nothing is due: construction has failed.
    Abort { error: ShellError },
}

impl Stage {
    /// The error that a stage fails with when anything arrives but the
    /// success it waits for: that of the component whose turn it is.
    pub open spec fn spec_error(self) -> ShellError {
        match self {
            Stage::AwaitingWindow => ShellError::WindowCreation,
            Stage::AwaitingActivation => ShellError::ContextActivation,
            Stage::AwaitingBindings => ShellError::ContextActivation,
            Stage::Failed { error } => error,
            _ => ShellError::SurfaceBinding,
        }
    }

    /// The stage that follows `self` on `outcome`. Each stage moves on only
    /// with the one outcome it waits for; a failed stage stays as it is, and
    /// a bound one takes no further outcome.
    pub open spec fn spec_next(self, outcome: Outcome) -> Stage {
        match (self, outcome) {
            (Stage::AwaitingWindow, Outcome::WindowBuilt) => Stage::AwaitingActivation,
            (Stage::AwaitingActivation, Outcome::Activated) => Stage::AwaitingBindings,
            (Stage::AwaitingBindings, Outcome::BindingsLoaded) => Stage::AwaitingGpuContext,
            (
                Stage::AwaitingGpuContext,
                Outcome::GpuContextCreated { resource_cache_limit },
            ) => Stage::AwaitingDriverState { context: GpuContext { resource_cache_limit } },
            (
                Stage::AwaitingDriverState { context },
                Outcome::DriverState { framebuffer_binding, info },
            ) => match spec_plan_surface(framebuffer_binding, info) {
                Ok(request) => Stage::AwaitingSurface { context, request },
                Err(error) => Stage::Failed { error },
            },
            (
                Stage::AwaitingSurface { context, request },
                Outcome::SurfaceCreated { width, height },
            ) => match spec_bind_surface(request, Some((width, height))) {
                Ok(surface) => Stage::Bound { context, surface },
                Err(error) => Stage::Failed { error },
            },
            _ => Stage::Failed { error: self.spec_error() },
        }
    }

    /// The stage reached from `self` by the outcomes of `outcomes`, in their
    /// order.
    pub open spec fn spec_replay(self, outcomes: Seq<Outcome>) -> Stage
        decreases outcomes.len(),
    {
        if outcomes.len() == 0 {
            self
        } else {
            self.spec_replay(outcomes.drop_last()).spec_next(outcomes.last())
        }
    }

    /// The platform call that is due at a stage.
    pub open spec fn spec_task(self) -> Task {
        match self {
            Stage::AwaitingWindow => Task::CreateWindow { format: PixelFormatRequest::spec_fixed() },
            Stage::AwaitingActivation => Task::MakeCurrent,
            Stage::AwaitingBindings => Task::LoadBindings,
            Stage::AwaitingGpuContext => Task::CreateGpuContext,
            Stage::AwaitingDriverState { .. } => Task::QueryDriver,
            Stage::AwaitingSurface { request, .. } => Task::CreateSurface { request },
            Stage::Bound { .. } => Task::Done,
            Stage::Failed { error } => Task::Abort { error },
        }
    }

    /// How many components stand at a stage: 0 before the window is current
    /// with its bindings loaded, then 1 with the window, 2 with the GPU
    /// context, 3 with the surface.
    pub open spec fn spec_built(self) -> nat {
        match self {
            Stage::AwaitingGpuContext => 1,
            Stage::AwaitingDriverState { .. } => 2,
            Stage::AwaitingSurface { .. } => 2,
            Stage::Bound { .. } => 3,
            _ => 0,
        }
    }

    /// The error with which a stage fails on an outcome it does not wait for.
    pub fn error(&self) -> (e: ShellError)
        ensures
            e == self.spec_error(),
    {
        match self {
            Stage::AwaitingWindow => ShellError::WindowCreation,
            Stage::AwaitingActivation => ShellError::ContextActivation,
            Stage::AwaitingBindings => ShellError::ContextActivation,
            Stage::Failed { error } => *error,
            _ => ShellError::SurfaceBinding,
        }
    }

    /// The stage that follows on `outcome`.
    pub fn next(self, outcome: Outcome) -> (stage: Stage)
        ensures
            stage == self.spec_next(outcome),
    {
        match (self, outcome) {
            (Stage::AwaitingWindow, Outcome::WindowBuilt) => Stage::AwaitingActivation,
            (Stage::AwaitingActivation, Outcome::Activated) => Stage::AwaitingBindings,
            (Stage::AwaitingBindings, Outcome::BindingsLoaded) => Stage::AwaitingGpuContext,
            (
                Stage::AwaitingGpuContext,
                Outcome::GpuContextCreated { resource_cache_limit },
            ) => Stage::AwaitingDriverState { context: GpuContext { resource_cache_limit } },
            (
                Stage::AwaitingDriverState { context },
                Outcome::DriverState { framebuffer_binding, info },
            ) => match plan_surface(framebuffer_binding, &info) {
                Ok(request) => Stage::AwaitingSurface { context, request },
                Err(error) => Stage::Failed { error },
            },
            (
                Stage::AwaitingSurface { context, request },
                Outcome::SurfaceCreated { width, height },
            ) => match bind_surface(&request, Some((width, height))) {
                Ok(surface) => Stage::Bound { context, surface },
                Err(error) => Stage::Failed { error },
            },
            (stage, _) => Stage::Failed { error: stage.error() },
        }
    }

    /// The platform call that is due.
    pub fn task(&self) -> (task: Task)
        ensures
            task == self.spec_task(),
    {
        match self {
            Stage::AwaitingWindow => Task::CreateWindow { format: PixelFormatRequest::fixed() },
            Stage::AwaitingActivation => Task::MakeCurrent,
            Stage::AwaitingBindings => Task::LoadBindings,
            Stage::AwaitingGpuContext => Task::CreateGpuContext,
            Stage::AwaitingDriverState { .. } => Task::QueryDriver,
            Stage::AwaitingSurface { request, .. } => Task::CreateSurface { request: *request },
            Stage::Bound { .. } => Task::Done,
            Stage::Failed { error } => Task::Abort { error: *error },
        }
    }
}

/// A construction under way: what it began with, and how far it has come.
/// Its stage changes only by `advance`, so a bound construction has seen
/// every step, each in its turn.
#[derive(Debug)]
pub struct Construction {
    title: String,
    logical_width: u32,
    logical_height: u32,
    stage: Stage,
}

impl Construction {
    /// Every construction has a positive logical size.
    #[verifier::type_invariant]
    spec fn well_formed(self) -> bool {
        self.logical_width > 0 && self.logical_height > 0
    }

    /// The title that construction began with.
    pub closed spec fn spec_title(&self) -> Seq<char> {
        self.title@
    }

    /// The logical width and height that construction began with.
    pub closed spec fn spec_logical_size(&self) -> (u32, u32) {
        (self.logical_width, self.logical_height)
    }

    /// How far construction has come.
    pub closed spec fn spec_stage(&self) -> Stage {
        self.stage
    }

    /// Begins the construction of a window titled `name` with the given
    /// logical size. Nothing exists yet: the window is due first.
    pub fn begin(name: &str, width: u32, height: u32) -> (construction: Construction)
        requires
            width > 0,
            height > 0,
        ensures
            construction.spec_title() == name@,
            construction.spec_logical_size() == (width, height),
            construction.spec_stage() == Stage::AwaitingWindow,
    {
        Construction {
            title: name.to_owned(),
            logical_width: width,
            logical_height: height,
            stage: Stage::AwaitingWindow,
        }
    }

    /// The title to give the window.
    pub fn title(&self) -> (title: &str)
        ensures
            title@ == self.spec_title(),
    {
        self.title.as_str()
    }

    /// The logical width and height to give the window.
    pub fn logical_size(&self) -> (size: (u32, u32))
        ensures
            size == self.spec_logical_size(),
            size.0 > 0,
            size.1 > 0,
    {
        proof {
            use_type_invariant(self);
        }
        (self.logical_width, self.logical_height)
    }

    /// How far construction has come.
    pub fn stage(&self) -> (stage: Stage)
        ensures
            stage == self.spec_stage(),
    {
        self.stage
    }

    /// The platform call that is due.
    pub fn task(&self) -> (task: Task)
        ensures
            task == self.spec_stage().spec_task(),
    {
        self.stage.task()
    }

    /// Takes what came of the call that was due. The stage moves on if
    /// `outcome` is the success it waited for, and fails otherwise; the title
    /// and the logical size stay.
    pub fn advance(self, outcome: Outcome) -> (next: Construction)
        ensures
            next.spec_title() == self.spec_title(),
            next.spec_logical_size() == self.spec_logical_size(),
            next.spec_stage() == self.spec_stage().spec_next(outcome),
    {
        proof {
            use_type_invariant(&self);
        }
        let Construction { title, logical_width, logical_height, stage } = self;
        Construction { title, logical_width, logical_height, stage: stage.next(outcome) }
    }

    /// Ends construction: the window with its context and surface where the
    /// surface is bound, else the error of the stage that was not passed.
    pub fn finish(self) -> (result: Result<Window, ShellError>)
        ensures
            result is Ok <==> self.spec_stage() is Bound,
            result matches Ok(window) ==> {
                &&& window.handle.title@ == self.spec_title()
                &&& (window.handle.logical_width, window.handle.logical_height)
                    == self.spec_logical_size()
                &&& self.spec_stage() == (Stage::Bound {
                    context: window.context,
                    surface: window.surface,
                })
            },
            result matches Ok(window) ==> window.handle.logical_width > 0
                && window.handle.logical_height > 0,
            result matches Err(error) ==> error == self.spec_stage().spec_error(),
    {
        proof {
            use_type_invariant(&self);
        }
        let Construction { title, logical_width, logical_height, stage } = self;
        match stage {
            Stage::Bound { context, surface } => Ok(
                Window {
                    handle: WindowHandle { title, logical_width, logical_height },
                    context,
                    surface,
                },
            ),
            other => Err(other.error()),
        }
    }
}

impl Window {
    /// Constructs the window, its GPU context and its surface from what came
    /// of the platform calls, taken in the order in which they were made.
    /// The result is the window where `outcomes` brings a fresh construction
    /// to its bound stage, and else the error of the stage at which it
    /// failed or stopped.
    pub fn new(name: &str, width: u32, height: u32, outcomes: &Vec<Outcome>) -> (result: Result<
        Window,
        ShellError,
    >)
        requires
            width > 0,
            height > 0,
        ensures
            result is Ok <==> Stage::AwaitingWindow.spec_replay(outcomes@) is Bound,
            result matches Ok(window) ==> {
                &&& window.handle.title@ == name@
                &&& window.handle.logical_width == width
                &&& window.handle.logical_height == height
                &&& Stage::AwaitingWindow.spec_replay(outcomes@) == (Stage::Bound {
                    context: window.context,
                    surface: window.surface,
                })
            },
            result matches Err(error) ==> error == Stage::AwaitingWindow.spec_replay(
                outcomes@,
            ).spec_error(),
            result is Ok <==> spec_complete(outcomes@),
            result matches Ok(window) ==> {
                &&& window.context.resource_cache_limit
                    == outcomes@[3]->GpuContextCreated_resource_cache_limit
                &&& window.surface.width == outcomes@[4]->DriverState_info.physical_width
                &&& window.surface.height == outcomes@[4]->DriverState_info.physical_height
            },
    {
        proof {
            lemma_bound_iff_complete(outcomes@);
        }
        let mut construction = Construction::begin(name, width, height);
        let mut i: usize = 0;
        proof {
            assert(outcomes@.take(0).len() == 0);
        }
        while i < outcomes.len()
            invariant
                i <= outcomes.len(),
                construction.spec_title() == name@,
                construction.spec_logical_size() == (width, height),
                construction.spec_stage() == Stage::AwaitingWindow.spec_replay(
                    outcomes@.take(i as int),
                ),
            decreases outcomes.len() - i,
        {
            proof {
                assert(outcomes@.take(i + 1).drop_last() == outcomes@.take(i as int));
                assert(outcomes@.take(i + 1).last() == outcomes@[i as int]);
            }
            construction = construction.advance(outcomes[i]);
            i += 1;
        }
        proof {
            assert(outcomes@.take(i as int) == outcomes@);
        }
        construction.finish()
    }
}

impl Stage {
    /// How many platform calls have succeeded, in their turn, when a stage is
    /// reached; -1 for a failed stage.
    pub open spec fn spec_steps(self) -> int {
        match self {
            Stage::AwaitingWindow => 0,
            Stage::AwaitingActivation => 1,
            Stage::AwaitingBindings => 2,
            Stage::AwaitingGpuContext => 3,
            Stage::AwaitingDriverState { .. } => 4,
            Stage::AwaitingSurface { .. } => 5,
            Stage::Bound { .. } => 6,
            Stage::Failed { .. } => -1,
        }
    }
}

/// Whether `outcome` is of the kind that is in turn as the call number `i` of
/// a construction, counted from 0: the window, its activation, the loading
/// of the bindings, the GPU context, the driver's state, the surface.
pub open spec fn spec_in_turn(i: int, outcome: Outcome) -> bool {
    if i == 0 {
        outcome == Outcome::WindowBuilt
    } else if i == 1 {
        outcome == Outcome::Activated
    } else if i == 2 {
        outcome == Outcome::BindingsLoaded
    } else if i == 3 {
        outcome is GpuContextCreated
    } else if i == 4 {
        outcome is DriverState
    } else if i == 5 {
        outcome is SurfaceCreated
    } else {
        false
    }
}

/// Whether `outcomes` is a whole successful construction: the six successes
/// in their turn, a driver state that can be converted without loss, and a
/// surface of the window's physical size.
pub open spec fn spec_complete(outcomes: Seq<Outcome>) -> bool {
    &&& outcomes.len() == 6
    &&& outcomes[0] == Outcome::WindowBuilt
    &&& outcomes[1] == Outcome::Activated
    &&& outcomes[2] == Outcome::BindingsLoaded
    &&& outcomes[3] is GpuContextCreated
    &&& outcomes[4] matches Outcome::DriverState { framebuffer_binding, info }
    &&& framebuffer_binding >= 0
    &&& info.physical_width <= i32::MAX
    &&& info.physical_height <= i32::MAX
    &&& outcomes[5] matches Outcome::SurfaceCreated { width, height }
    &&& width == info.physical_width
    &&& height == info.physical_height
}

/// A stage moves on only with the outcome that is in turn, and then by one
/// step: anything out of turn fails, whatever the stage, and a failed stage
/// stays failed with the error it has.
pub proof fn lemma_out_of_turn_fails(stage: Stage, outcome: Outcome)
    ensures
        stage.spec_next(outcome) !is Failed ==> {
            &&& spec_in_turn(stage.spec_steps(), outcome)
            &&& stage.spec_next(outcome).spec_steps() == stage.spec_steps() + 1
        },
        !spec_in_turn(stage.spec_steps(), outcome) ==> stage.spec_next(outcome) == (Stage::Failed {
            error: stage.spec_error(),
        }),
        stage is Failed ==> stage.spec_next(outcome) == stage,
{
}

/// A GPU context is made only for a window that exists, is current and has
/// its bindings loaded, and a surface only with a GPU context: at a stage
/// with fewer components than that, the attempt fails.
pub proof fn lemma_components_in_order(stage: Stage, outcome: Outcome)
    ensures
        outcome is GpuContextCreated && stage.spec_built() != 1 ==> stage.spec_next(
            outcome,
        ) is Failed,
        outcome is SurfaceCreated && stage.spec_built() != 2 ==> stage.spec_next(outcome) is Failed,
        stage.spec_next(outcome).spec_built() <= stage.spec_built() + 1,
        stage.spec_next(outcome) is Bound ==> stage is AwaitingSurface && stage.spec_next(
            outcome,
        )->Bound_context == stage->AwaitingSurface_context,
        stage.spec_next(outcome) is AwaitingSurface ==> stage is AwaitingDriverState
            && stage.spec_next(outcome)->AwaitingSurface_context
            == stage->AwaitingDriverState_context,
{
}

/// Where a construction has not failed, every outcome so far was in its
/// turn, and the stage counts them.
pub proof fn lemma_every_step_in_turn(outcomes: Seq<Outcome>)
    ensures
        Stage::AwaitingWindow.spec_replay(outcomes) !is Failed ==> {
            &&& Stage::AwaitingWindow.spec_replay(outcomes).spec_steps() == outcomes.len()
            &&& forall|i: int| 0 <= i < outcomes.len() ==> spec_in_turn(i, #[trigger] outcomes[i])
        },
    decreases outcomes.len(),
{
    if outcomes.len() > 0 {
        let before = outcomes.drop_last();
        lemma_every_step_in_turn(before);
        lemma_out_of_turn_fails(Stage::AwaitingWindow.spec_replay(before), outcomes.last());
        if Stage::AwaitingWindow.spec_replay(outcomes) !is Failed {
            assert forall|i: int| 0 <= i < outcomes.len() implies spec_in_turn(
                i,
                #[trigger] outcomes[i],
            ) by {
                if i < before.len() {
                    assert(outcomes[i] == before[i]);
                }
            }
        }
    }
}

/// A construction is bound exactly by a whole successful run, and the window
/// that comes of it has the context that was made and a surface of the
/// physical size that the window reported: no other surface is ever bound.
pub proof fn lemma_bound_iff_complete(outcomes: Seq<Outcome>)
    ensures
        Stage::AwaitingWindow.spec_replay(outcomes) is Bound <==> spec_complete(outcomes),
        spec_complete(outcomes) ==> {
            let bound = Stage::AwaitingWindow.spec_replay(outcomes);
            &&& bound->Bound_context.resource_cache_limit
                == outcomes[3]->GpuContextCreated_resource_cache_limit
            &&& bound->Bound_surface.width == outcomes[4]->DriverState_info.physical_width
            &&& bound->Bound_surface.height == outcomes[4]->DriverState_info.physical_height
        },
{
    let start = Stage::AwaitingWindow;
    if start.spec_replay(outcomes) is Bound || spec_complete(outcomes) {
        if start.spec_replay(outcomes) is Bound {
            lemma_every_step_in_turn(outcomes);
        }
        assert(outcomes.len() == 6);
        let s5 = outcomes.drop_last();
        let s4 = s5.drop_last();
        let s3 = s4.drop_last();
        let s2 = s3.drop_last();
        let s1 = s2.drop_last();
        let s0 = s1.drop_last();
        assert(s0.len() == 0);
        assert(start.spec_replay(s0) == start);
        assert(start.spec_replay(s1) == start.spec_replay(s0).spec_next(s1.last()));
        assert(start.spec_replay(s2) == start.spec_replay(s1).spec_next(s2.last()));
        assert(start.spec_replay(s3) == start.spec_replay(s2).spec_next(s3.last()));
        assert(start.spec_replay(s4) == start.spec_replay(s3).spec_next(s4.last()));
        assert(start.spec_replay(s5) == start.spec_replay(s4).spec_next(s5.last()));
        assert(start.spec_replay(outcomes) == start.spec_replay(s5).spec_next(outcomes.last()));
        assert(s1.last() == outcomes[0]);
        assert(s2.last() == outcomes[1]);
        assert(s3.last() == outcomes[2]);
        assert(s4.last() == outcomes[3]);
        assert(s5.last() == outcomes[4]);
        assert(outcomes.last() == outcomes[5]);
    }
}

} // verus!
