//! The frame scheduler: what the render loop decides, step by step.
//!
//! The caller owns the window, the device and the loop. Before each piece of
//! device work it asks the scheduler what to do, performs it, and reports what
//! the platform answered.

use vstd::prelude::*;
use vstd::pervasive::unreached;
use crate::actions::{
    pending_settings, push_guarded_apply, settings_script, Action, Setting, SettingChanges,
};
use crate::slots::{FenceState, InFlightFrames, SyncObjects};
use crate::surface::{
    lemma_same_geometry_same_properties, Extent, SurfaceError, SwapchainProperties,
    SwapchainSupportDetails,
};

verus! {

/// What the viewer is started with.
#[derive(Clone, Copy, Debug, PartialEq, Eq, Structural)]
pub struct Config {
    pub resolution: Extent,
    pub vsync: bool,
}

/// A platform event, as far as the scheduler reads it.
#[derive(Clone, Copy, Debug, PartialEq, Eq, Structural)]
pub enum WindowEvent {
    CloseRequested,
    Resized(Extent),
    DroppedFile,
    Other,
}

/// Where the scheduler stands inside an iteration.
#[derive(Clone, Copy, Debug, PartialEq, Eq, Structural)]
pub enum Phase {
    /// Between two draw cycles.
    Ready,
    /// A slot was taken and its fence reset; the image is being acquired.
    Acquiring { slot: usize },
    /// The frame was handed to the device; it is being presented.
    Presenting { slot: usize, image_index: u32, suboptimal: bool },
    /// The surface must be rebuilt; `stalled` once a window without area was seen.
    Rebuilding { stalled: bool },
    /// The properties are chosen; the caller creates the surface.
    Creating,
}

/// What the platform answered to a request for the next image.
#[derive(Clone, Copy, Debug, PartialEq, Eq, Structural)]
pub enum AcquireResult {
    Image { index: u32, suboptimal: bool },
    OutOfDate,
    Failed(i32),
}

/// What the platform answered to a present request.
#[derive(Clone, Copy, Debug, PartialEq, Eq, Structural)]
pub enum PresentResult {
    Presented { suboptimal: bool },
    OutOfDate,
    Failed(i32),
}

/// The platform's code for success.
pub const CODE_SUCCESS: i32 = 0;

/// The platform's code for a surface that can still be presented to but no
/// longer matches the window.
pub const CODE_SUBOPTIMAL: i32 = 1000001003;

/// The platform's code for a surface that can no longer be presented to.
pub const CODE_OUT_OF_DATE: i32 = -1000001004;

impl AcquireResult {
    /// Reads the platform's answer to an acquire: success and "suboptimal"
    /// carry the image, a stale surface is recoverable, and every other code
    /// is a failure.
    pub fn from_code(code: i32, index: u32) -> (r: AcquireResult)
        ensures
            r == if code == CODE_SUCCESS {
                (AcquireResult::Image { index, suboptimal: false })
            } else if code == CODE_SUBOPTIMAL {
                (AcquireResult::Image { index, suboptimal: true })
            } else if code == CODE_OUT_OF_DATE {
                AcquireResult::OutOfDate
            } else {
                AcquireResult::Failed(code)
            },
    {
        if code == CODE_SUCCESS {
            AcquireResult::Image { index, suboptimal: false }
        } else if code == CODE_SUBOPTIMAL {
            AcquireResult::Image { index, suboptimal: true }
        } else if code == CODE_OUT_OF_DATE {
            AcquireResult::OutOfDate
        } else {
            AcquireResult::Failed(code)
        }
    }
}

impl PresentResult {
    /// Reads the platform's answer to a present: success and "suboptimal"
    /// mean the image was queued, a stale surface is recoverable, and every
    /// other code is a failure.
    pub fn from_code(code: i32) -> (r: PresentResult)
        ensures
            r == if code == CODE_SUCCESS {
                (PresentResult::Presented { suboptimal: false })
            } else if code == CODE_SUBOPTIMAL {
                (PresentResult::Presented { suboptimal: true })
            } else if code == CODE_OUT_OF_DATE {
                PresentResult::OutOfDate
            } else {
                PresentResult::Failed(code)
            },
    {
        if code == CODE_SUCCESS {
            PresentResult::Presented { suboptimal: false }
        } else if code == CODE_SUBOPTIMAL {
            PresentResult::Presented { suboptimal: true }
        } else if code == CODE_OUT_OF_DATE {
            PresentResult::OutOfDate
        } else {
            PresentResult::Failed(code)
        }
    }
}

/// How a draw cycle starts.
#[derive(Clone, Copy, Debug, PartialEq, Eq, Structural)]
pub struct FrameStart {
    /// The slot this cycle runs on.
    pub slot: usize,
    /// The primitives of that slot.
    pub sync_objects: SyncObjects,
    /// Whether to wait on the slot's fence, and reset it, before acquiring.
    pub wait_for_fence: bool,
}

/// The pipeline stage at which a frame's work waits for its image: the
/// output of color attachments.
pub const STAGE_COLOR_ATTACHMENT_OUTPUT: u32 = 0x400;

/// What a frame's submission and its present wait on and signal.
#[derive(Clone, Copy, Debug, PartialEq, Eq, Structural)]
pub struct FrameSubmission {
    /// The image whose command buffer is submitted and which is presented.
    pub image_index: u32,
    /// The submission waits on this semaphore, at `wait_stage`.
    pub wait_semaphore: u64,
    pub wait_stage: u32,
    /// The submission signals this semaphore, and the present waits on it.
    pub signal_semaphore: u64,
    /// The submission signals this fence when its work completes.
    pub fence: u64,
}

/// What follows the answer to an acquire.
#[derive(Clone, Copy, Debug, PartialEq, Eq, Structural)]
pub enum AcquireStep {
    /// Record, submit with the slot's fence, and present this image.
    Submit { image_index: u32 },
    /// Abandon the cycle and rebuild the surface.
    Rebuild,
    /// Give up; the payload is the platform's code.
    Fatal(i32),
}

/// What follows the answer to a present.
#[derive(Clone, Copy, Debug, PartialEq, Eq, Structural)]
pub enum PresentStep {
    Continue,
    Rebuild,
    Fatal(i32),
}

/// The outcome of one attempt to rebuild the surface.
#[derive(Clone, Copy, Debug, PartialEq, Eq, Structural)]
pub enum RebuildStep {
    /// The window has no area: pump events and try again.
    Stall,
    /// Tear the old surface down and create one with these properties.
    Create(SwapchainProperties),
    /// No surface can be created.
    Fatal(SurfaceError),
}

/// What to tell the active model about its animation.
#[derive(Clone, Copy, Debug, PartialEq, Eq, Structural)]
pub enum AnimationCommand {
    Toggle,
    Stop,
    Reset,
    /// Select the animation chosen in the overlay and play it, looping or once.
    Play { looping: bool },
}

/// What to do with the camera this iteration.
#[derive(Clone, Copy, Debug, PartialEq, Eq, Structural)]
pub struct CameraUpdate {
    /// Put the camera back to its default first.
    pub reset: bool,
    /// Move the camera by the input of this iteration.
    pub follow_input: bool,
}

/// What the overlay reports for one iteration.
#[derive(Clone, Copy, Debug, PartialEq, Eq, Structural)]
pub struct OverlayState {
    pub toggle_animation: bool,
    pub stop_animation: bool,
    pub reset_animation: bool,
    pub infinite_animation: bool,
    pub reset_camera: bool,
    pub hovered: bool,
    pub changes: SettingChanges,
}

/// What one iteration of the loop comes to, up to the acquire of its frame.
pub struct Iteration {
    /// Whether the loop goes on; where it does not, `script` shuts down.
    pub running: bool,
    /// Position in the batch of the dropped file to hand to the loader.
    pub load: Option<usize>,
    /// The device work to perform, in order, before anything else.
    pub script: Vec<Action>,
    /// What to tell the active model, where there is one.
    pub animation: Option<AnimationCommand>,
    /// What to do with the camera.
    pub camera: CameraUpdate,
    /// The draw cycle that starts, where the loop goes on.
    pub frame: Option<FrameStart>,
}

/// The state of the frame scheduler.
pub struct Viewer {
    pub config: Config,
    pub resize_dimensions: Option<Extent>,
    pub run: bool,
    pub has_model: bool,
    pub swapchain_properties: SwapchainProperties,
    pub image_count: usize,
    pub in_flight_frames: InFlightFrames,
    pub phase: Phase,
    /// Number of draw cycles started so far; a cycle's number is the count before it.
    pub cycle: u64,
}

/// Whether a close request is in the batch.
pub open spec fn close_requested(events: Seq<WindowEvent>) -> bool {
    events.contains(WindowEvent::CloseRequested)
}

/// The extent of the last resize in the batch.
pub open spec fn last_resize(events: Seq<WindowEvent>) -> Option<Extent>
    decreases events.len(),
{
    if events.len() == 0 {
        None
    } else {
        match events.last() {
            WindowEvent::Resized(extent) => Some(extent),
            _ => last_resize(events.drop_last()),
        }
    }
}

/// The position in the batch of the last dropped file.
pub open spec fn last_dropped_file(events: Seq<WindowEvent>) -> Option<int>
    decreases events.len(),
{
    if events.len() == 0 {
        None
    } else {
        match events.last() {
            WindowEvent::DroppedFile => Some(events.len() - 1),
            _ => last_dropped_file(events.drop_last()),
        }
    }
}

/// A fence must be waited on, and reset, before its slot is used again,
/// unless it was reset already and bound to nothing since.
pub open spec fn must_wait(state: FenceState) -> bool {
    state != FenceState::Unsignaled
}

/// A window is minimized when it reports an extent without area.
pub open spec fn minimized(window: Option<Extent>) -> bool {
    window is Some && window->Some_0.is_empty()
}

/// A window is back when it reports an extent with area.
pub open spec fn maximized(window: Option<Extent>) -> bool {
    window is Some && !window->Some_0.is_empty()
}

/// Whether a rebuild has to wait for the window: once it has seen the
/// window without area it waits until the window reports an area again.
pub open spec fn must_stall(stalled: bool, window: Option<Extent>) -> bool {
    if stalled {
        !maximized(window)
    } else {
        minimized(window)
    }
}

/// The work of replacing the surface, in order: nothing of the old surface
/// is touched before the device is idle, and the renderer learns the new
/// geometry before the surface exists.
pub open spec fn rebuild_script(properties: SwapchainProperties) -> Seq<Action> {
    seq![
        Action::WaitDeviceIdle,
        Action::FreeCommandBuffers,
        Action::DestroySwapchain,
        Action::NotifyRenderer(properties),
        Action::CreateSwapchain(properties),
        Action::AllocateCommandBuffers,
    ]
}

/// The work of swapping a loaded model in: the old one is released only
/// after the queue has gone idle.
pub open spec fn install_script(has_model: bool) -> Seq<Action> {
    if has_model {
        seq![Action::WaitQueueIdle, Action::ReleaseModel, Action::InstallModel]
    } else {
        seq![Action::WaitQueueIdle, Action::InstallModel]
    }
}

/// The animation command for what the overlay reports.
pub open spec fn animation_command(toggle: bool, stop: bool, reset: bool, infinite: bool) -> AnimationCommand {
    if toggle {
        AnimationCommand::Toggle
    } else if stop {
        AnimationCommand::Stop
    } else if reset {
        AnimationCommand::Reset
    } else {
        AnimationCommand::Play { looping: infinite }
    }
}

/// The device work of one iteration before its draw cycle: a loaded model
/// is swapped in first, then the pending settings are applied.
pub open spec fn iteration_script(has_model: bool, model_loaded: bool, changes: SettingChanges) -> Seq<
    Action,
> {
    (if model_loaded {
        install_script(has_model)
    } else {
        Seq::empty()
    }) + settings_script(pending_settings(changes))
}

/// What is known of the fences once that work is done.
pub open spec fn fences_after_script(
    fences: Seq<FenceState>,
    model_loaded: bool,
    changes: SettingChanges,
) -> Seq<FenceState> {
    if model_loaded || settings_script(pending_settings(changes)).len() > 0 {
        InFlightFrames::after_idle(fences)
    } else {
        fences
    }
}

/// The work of recording the frame for one image.
pub open spec fn record_script(image_index: u32) -> Seq<Action> {
    seq![
        Action::ResetCommandBuffer(image_index),
        Action::BeginCommandBuffer(image_index),
        Action::DrawScene(image_index),
        Action::EndCommandBuffer(image_index),
    ]
}

/// The work of shutting down: idle first, then release in dependency order.
pub open spec fn shutdown_script() -> Seq<Action> {
    seq![
        Action::WaitDeviceIdle,
        Action::FreeCommandBuffers,
        Action::DestroySwapchain,
        Action::DestroySyncObjects,
    ]
}

impl Viewer {
    /// The fences as the scheduler knows them.
    pub open spec fn fences(&self) -> Seq<FenceState> {
        self.in_flight_frames.fences@
    }

    /// The number of frame slots.
    pub open spec fn slots(&self) -> int {
        self.in_flight_frames.sync_objects@.len() as int
    }

    /// The scheduler's state is consistent: the surface has an area, work in
    /// flight belongs to cycles already started, no cycle has work on two
    /// slots, and the phase agrees with the fence of its slot.
    pub open spec fn wf(&self) -> bool {
        &&& self.in_flight_frames.wf()
        &&& !self.swapchain_properties.extent.is_empty()
        &&& forall|s: int|
            0 <= s < self.fences().len() ==> match #[trigger] self.fences()[s] {
                FenceState::InFlight(c) => c < self.cycle && (self.phase is Acquiring ==> c + 1
                    < self.cycle),
                _ => true,
            }
        &&& forall|s1: int, s2: int|
            0 <= s1 < s2 < self.fences().len() && (#[trigger] self.fences()[s1]) is InFlight
                ==> self.fences()[s1] != #[trigger] self.fences()[s2]
        &&& match self.phase {
            Phase::Acquiring { slot } => slot < self.slots() && self.cycle > 0
                && self.fences()[slot as int] == FenceState::Unsignaled,
            Phase::Presenting { slot, image_index, suboptimal } => slot < self.slots()
                && self.cycle > 0 && image_index < self.image_count && self.fences()[slot as int]
                == FenceState::InFlight((self.cycle - 1) as u64),
            _ => true,
        }
    }

    /// The parts that only construction and a rebuild change are the same in both.
    pub open spec fn same_setup(&self, before: &Self) -> bool {
        &&& self.config == before.config
        &&& self.in_flight_frames.sync_objects@ == before.in_flight_frames.sync_objects@
    }

    /// The surface and the model slot are the same in both.
    pub open spec fn same_surface(&self, before: &Self) -> bool {
        &&& self.swapchain_properties == before.swapchain_properties
        &&& self.image_count == before.image_count
        &&& self.has_model == before.has_model
    }

    /// The ring's cursor and the cycle count are the same in both.
    pub open spec fn same_cursor(&self, before: &Self) -> bool {
        &&& self.in_flight_frames.current_frame == before.in_flight_frames.current_frame
        &&& self.cycle == before.cycle
    }

    /// Starts the scheduler: selects the properties of the first surface from
    /// the configured resolution and leaves its creation to the caller.
    pub fn new(config: Config, details: &SwapchainSupportDetails, sync_objects: Vec<SyncObjects>) -> (r:
        Result<Viewer, SurfaceError>)
        requires
            sync_objects@.len() > 0,
        ensures
            match details.ideal(config.resolution, config.vsync) {
                Ok(properties) => r is Ok && r->Ok_0.swapchain_properties == properties,
                Err(e) => r == Err::<Viewer, SurfaceError>(e),
            },
            r is Ok ==> {
                let v = r->Ok_0;
                &&& v.wf()
                &&& v.config == config
                &&& v.resize_dimensions is None
                &&& v.run
                &&& !v.has_model
                &&& v.image_count == 0
                &&& v.phase == Phase::Creating
                &&& v.cycle == 0
                &&& v.in_flight_frames.current_frame == 0
                &&& v.in_flight_frames.sync_objects@ == sync_objects@
                &&& forall|s: int|
                    0 <= s < v.fences().len() ==> v.fences()[s] == FenceState::Signaled
            },
    {
        match details.get_ideal_swapchain_properties(config.resolution, config.vsync) {
            Ok(properties) => {
                let in_flight_frames = InFlightFrames::new(sync_objects);
                Ok(
                    Viewer {
                        config,
                        resize_dimensions: None,
                        run: true,
                        has_model: false,
                        swapchain_properties: properties,
                        image_count: 0,
                        in_flight_frames,
                        phase: Phase::Creating,
                        cycle: 0,
                    },
                )
            },
            Err(e) => Err(e),
        }
    }

    /// Records how many images the created surface has; the scheduler is
    /// then ready for a draw cycle.
    pub fn swapchain_created(&mut self, image_count: usize)
        requires
            old(self).wf(),
            old(self).phase == Phase::Creating,
        ensures
            final(self).wf(),
            final(self).phase == Phase::Ready,
            final(self).image_count == image_count,
            final(self).swapchain_properties == old(self).swapchain_properties,
            final(self).has_model == old(self).has_model,
            final(self).same_setup(old(self)),
            final(self).same_cursor(old(self)),
            final(self).fences() == old(self).fences(),
            final(self).run == old(self).run,
            final(self).resize_dimensions == old(self).resize_dimensions,
    {
        self.image_count = image_count;
        self.phase = Phase::Ready;
    }

    /// One iteration of the loop, up to the acquire of its frame: takes the
    /// batch of platform events, swaps a loaded model in, decides on
    /// animation and camera, applies the pending settings and starts a draw
    /// cycle. Where a close was requested, or the scheduler had stopped
    /// before, nothing of that happens and the result holds the work of
    /// shutting down.
    pub fn run(&mut self, events: &Vec<WindowEvent>, model_loaded: bool, overlay: &OverlayState) -> (r:
        Iteration)
        requires
            old(self).wf(),
            old(self).phase == Phase::Ready,
            old(self).cycle < u64::MAX,
        ensures
            final(self).wf(),
            final(self).same_setup(old(self)),
            final(self).swapchain_properties == old(self).swapchain_properties,
            final(self).image_count == old(self).image_count,
            r.running == (old(self).run && !close_requested(events@)),
            final(self).run == r.running,
            r.camera == (CameraUpdate { reset: overlay.reset_camera, follow_input: !overlay.hovered }),
            final(self).resize_dimensions == if old(self).run {
                last_resize(events@)
            } else {
                old(self).resize_dimensions
            },
            !r.running ==> {
                &&& r.script@ == shutdown_script()
                &&& r.load is None
                &&& r.animation is None
                &&& r.frame is None
                &&& final(self).phase == Phase::Ready
                &&& final(self).same_cursor(old(self))
                &&& final(self).has_model == old(self).has_model
                &&& final(self).fences() == InFlightFrames::after_idle(old(self).fences())
            },
            r.running ==> {
                &&& r.script@ == iteration_script(old(self).has_model, model_loaded, overlay.changes)
                &&& match r.load {
                    Some(i) => last_dropped_file(events@) == Some(i as int),
                    None => last_dropped_file(events@) is None,
                }
                &&& final(self).has_model == (old(self).has_model || model_loaded)
                &&& r.animation == if final(self).has_model {
                    Some(
                        animation_command(
                            overlay.toggle_animation,
                            overlay.stop_animation,
                            overlay.reset_animation,
                            overlay.infinite_animation,
                        ),
                    )
                } else {
                    None
                }
                &&& r.frame is Some
                &&& r.frame->Some_0.slot == old(self).in_flight_frames.current_frame
                &&& r.frame->Some_0.sync_objects == old(self).in_flight_frames.sync_objects@[old(
                    self,
                ).in_flight_frames.current_frame as int]
                &&& r.frame->Some_0.wait_for_fence == must_wait(
                    fences_after_script(old(self).fences(), model_loaded, overlay.changes)[old(
                        self,
                    ).in_flight_frames.current_frame as int],
                )
                &&& final(self).fences() == fences_after_script(
                    old(self).fences(),
                    model_loaded,
                    overlay.changes,
                ).update(old(self).in_flight_frames.current_frame as int, FenceState::Unsignaled)
                &&& final(self).phase == (Phase::Acquiring {
                    slot: old(self).in_flight_frames.current_frame,
                })
                &&& final(self).cycle == old(self).cycle + 1
            },
    {
        let load = self.process_event(events);
        let camera = Self::update_camera(overlay.reset_camera, overlay.hovered);
        if !self.run {
            let script = self.shutdown();
            return Iteration { running: false, load: None, script, animation: None, camera, frame: None };
        }
        let mut script = self.load_new_model(model_loaded);
        let animation = if self.has_model {
            Some(
                Self::update_model(
                    overlay.toggle_animation,
                    overlay.stop_animation,
                    overlay.reset_animation,
                    overlay.infinite_animation,
                ),
            )
        } else {
            None
        };
        let mut settings = self.update_renderer_settings(&overlay.changes);
        proof {
            let f = old(self).fences();
            assert(InFlightFrames::after_idle(InFlightFrames::after_idle(f))
                =~= InFlightFrames::after_idle(f));
            if !model_loaded {
                assert(script@ =~= Seq::<Action>::empty());
            }
        }
        script.append(&mut settings);
        let frame = self.draw_frame();
        Iteration { running: true, load, script, animation, camera, frame: Some(frame) }
    }

    /// Takes one batch of platform events. A close request stops the
    /// scheduler; the last resize of the batch becomes the pending geometry,
    /// and a batch without one clears it; the result is the position of the
    /// last dropped file, whose path the caller hands to the loader. A stopped
    /// scheduler ignores the batch.
    pub fn process_event(&mut self, events: &Vec<WindowEvent>) -> (r: Option<usize>)
        requires
            old(self).wf(),
        ensures
            final(self).wf(),
            final(self).same_setup(old(self)),
            final(self).same_surface(old(self)),
            final(self).same_cursor(old(self)),
            final(self).fences() == old(self).fences(),
            final(self).phase == old(self).phase,
            final(self).run == (old(self).run && !close_requested(events@)),
            final(self).resize_dimensions == if old(self).run {
                last_resize(events@)
            } else {
                old(self).resize_dimensions
            },
            match r {
                Some(i) => old(self).run && last_dropped_file(events@) == Some(i as int),
                None => !old(self).run || last_dropped_file(events@) is None,
            },
    {
        if !self.run {
            return None;
        }
        let mut run: bool = true;
        let mut resize_dimensions: Option<Extent> = None;
        let mut dropped: Option<usize> = None;
        let mut i: usize = 0;
        assert(events@.take(0) =~= Seq::<WindowEvent>::empty());
        while i < events.len()
            invariant
                i <= events@.len(),
                run == !close_requested(events@.take(i as int)),
                resize_dimensions == last_resize(events@.take(i as int)),
                match dropped {
                    Some(k) => last_dropped_file(events@.take(i as int)) == Some(k as int),
                    None => last_dropped_file(events@.take(i as int)) is None,
                },
            decreases events@.len() - i,
        {
            let ghost before = events@.take(i as int);
            let ghost after = events@.take(i as int + 1);
            proof {
                assert(after.drop_last() =~= before);
                if before.contains(WindowEvent::CloseRequested) {
                    let k = choose|k: int|
                        0 <= k < before.len() && before[k] == WindowEvent::CloseRequested;
                    assert(after[k] == WindowEvent::CloseRequested);
                }
                if after.contains(WindowEvent::CloseRequested) && events@[i as int]
                    != WindowEvent::CloseRequested {
                    let k = choose|k: int|
                        0 <= k < after.len() && after[k] == WindowEvent::CloseRequested;
                    assert(before[k] == WindowEvent::CloseRequested);
                }
            }
            match events[i] {
                WindowEvent::CloseRequested => {
                    run = false;
                    assert(after[i as int] == WindowEvent::CloseRequested);
                },
                WindowEvent::Resized(extent) => {
                    resize_dimensions = Some(extent);
                },
                WindowEvent::DroppedFile => {
                    dropped = Some(i);
                },
                WindowEvent::Other => {},
            }
            i += 1;
        }
        assert(events@.take(events@.len() as int) =~= events@);
        self.resize_dimensions = resize_dimensions;
        self.run = run;
        dropped
    }

    /// Swaps a loaded model in at a frame boundary. Where the loader has one
    /// ready, the queue is waited on first, then the old model is released
    /// and the new one installed; otherwise nothing happens.
    pub fn load_new_model(&mut self, completed: bool) -> (r: Vec<Action>)
        requires
            old(self).wf(),
            old(self).phase == Phase::Ready,
        ensures
            final(self).wf(),
            final(self).same_setup(old(self)),
            final(self).same_cursor(old(self)),
            final(self).swapchain_properties == old(self).swapchain_properties,
            final(self).image_count == old(self).image_count,
            final(self).phase == old(self).phase,
            final(self).run == old(self).run,
            final(self).resize_dimensions == old(self).resize_dimensions,
            completed ==> r@ == install_script(old(self).has_model) && final(self).has_model
                && final(self).fences() == InFlightFrames::after_idle(old(self).fences()),
            !completed ==> r@.len() == 0 && final(self).has_model == old(self).has_model
                && final(self).fences() == old(self).fences(),
    {
        let mut script: Vec<Action> = Vec::new();
        if completed {
            script.push(Action::WaitQueueIdle);
            if self.has_model {
                script.push(Action::ReleaseModel);
            }
            script.push(Action::InstallModel);
            self.in_flight_frames.device_idle();
            self.has_model = true;
            assert(script@ =~= install_script(old(self).has_model));
        }
        script
    }

    /// Decides what the active model is told about its animation: a toggle
    /// wins over a stop, a stop over a reset, and without any of them the
    /// selected animation plays, looping where the overlay asks for it.
    pub fn update_model(toggle: bool, stop: bool, reset: bool, infinite: bool) -> (r:
        AnimationCommand)
        ensures
            r == animation_command(toggle, stop, reset, infinite),
    {
        if toggle {
            AnimationCommand::Toggle
        } else if stop {
            AnimationCommand::Stop
        } else if reset {
            AnimationCommand::Reset
        } else {
            AnimationCommand::Play { looping: infinite }
        }
    }

    /// Decides what happens to the camera: a requested reset always takes
    /// place; input moves the camera unless the overlay holds the pointer.
    pub fn update_camera(reset: bool, hovered: bool) -> (r: CameraUpdate)
        ensures
            r.reset == reset,
            r.follow_input == !hovered,
    {
        CameraUpdate { reset, follow_input: !hovered }
    }

    /// Turns the pending setting changes into work: for each change, in a
    /// fixed order, a wait for the queue and then the change itself.
    pub fn update_renderer_settings(&mut self, changes: &SettingChanges) -> (r: Vec<Action>)
        requires
            old(self).wf(),
            old(self).phase == Phase::Ready,
        ensures
            final(self).wf(),
            r@ == settings_script(pending_settings(*changes)),
            final(self).same_setup(old(self)),
            final(self).same_surface(old(self)),
            final(self).same_cursor(old(self)),
            final(self).phase == old(self).phase,
            final(self).run == old(self).run,
            final(self).resize_dimensions == old(self).resize_dimensions,
            final(self).fences() == if r@.len() > 0 {
                InFlightFrames::after_idle(old(self).fences())
            } else {
                old(self).fences()
            },
    {
        let ghost pending = pending_settings(*changes);
        let mut script: Vec<Action> = Vec::new();
        proof {
            reveal_with_fuel(settings_script, 8);
            assert(pending.drop_last().drop_last().drop_last().drop_last().drop_last().drop_last().drop_last()
                =~= Seq::<Option<Setting>>::empty());
            assert(script@ =~= settings_script(Seq::<Option<Setting>>::empty()));
        }
        push_guarded_apply(
            &mut script,
            match changes.emissive_intensity {
                Some(v) => Some(Setting::EmissiveIntensity(v)),
                None => None,
            },
        );
        push_guarded_apply(
            &mut script,
            match changes.ssao_enabled {
                Some(v) => Some(Setting::SsaoEnabled(v)),
                None => None,
            },
        );
        push_guarded_apply(
            &mut script,
            match changes.ssao_kernel_size {
                Some(v) => Some(Setting::SsaoKernelSize(v)),
                None => None,
            },
        );
        push_guarded_apply(
            &mut script,
            match changes.ssao_radius {
                Some(v) => Some(Setting::SsaoRadius(v)),
                None => None,
            },
        );
        push_guarded_apply(
            &mut script,
            match changes.ssao_strength {
                Some(v) => Some(Setting::SsaoStrength(v)),
                None => None,
            },
        );
        push_guarded_apply(
            &mut script,
            match changes.tone_map_mode {
                Some(v) => Some(Setting::ToneMapMode(v)),
                None => None,
            },
        );
        push_guarded_apply(
            &mut script,
            match changes.output_mode {
                Some(v) => Some(Setting::OutputMode(v)),
                None => None,
            },
        );
        if script.len() > 0 {
            self.in_flight_frames.device_idle();
        }
        script
    }

    /// Starts a draw cycle on the next slot of the ring. The caller waits on
    /// the slot's fence and resets it, unless the fence was reset by a cycle
    /// that was abandoned before it submitted: then the slot is free as it is.
    pub fn draw_frame(&mut self) -> (r: FrameStart)
        requires
            old(self).wf(),
            old(self).phase == Phase::Ready,
            old(self).cycle < u64::MAX,
        ensures
            final(self).wf(),
            r.slot == old(self).in_flight_frames.current_frame,
            r.sync_objects == old(self).in_flight_frames.sync_objects@[r.slot as int],
            r.wait_for_fence == must_wait(old(self).fences()[r.slot as int]),
            final(self).fences() == old(self).fences().update(
                r.slot as int,
                FenceState::Unsignaled,
            ),
            final(self).in_flight_frames.current_frame as int == InFlightFrames::successor(
                r.slot as int,
                old(self).slots(),
            ),
            final(self).cycle == old(self).cycle + 1,
            final(self).phase == (Phase::Acquiring { slot: r.slot }),
            final(self).same_setup(old(self)),
            final(self).same_surface(old(self)),
            final(self).run == old(self).run,
            final(self).resize_dimensions == old(self).resize_dimensions,
    {
        let slot: usize = self.in_flight_frames.current_frame;
        let state: FenceState = self.in_flight_frames.fence_state(slot);
        let sync_objects: SyncObjects = match self.in_flight_frames.next() {
            Some(s) => s,
            None => unreached(),
        };
        self.in_flight_frames.set_fence_state(slot, FenceState::Unsignaled);
        self.phase = Phase::Acquiring { slot };
        self.cycle = self.cycle + 1;
        let wait_for_fence: bool = match state {
            FenceState::Unsignaled => false,
            _ => true,
        };
        FrameStart { slot, sync_objects, wait_for_fence }
    }

    /// Takes the answer to the acquire. With an image the frame goes on: the
    /// slot's fence is bound to this cycle's submission. A stale surface
    /// abandons the cycle, with nothing submitted and the fence left reset.
    /// Any other failure stops the scheduler.
    pub fn image_acquired(&mut self, result: AcquireResult) -> (r: AcquireStep)
        requires
            old(self).wf(),
            old(self).phase is Acquiring,
            result matches AcquireResult::Image { index, .. } ==> index < old(self).image_count,
        ensures
            final(self).wf(),
            final(self).same_setup(old(self)),
            final(self).same_surface(old(self)),
            final(self).same_cursor(old(self)),
            final(self).resize_dimensions == old(self).resize_dimensions,
            match result {
                AcquireResult::Image { index, suboptimal } => {
                    &&& r == (AcquireStep::Submit { image_index: index })
                    &&& final(self).phase == (Phase::Presenting {
                        slot: old(self).phase->Acquiring_slot,
                        image_index: index,
                        suboptimal,
                    })
                    &&& final(self).fences() == old(self).fences().update(
                        old(self).phase->Acquiring_slot as int,
                        FenceState::InFlight((old(self).cycle - 1) as u64),
                    )
                    &&& final(self).run == old(self).run
                },
                AcquireResult::OutOfDate => {
                    &&& r == AcquireStep::Rebuild
                    &&& final(self).phase == (Phase::Rebuilding { stalled: false })
                    &&& final(self).fences() == old(self).fences()
                    &&& final(self).run == old(self).run
                },
                AcquireResult::Failed(code) => {
                    &&& r == AcquireStep::Fatal(code)
                    &&& final(self).phase == Phase::Ready
                    &&& final(self).fences() == old(self).fences()
                    &&& !final(self).run
                },
            },
    {
        match result {
            AcquireResult::Image { index, suboptimal } => {
                match self.phase {
                    Phase::Acquiring { slot } => {
                        self.in_flight_frames.set_fence_state(
                            slot,
                            FenceState::InFlight(self.cycle - 1),
                        );
                        self.phase = Phase::Presenting { slot, image_index: index, suboptimal };
                    },
                    _ => unreached(),
                }
                AcquireStep::Submit { image_index: index }
            },
            AcquireResult::OutOfDate => {
                self.phase = Phase::Rebuilding { stalled: false };
                AcquireStep::Rebuild
            },
            AcquireResult::Failed(code) => {
                self.phase = Phase::Ready;
                self.run = false;
                AcquireStep::Fatal(code)
            },
        }
    }

    /// The work of recording the frame for the acquired image: reset, begin,
    /// the scene and overlay passes, end.
    pub fn record_command_buffer(&self, image_index: u32) -> (r: Vec<Action>)
        requires
            self.wf(),
            self.phase is Presenting,
            self.phase->Presenting_image_index == image_index,
        ensures
            r@ == record_script(image_index),
    {
        let mut script: Vec<Action> = Vec::new();
        script.push(Action::ResetCommandBuffer(image_index));
        script.push(Action::BeginCommandBuffer(image_index));
        script.push(Action::DrawScene(image_index));
        script.push(Action::EndCommandBuffer(image_index));
        assert(script@ =~= record_script(image_index));
        script
    }

    /// How the recorded frame is handed to the device: the submission waits
    /// for the image on the slot's image-available semaphore, signals the
    /// slot's render-finished semaphore and fence, and the present waits on
    /// the render-finished semaphore.
    pub fn frame_submission(&self) -> (r: FrameSubmission)
        requires
            self.wf(),
            self.phase is Presenting,
        ensures
            r.image_index == self.phase->Presenting_image_index,
            r.wait_semaphore == self.in_flight_frames.sync_objects@[self.phase->Presenting_slot as int].image_available_semaphore,
            r.wait_stage == STAGE_COLOR_ATTACHMENT_OUTPUT,
            r.signal_semaphore == self.in_flight_frames.sync_objects@[self.phase->Presenting_slot as int].render_finished_semaphore,
            r.fence == self.in_flight_frames.sync_objects@[self.phase->Presenting_slot as int].fence,
    {
        match self.phase {
            Phase::Presenting { slot, image_index, .. } => {
                let sync: SyncObjects = self.in_flight_frames.sync_objects[slot];
                FrameSubmission {
                    image_index,
                    wait_semaphore: sync.image_available_semaphore,
                    wait_stage: STAGE_COLOR_ATTACHMENT_OUTPUT,
                    signal_semaphore: sync.render_finished_semaphore,
                    fence: sync.fence,
                }
            },
            _ => unreached(),
        }
    }

    /// Takes the answer to the present. The surface is rebuilt where the
    /// present or the acquire called it suboptimal, where it is stale, or
    /// where a resize is pending; any other failure stops the scheduler.
    pub fn frame_presented(&mut self, result: PresentResult) -> (r: PresentStep)
        requires
            old(self).wf(),
            old(self).phase is Presenting,
        ensures
            final(self).wf(),
            final(self).same_setup(old(self)),
            final(self).same_surface(old(self)),
            final(self).same_cursor(old(self)),
            final(self).resize_dimensions == old(self).resize_dimensions,
            final(self).fences() == old(self).fences(),
            r == match result {
                PresentResult::Presented { suboptimal } => if suboptimal
                    || old(self).phase->Presenting_suboptimal
                    || old(self).resize_dimensions is Some {
                    PresentStep::Rebuild
                } else {
                    PresentStep::Continue
                },
                PresentResult::OutOfDate => PresentStep::Rebuild,
                PresentResult::Failed(code) => PresentStep::Fatal(code),
            },
            final(self).phase == match r {
                PresentStep::Rebuild => (Phase::Rebuilding { stalled: false }),
                _ => Phase::Ready,
            },
            final(self).run == (old(self).run && !(r is Fatal)),
    {
        let acquire_suboptimal: bool = match self.phase {
            Phase::Presenting { suboptimal, .. } => suboptimal,
            _ => unreached(),
        };
        match result {
            PresentResult::Presented { suboptimal } => {
                if suboptimal || acquire_suboptimal || self.resize_dimensions.is_some() {
                    self.phase = Phase::Rebuilding { stalled: false };
                    PresentStep::Rebuild
                } else {
                    self.phase = Phase::Ready;
                    PresentStep::Continue
                }
            },
            PresentResult::OutOfDate => {
                self.phase = Phase::Rebuilding { stalled: false };
                PresentStep::Rebuild
            },
            PresentResult::Failed(code) => {
                self.phase = Phase::Ready;
                self.run = false;
                PresentStep::Fatal(code)
            },
        }
    }

    /// Whether the window reports an extent without area.
    pub fn has_window_been_minimized(window: Option<Extent>) -> (r: bool)
        ensures
            r == minimized(window),
    {
        match window {
            Some(extent) => extent.has_zero_area(),
            None => false,
        }
    }

    /// Whether the window reports an extent with area.
    pub fn has_window_been_maximized(window: Option<Extent>) -> (r: bool)
        ensures
            r == maximized(window),
    {
        match window {
            Some(extent) => !extent.has_zero_area(),
            None => false,
        }
    }

    /// One attempt to rebuild the surface, given what the window reports now
    /// and what the platform supports now.
    ///
    /// While the window has no area nothing is torn down and nothing created:
    /// the caller pumps events and tries again. Otherwise the new surface
    /// takes the pending geometry, or the current extent where none is
    /// pending; the pending geometry is consumed, and the device is idle
    /// before anything of the old surface is released. Where no surface can
    /// be had the scheduler stops.
    pub fn recreate_swapchain(
        &mut self,
        window: Option<Extent>,
        details: &SwapchainSupportDetails,
    ) -> (r: (RebuildStep, Vec<Action>))
        requires
            old(self).wf(),
            old(self).phase is Rebuilding,
        ensures
            final(self).wf(),
            final(self).same_setup(old(self)),
            final(self).same_cursor(old(self)),
            final(self).has_model == old(self).has_model,
            final(self).image_count == old(self).image_count,
            must_stall(old(self).phase->Rebuilding_stalled, window) ==> {
                &&& r.0 == RebuildStep::Stall
                &&& r.1@ == seq![Action::PumpEvents]
                &&& final(self).phase == (Phase::Rebuilding { stalled: true })
                &&& final(self).swapchain_properties == old(self).swapchain_properties
                &&& final(self).resize_dimensions == old(self).resize_dimensions
                &&& final(self).fences() == old(self).fences()
                &&& final(self).run == old(self).run
            },
            !must_stall(old(self).phase->Rebuilding_stalled, window) ==> match details.ideal(
                old(self).target_geometry(),
                old(self).config.vsync,
            ) {
                Ok(properties) => {
                    &&& r.0 == RebuildStep::Create(properties)
                    &&& r.1@ == rebuild_script(properties)
                    &&& !properties.extent.is_empty()
                    &&& final(self).phase == Phase::Creating
                    &&& final(self).swapchain_properties == properties
                    &&& final(self).resize_dimensions is None
                    &&& final(self).fences() == InFlightFrames::after_idle(old(self).fences())
                    &&& final(self).run == old(self).run
                },
                Err(e) => {
                    &&& r.0 == RebuildStep::Fatal(e)
                    &&& r.1@.len() == 0
                    &&& final(self).phase == Phase::Ready
                    &&& final(self).swapchain_properties == old(self).swapchain_properties
                    &&& final(self).resize_dimensions == old(self).resize_dimensions
                    &&& final(self).fences() == old(self).fences()
                    &&& !final(self).run
                },
            },
    {
        let stalled: bool = match self.phase {
            Phase::Rebuilding { stalled } => stalled,
            _ => unreached(),
        };
        let stall: bool = if stalled {
            !Self::has_window_been_maximized(window)
        } else {
            Self::has_window_been_minimized(window)
        };
        let mut script: Vec<Action> = Vec::new();
        if stall {
            self.phase = Phase::Rebuilding { stalled: true };
            script.push(Action::PumpEvents);
            assert(script@ =~= seq![Action::PumpEvents]);
            return (RebuildStep::Stall, script);
        }
        let dimensions: Extent = match self.resize_dimensions {
            Some(extent) => extent,
            None => self.swapchain_properties.extent,
        };
        match details.get_ideal_swapchain_properties(dimensions, self.config.vsync) {
            Ok(properties) => {
                script.push(Action::WaitDeviceIdle);
                script.push(Action::FreeCommandBuffers);
                script.push(Action::DestroySwapchain);
                script.push(Action::NotifyRenderer(properties));
                script.push(Action::CreateSwapchain(properties));
                script.push(Action::AllocateCommandBuffers);
                assert(script@ =~= rebuild_script(properties));
                self.in_flight_frames.device_idle();
                self.swapchain_properties = properties;
                self.resize_dimensions = None;
                self.phase = Phase::Creating;
                (RebuildStep::Create(properties), script)
            },
            Err(e) => {
                self.phase = Phase::Ready;
                self.run = false;
                (RebuildStep::Fatal(e), script)
            },
        }
    }

    /// The geometry a rebuild aims at: the pending resize, else the current extent.
    pub open spec fn target_geometry(&self) -> Extent {
        match self.resize_dimensions {
            Some(extent) => extent,
            None => self.swapchain_properties.extent,
        }
    }

    /// The work of releasing the surface and what depends on it.
    pub fn cleanup_swapchain(&self) -> (r: Vec<Action>)
        ensures
            r@ == seq![Action::FreeCommandBuffers, Action::DestroySwapchain],
    {
        let mut script: Vec<Action> = Vec::new();
        script.push(Action::FreeCommandBuffers);
        script.push(Action::DestroySwapchain);
        assert(script@ =~= seq![Action::FreeCommandBuffers, Action::DestroySwapchain]);
        script
    }

    /// Stops the scheduler and gives the work of shutting down: the device
    /// goes idle first, then command buffers, surface and frame slots are
    /// released in that order.
    pub fn shutdown(&mut self) -> (r: Vec<Action>)
        requires
            old(self).wf(),
        ensures
            final(self).wf(),
            r@ == shutdown_script(),
            !final(self).run,
            final(self).phase == Phase::Ready,
            final(self).fences() == InFlightFrames::after_idle(old(self).fences()),
            final(self).same_setup(old(self)),
            final(self).same_surface(old(self)),
            final(self).same_cursor(old(self)),
            final(self).resize_dimensions == old(self).resize_dimensions,
    {
        let mut script: Vec<Action> = Vec::new();
        script.push(Action::WaitDeviceIdle);
        script.push(Action::FreeCommandBuffers);
        script.push(Action::DestroySwapchain);
        script.push(Action::DestroySyncObjects);
        assert(script@ =~= shutdown_script());
        self.in_flight_frames.device_idle();
        self.phase = Phase::Ready;
        self.run = false;
        script
    }

    /// A rebuild with no resize pending, against the platform report that
    /// the current surface was selected from, selects the current properties
    /// again: the same image count, format, present mode and extent.
    pub proof fn lemma_rebuild_without_resize_keeps_surface(
        &self,
        details: SwapchainSupportDetails,
        requested: Extent,
    )
        requires
            self.resize_dimensions is None,
            details.ideal(requested, self.config.vsync) == Ok::<SwapchainProperties, SurfaceError>(
                self.swapchain_properties,
            ),
        ensures
            details.ideal(self.target_geometry(), self.config.vsync) == Ok::<
                SwapchainProperties,
                SurfaceError,
            >(self.swapchain_properties),
    {
        lemma_same_geometry_same_properties(
            details.capabilities,
            details.formats@,
            details.present_modes@,
            requested,
            self.config.vsync,
        );
    }

    /// Between a draw cycle's start and its submission no cycle has work on
    /// the fence of its slot: the fence is bound to the new submission only
    /// once it is free.
    pub proof fn lemma_slot_free_until_submission(&self, earlier: u64)
        requires
            self.wf(),
            self.phase is Acquiring,
        ensures
            !self.in_flight_frames.holds(earlier, self.phase->Acquiring_slot as int),
    {
    }

    /// A draw cycle that is about to start on a slot on which an earlier
    /// cycle still has work is told to wait for that work first.
    pub proof fn lemma_wait_where_slot_is_held(&self, earlier: u64)
        requires
            self.wf(),
            self.in_flight_frames.holds(earlier, self.in_flight_frames.current_frame as int),
        ensures
            must_wait(self.fences()[self.in_flight_frames.current_frame as int]),
    {
    }

    /// Whatever the number of slots, a slot's fence is bound to the work of
    /// at most one draw cycle, and a draw cycle has work on at most one slot.
    pub proof fn lemma_one_cycle_per_slot(&self, first: u64, second: u64, s1: int, s2: int)
        requires
            self.wf(),
            self.in_flight_frames.holds(first, s1),
            self.in_flight_frames.holds(second, s2),
        ensures
            s1 == s2 <==> first == second,
    {
        if s1 < s2 {
            assert(self.fences()[s1] != self.fences()[s2]);
        } else if s2 < s1 {
            assert(self.fences()[s2] != self.fences()[s1]);
        }
    }
}

} // verus!
