//! The protocol of one presented frame: pre-phase, draw-phase, post-phase,
//! in that order, with the UI overlay composited last.

use crate::layers::{advanced, begun, CompositorModel, CompositorStep, LayerCompositor, LayerSet};
use crate::render_state::{RenderState, Snapshot, INITIAL_BLEND_INDEX, INITIAL_SPEED_BITS};
use crate::resources::{GpuResourceSet, ResourceModel, SliceDescriptor};
use vstd::prelude::*;

verus! {

/// Where the driver is in the current frame.
#[derive(Clone, Copy, Debug, PartialEq, Eq, Structural)]
pub enum Phase {
    /// Between frames.
    Idle,
    /// The pre-phase has run.
    Prepared,
    /// The draw-phase has issued its commands and awaits the device.
    Recording,
    /// The device took the commands of the draw-phase.
    Drawn,
    /// The post-phase is rendering the UI layers.
    Compositing,
    /// The device refused the commands of the draw-phase.
    Failed,
}

/// A command for the device, issued by the draw-phase.
#[derive(Clone, Copy, Debug, PartialEq, Eq, Structural)]
pub enum DrawCommand {
    /// Upload the frame's snapshot into the constant buffers.
    UpdateConstants(Snapshot),
    /// Clear the render target.
    Clear,
    /// Draw the vertices of `slice` with `textures` textures bound.
    Draw { slice: SliceDescriptor, textures: usize },
}

/// The frame's commands did not reach the device. The frame is lost, the
/// next one may succeed.
#[derive(Clone, Copy, Debug, PartialEq, Eq, Structural)]
pub enum FrameSubmissionError {
    /// The device refused the commands.
    DeviceRejected,
    /// A submission was reported while no draw-phase was waiting for one.
    NothingRecorded,
}

/// What the post-phase asks of the host next.
#[derive(Clone, Copy, Debug, PartialEq, Eq, Structural)]
pub enum PostStep {
    /// Have the UI host render the layer at `index` onto the target, and
    /// report how it went.
    RenderLayer { index: usize, topmost: bool },
    /// The frame is over. Present it if `present` holds, skip it otherwise.
    Complete { present: bool },
}

/// A frame driver as mathematical values.
pub struct DriverModel {
    /// The resources that every frame draws with.
    pub resources: ResourceModel,
    /// Whether the pre-phase clears the target itself.
    pub pre_clears: bool,
    /// The UI binding: none, or a compositor over the ordered layers.
    pub ui: Option<CompositorModel>,
    /// The position in the current frame.
    pub phase: Phase,
    /// Whether the target of the current frame has been cleared.
    pub cleared: bool,
    /// The render state as the current frame's draw-phase found it.
    pub snapshot: Snapshot,
}

/// The commands of a draw-phase: the constants first where there are
/// constant buffers, then a clear unless the pre-phase has cleared, then the
/// one draw call.
pub open spec fn draw_commands(resources: ResourceModel, cleared: bool, snapshot: Snapshot) -> Seq<
    DrawCommand,
> {
    let constants = if resources.constant_buffers > 0 {
        seq![DrawCommand::UpdateConstants(snapshot)]
    } else {
        Seq::empty()
    };
    let clear = if cleared {
        Seq::empty()
    } else {
        seq![DrawCommand::Clear]
    };
    constants + clear + seq![
        DrawCommand::Draw { slice: resources.slice, textures: resources.textures.len() as usize },
    ]
}

impl DriverModel {
    /// After the pre-phase: a new frame is begun, whatever became of the
    /// last one.
    pub open spec fn pre(self) -> DriverModel {
        DriverModel { phase: Phase::Prepared, cleared: self.pre_clears, ..self }
    }

    /// After the draw-phase has read the render state as `state`. Without a
    /// pre-phase before it, the draw-phase begins the frame itself, on a
    /// target that is not cleared.
    pub open spec fn draw(self, state: Snapshot) -> DriverModel {
        DriverModel {
            phase: Phase::Recording,
            cleared: self.phase == Phase::Prepared && self.cleared,
            snapshot: state,
            ..self
        }
    }

    /// The commands of the frame that is being recorded.
    pub open spec fn commands(self) -> Seq<DrawCommand> {
        draw_commands(self.resources, self.cleared, self.snapshot)
    }

    /// What the report of a submission amounts to.
    pub open spec fn submission(self, accepted: bool) -> Result<(), FrameSubmissionError> {
        if self.phase != Phase::Recording {
            Err(FrameSubmissionError::NothingRecorded)
        } else if accepted {
            Ok(())
        } else {
            Err(FrameSubmissionError::DeviceRejected)
        }
    }

    /// After the device has answered the submission of the draw-phase.
    pub open spec fn submitted(self, accepted: bool) -> DriverModel {
        if self.phase != Phase::Recording {
            self
        } else if accepted {
            DriverModel { phase: Phase::Drawn, ..self }
        } else {
            DriverModel { phase: Phase::Failed, ..self }
        }
    }

    /// The driver and its request after the compositor has taken a step.
    pub open spec fn composited(self, taken: (crate::layers::Progress, CompositorStep)) -> (
        DriverModel,
        PostStep,
    ) {
        let ui = match self.ui {
            Some(compositor) => Some(CompositorModel { progress: taken.0, ..compositor }),
            None => None,
        };
        match taken.1 {
            CompositorStep::Render { index, topmost } => (
                DriverModel { phase: Phase::Compositing, ui, ..self },
                PostStep::RenderLayer { index, topmost },
            ),
            CompositorStep::Done => (
                DriverModel { phase: Phase::Idle, ui, ..self },
                PostStep::Complete { present: true },
            ),
            CompositorStep::Aborted => (
                DriverModel { phase: Phase::Idle, ui, ..self },
                PostStep::Complete { present: false },
            ),
        }
    }

    /// After the post-phase was entered. It composites only over a frame
    /// that was drawn; any other frame ends here and is not presented.
    pub open spec fn post(self) -> (DriverModel, PostStep) {
        if self.phase != Phase::Drawn {
            (DriverModel { phase: Phase::Idle, ..self }, PostStep::Complete { present: false })
        } else {
            match self.ui {
                None => (
                    DriverModel { phase: Phase::Idle, ..self },
                    PostStep::Complete { present: true },
                ),
                Some(compositor) => self.composited(begun(compositor.layers)),
            }
        }
    }

    /// After the host has reported the render call of a layer. A report
    /// that answers no request changes nothing and presents nothing.
    pub open spec fn reported(self, rendered: bool) -> (DriverModel, PostStep) {
        match self.ui {
            Some(compositor) if self.phase == Phase::Compositing => self.composited(
                advanced(compositor.layers, compositor.progress, rendered),
            ),
            _ => (self, PostStep::Complete { present: false }),
        }
    }

    /// Where the post-phase stands after it was entered and the render
    /// calls were reported as `reports` says.
    pub open spec fn post_progress(self, reports: Seq<bool>) -> (DriverModel, PostStep)
        decreases reports.len(),
    {
        if reports.len() == 0 {
            self.post()
        } else {
            self.post_progress(reports.drop_last()).0.reported(reports.last())
        }
    }
}

/// Drives the frames of one application instance. It owns the resource set
/// and, once bound, the layers of the UI.
#[derive(Debug)]
pub struct FrameDriver {
    resources: GpuResourceSet,
    pre_clears: bool,
    ui: Option<LayerCompositor>,
    phase: Phase,
    cleared: bool,
    snapshot: Snapshot,
}

impl View for FrameDriver {
    type V = DriverModel;

    closed spec fn view(&self) -> DriverModel {
        DriverModel {
            resources: self.resources@,
            pre_clears: self.pre_clears,
            ui: match self.ui {
                Some(compositor) => Some(compositor@),
                None => None,
            },
            phase: self.phase,
            cleared: self.cleared,
            snapshot: self.snapshot,
        }
    }
}

impl FrameDriver {
    /// A driver without a UI, between frames. `pre_clears` says whether
    /// the pre-phase clears the target itself.
    pub fn new(resources: GpuResourceSet, pre_clears: bool) -> (driver: Self)
        ensures
            driver@ == (DriverModel {
                resources: resources@,
                pre_clears,
                ui: None,
                phase: Phase::Idle,
                cleared: false,
                snapshot: Snapshot {
                    blend_index: INITIAL_BLEND_INDEX,
                    speed_bits: INITIAL_SPEED_BITS,
                },
            }),
    {
        FrameDriver {
            resources,
            pre_clears,
            ui: None,
            phase: Phase::Idle,
            cleared: false,
            snapshot: Snapshot { blend_index: INITIAL_BLEND_INDEX, speed_bits: INITIAL_SPEED_BITS },
        }
    }

    /// Binds the layers of the UI. This is decided once: a driver that has
    /// layers keeps them and refuses others.
    pub fn attach_layers(&mut self, layers: LayerSet) -> (attached: bool)
        ensures
            attached == (old(self)@.ui is None),
            attached ==> final(self)@ == (DriverModel {
                ui: Some(
                    CompositorModel { layers: layers@, progress: crate::layers::Progress::Idle },
                ),
                ..old(self)@
            }),
            !attached ==> final(self)@ == old(self)@,
    {
        if self.ui.is_none() {
            self.ui = Some(LayerCompositor::new(layers));
            true
        } else {
            false
        }
    }

    /// The resources that every frame draws with.
    pub fn resources(&self) -> (resources: &GpuResourceSet)
        ensures
            resources@ == self@.resources,
    {
        &self.resources
    }

    /// The layers of the UI, if one is bound.
    pub fn layers(&self) -> (layers: Option<&LayerSet>)
        ensures
            match self@.ui {
                Some(compositor) => layers matches Some(found) && found@ == compositor.layers,
                None => layers is None,
            },
    {
        match &self.ui {
            Some(compositor) => Some(compositor.layers()),
            None => None,
        }
    }

    /// The position in the current frame.
    pub fn phase(&self) -> (phase: Phase)
        ensures
            phase == self@.phase,
    {
        self.phase
    }

    /// The render state as the current frame's draw-phase found it.
    pub fn snapshot(&self) -> (snapshot: Snapshot)
        ensures
            snapshot == self@.snapshot,
    {
        self.snapshot
    }

    /// Begins a frame. Returns whether the host is to clear the target now,
    /// in which case the draw-phase will not clear again.
    pub fn pre_phase(&mut self) -> (handled: bool)
        ensures
            final(self)@ == old(self)@.pre(),
            handled == old(self)@.pre_clears,
    {
        self.phase = Phase::Prepared;
        self.cleared = self.pre_clears;
        self.pre_clears
    }

    /// Takes the frame's one snapshot of the render state and returns the
    /// commands to submit, in order.
    pub fn draw_phase(&mut self, state: &RenderState) -> (commands: Vec<DrawCommand>)
        ensures
            final(self)@ == old(self)@.draw(state@),
            commands@ == final(self)@.commands(),
    {
        let snapshot = state.snapshot();
        let cleared: bool = self.phase == Phase::Prepared && self.cleared;
        self.phase = Phase::Recording;
        self.cleared = cleared;
        self.snapshot = snapshot;
        let mut commands: Vec<DrawCommand> = Vec::new();
        if self.resources.layout().constant_buffers() > 0 {
            commands.push(DrawCommand::UpdateConstants(snapshot));
        }
        if !cleared {
            commands.push(DrawCommand::Clear);
        }
        commands.push(
            DrawCommand::Draw {
                slice: self.resources.layout().slice(),
                textures: self.resources.layout().textures().len(),
            },
        );
        assert(commands@ =~= draw_commands(self.resources@, cleared, snapshot));
        commands
    }

    /// Takes the device's answer to the commands of the draw-phase. After a
    /// refusal the frame is lost: its post-phase composites nothing and
    /// asks the host not to present.
    pub fn submitted(&mut self, accepted: bool) -> (outcome: Result<(), FrameSubmissionError>)
        ensures
            final(self)@ == old(self)@.submitted(accepted),
            outcome == old(self)@.submission(accepted),
    {
        if self.phase != Phase::Recording {
            Err(FrameSubmissionError::NothingRecorded)
        } else if accepted {
            self.phase = Phase::Drawn;
            Ok(())
        } else {
            self.phase = Phase::Failed;
            Err(FrameSubmissionError::DeviceRejected)
        }
    }

    fn after_step(&mut self, step: CompositorStep) -> (next: PostStep)
        ensures
            final(self)@.phase == match step {
                CompositorStep::Render { .. } => Phase::Compositing,
                _ => Phase::Idle,
            },
            final(self)@ == (DriverModel { phase: final(self)@.phase, ..old(self)@ }),
            next == match step {
                CompositorStep::Render { index, topmost } => PostStep::RenderLayer {
                    index,
                    topmost,
                },
                CompositorStep::Done => PostStep::Complete { present: true },
                CompositorStep::Aborted => PostStep::Complete { present: false },
            },
    {
        match step {
            CompositorStep::Render { index, topmost } => {
                self.phase = Phase::Compositing;
                PostStep::RenderLayer { index, topmost }
            },
            CompositorStep::Done => {
                self.phase = Phase::Idle;
                PostStep::Complete { present: true }
            },
            CompositorStep::Aborted => {
                self.phase = Phase::Idle;
                PostStep::Complete { present: false }
            },
        }
    }

    /// Enters the post-phase and returns its first request: the bottom
    /// layer of the UI, or the end of the frame.
    pub fn post_phase(&mut self) -> (next: PostStep)
        ensures
            (final(self)@, next) == old(self)@.post(),
    {
        if self.phase != Phase::Drawn {
            self.phase = Phase::Idle;
            return PostStep::Complete { present: false };
        }
        let step = match &mut self.ui {
            Some(compositor) => compositor.begin_frame(),
            None => CompositorStep::Done,
        };
        self.after_step(step)
    }

    /// Takes the host's report of the layer that was requested last and
    /// returns the next request.
    pub fn layer_rendered(&mut self, rendered: bool) -> (next: PostStep)
        ensures
            (final(self)@, next) == old(self)@.reported(rendered),
    {
        if self.phase != Phase::Compositing {
            return PostStep::Complete { present: false };
        }
        match &mut self.ui {
            Some(compositor) => {
                let step = compositor.advance(rendered);
                self.after_step(step)
            },
            None => PostStep::Complete { present: false },
        }
    }
}

/// The post-phase never writes the snapshot.
proof fn lemma_post_keeps_snapshot(driver: DriverModel, reports: Seq<bool>)
    ensures
        driver.post_progress(reports).0.snapshot == driver.snapshot,
        driver.post_progress(reports).0.resources == driver.resources,
        driver.post_progress(reports).0.pre_clears == driver.pre_clears,
    decreases reports.len(),
{
    if reports.len() > 0 {
        lemma_post_keeps_snapshot(driver, reports.drop_last());
    }
}

/// The render state is read once per frame. The commands of a frame hold
/// the state as the draw-phase found it; whatever is written afterwards,
/// and however the submission and the layers of that frame go, the frame
/// keeps that snapshot to its end; and the draw-phase of the next frame
/// holds the state as it is then.
pub proof fn lemma_snapshot_once_per_frame(
    driver: DriverModel,
    at_draw: Snapshot,
    later: Snapshot,
    accepted: bool,
    reports: Seq<bool>,
)
    ensures
        driver.draw(at_draw).snapshot == at_draw,
        driver.draw(at_draw).commands() == draw_commands(
            driver.resources,
            driver.draw(at_draw).cleared,
            at_draw,
        ),
        driver.draw(at_draw).submitted(accepted).post_progress(reports).0.snapshot == at_draw,
        driver.draw(at_draw).submitted(accepted).post_progress(
            reports,
        ).0.pre().draw(later).snapshot == later,
        driver.draw(at_draw).submitted(accepted).post_progress(
            reports,
        ).0.pre().draw(later).commands() == draw_commands(
            driver.resources,
            driver.pre_clears,
            later,
        ),
{
    lemma_post_keeps_snapshot(driver.draw(at_draw).submitted(accepted), reports);
}

/// No frame is presented in part: the post-phase requests a layer or asks
/// for presentation only if the draw-phase of the frame was submitted and
/// accepted. In every other phase it ends the frame at once, unpresented.
pub proof fn lemma_no_overlay_without_draw(driver: DriverModel, state: Snapshot)
    ensures
        driver.phase != Phase::Drawn ==> driver.post().1 == (PostStep::Complete {
            present: false,
        }),
        driver.draw(state).submitted(false).post().1 == (PostStep::Complete { present: false }),
        driver.draw(state).post().1 == (PostStep::Complete { present: false }),
        driver.pre().post().1 == (PostStep::Complete { present: false }),
{
}

/// A draw-phase issues exactly one draw call, as its last command, over
/// the vertices and textures of the resource set; and it clears the target
/// if and only if the pre-phase has not.
pub proof fn lemma_one_draw_call(resources: ResourceModel, cleared: bool, snapshot: Snapshot)
    ensures
        ({
            let commands = draw_commands(resources, cleared, snapshot);
            &&& commands.len() >= 1
            &&& commands.last() == (DrawCommand::Draw {
                slice: resources.slice,
                textures: resources.textures.len() as usize,
            })
            &&& forall|i: int| 0 <= i < commands.len() - 1 ==> !(commands[i] is Draw)
            &&& cleared == !commands.contains(DrawCommand::Clear)
        }),
{
    let commands = draw_commands(resources, cleared, snapshot);
    if !cleared {
        if resources.constant_buffers > 0 {
            assert(commands[1] == DrawCommand::Clear);
        } else {
            assert(commands[0] == DrawCommand::Clear);
        }
    }
}

} // verus!
