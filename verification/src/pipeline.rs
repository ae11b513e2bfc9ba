//! Compute pipelines, their readiness, and the dispatches issued against them.

use vstd::prelude::*;
use crate::images::Workgroups;
use crate::pipeline::automata::{AutomataNode, AutomataState};
use crate::pipeline::draw::{DrawPushConstants, PackError, PUSH_CONSTANT_BYTES};

pub mod automata;
pub mod draw;
pub mod frame;
pub mod words;

verus! {

/// Binding slot at which every pass attaches the simulation surface.
pub const SURFACE_BINDING: u32 = 0;

/// Where a pipeline stands in the device's asynchronous compilation queue.
#[derive(Clone, Copy, Debug, PartialEq, Eq, Structural)]
pub enum PipelineStatus {
    /// Queued or compiling.
    Pending,
    /// Compiled; it may be dispatched.
    Ready,
    /// Compilation failed; it will never be dispatched.
    Failed,
}

/// The three compute pipelines of the simulation.
#[derive(Clone, Copy, Debug, PartialEq, Eq, Structural)]
pub enum PipelineKind {
    /// Seeds the initial board pattern.
    Init,
    /// Applies the per-cell transition rule once.
    Update,
    /// Paints the brush stroke.
    Draw,
}

impl PipelineKind {
    /// Size in bytes of the push-constant block the pipeline declares: the
    /// packed brush parameters for the draw pipeline, nothing for the others.
    pub open spec fn push_constant_size(self) -> u32 {
        match self {
            PipelineKind::Draw => PUSH_CONSTANT_BYTES,
            _ => 0,
        }
    }

    /// Name of the shader entry point the pipeline is compiled from.
    pub fn entry_point(&self) -> (name: &'static str)
        ensures
            name@ == match *self {
                PipelineKind::Init => "init"@,
                PipelineKind::Update => "update"@,
                PipelineKind::Draw => "draw"@,
            },
    {
        match self {
            PipelineKind::Init => "init",
            PipelineKind::Update => "update",
            PipelineKind::Draw => "draw",
        }
    }

    /// Asset path of the shader module that holds the entry point. The two
    /// automata pipelines share one module.
    pub fn shader_path(&self) -> (path: &'static str)
        ensures
            path@ == match *self {
                PipelineKind::Draw => "shaders/draw.wgsl"@,
                _ => "shaders/game_of_life.wgsl"@,
            },
    {
        match self {
            PipelineKind::Draw => "shaders/draw.wgsl",
            _ => "shaders/game_of_life.wgsl",
        }
    }

    /// Debug label the pipeline is registered under.
    pub fn label(&self) -> (label: &'static str)
        ensures
            label@ == match *self {
                PipelineKind::Init => "Game of Life Init Pipeline"@,
                PipelineKind::Update => "Game of Life Update Pipeline"@,
                PipelineKind::Draw => "Game of Life Draw Pipeline"@,
            },
    {
        match self {
            PipelineKind::Init => "Game of Life Init Pipeline",
            PipelineKind::Update => "Game of Life Update Pipeline",
            PipelineKind::Draw => "Game of Life Draw Pipeline",
        }
    }

    /// Computes the size of the pipeline's push-constant block.
    pub fn push_constant_bytes(&self) -> (size: u32)
        ensures
            size == self.push_constant_size(),
    {
        match self {
            PipelineKind::Draw => PUSH_CONSTANT_BYTES,
            _ => 0,
        }
    }
}

/// Compilation status of each pipeline, as polled at the start of a frame.
#[derive(Clone, Copy, Debug, PartialEq, Eq, Structural)]
pub struct PipelineStatuses {
    pub init: PipelineStatus,
    pub update: PipelineStatus,
    pub draw: PipelineStatus,
}

impl PipelineStatuses {
    /// The status recorded for `kind`.
    pub open spec fn of(self, kind: PipelineKind) -> PipelineStatus {
        match kind {
            PipelineKind::Init => self.init,
            PipelineKind::Update => self.update,
            PipelineKind::Draw => self.draw,
        }
    }

    /// Looks up the status of one pipeline.
    pub fn status(&self, kind: PipelineKind) -> (status: PipelineStatus)
        ensures
            status == self.of(kind),
    {
        match kind {
            PipelineKind::Init => self.init,
            PipelineKind::Update => self.update,
            PipelineKind::Draw => self.draw,
        }
    }
}

/// One compute dispatch against the simulation surface.
///
/// Whoever carries it out binds the surface at [`SURFACE_BINDING`], selects the
/// named pipeline, uploads the push constants if there are any, and launches
/// the workgroups.
#[derive(Clone, Copy, Debug, PartialEq, Eq, Structural)]
pub enum Dispatch {
    /// Run the seeding pipeline.
    Init { workgroups: Workgroups },
    /// Run the transition pipeline: one generation.
    Update { workgroups: Workgroups },
    /// Run the brush pipeline with these parameters.
    Draw { push_constants: DrawPushConstants, workgroups: Workgroups },
}

impl Dispatch {
    /// The pipeline the dispatch runs.
    pub open spec fn kind(self) -> PipelineKind {
        match self {
            Dispatch::Init { .. } => PipelineKind::Init,
            Dispatch::Update { .. } => PipelineKind::Update,
            Dispatch::Draw { .. } => PipelineKind::Draw,
        }
    }

    /// The workgroups the dispatch launches.
    pub open spec fn extent(self) -> Workgroups {
        match self {
            Dispatch::Init { workgroups } => workgroups,
            Dispatch::Update { workgroups } => workgroups,
            Dispatch::Draw { workgroups, .. } => workgroups,
        }
    }

    /// The push-constant block the dispatch uploads: the laid-out brush
    /// parameters for a brush dispatch, nothing for the others.
    pub open spec fn push_constant_block(self) -> Seq<u8> {
        match self {
            Dispatch::Draw { push_constants, .. } => push_constants.layout(),
            _ => Seq::empty(),
        }
    }

    /// Every dispatch uploads exactly as many bytes as its pipeline declares.
    pub proof fn block_fits_pipeline(self)
        ensures
            self.push_constant_block().len() == self.kind().push_constant_size(),
    {
        if let Dispatch::Draw { push_constants, .. } = self {
            push_constants.parse_of_layout();
        }
    }

    /// Names the pipeline to select.
    pub fn pipeline(&self) -> (kind: PipelineKind)
        ensures
            kind == self.kind(),
    {
        match self {
            Dispatch::Init { .. } => PipelineKind::Init,
            Dispatch::Update { .. } => PipelineKind::Update,
            Dispatch::Draw { .. } => PipelineKind::Draw,
        }
    }

    /// Packs the push constants to upload before launching. Only packing brush
    /// parameters can fail, and only where [`DrawPushConstants::pack`] does.
    pub fn payload(&self) -> (packed: Result<Vec<u8>, PackError>)
        ensures
            match packed {
                Ok(payload) => payload@ == self.push_constant_block(),
                Err(e) => e == PackError::LayoutMismatch && (self matches Dispatch::Draw {
                    push_constants,
                    ..
                } && !push_constants.order_neutral()),
            },
    {
        match self {
            Dispatch::Draw { push_constants, .. } => push_constants.pack(),
            _ => Ok(Vec::new()),
        }
    }

    /// Gives the workgroup counts to launch.
    pub fn workgroups(&self) -> (groups: Workgroups)
        ensures
            groups == self.extent(),
    {
        match self {
            Dispatch::Init { workgroups } => *workgroups,
            Dispatch::Update { workgroups } => *workgroups,
            Dispatch::Draw { workgroups, .. } => *workgroups,
        }
    }
}

/// What to do about the bind group before this frame's passes.
#[derive(Clone, Copy, Debug, PartialEq, Eq, Structural)]
pub enum BindGroupAction {
    /// The cached bind group still attaches the current surface.
    Reuse,
    /// Build a new bind group for the current surface and cache it.
    Rebuild,
}

/// Remembers which surface the cached bind group attaches.
///
/// A bind group pairs a pipeline layout with one surface view. It is never
/// mutated: when the surface handle is replaced, a new one is built.
#[derive(Debug)]
pub struct BindGroupCache {
    bound: Option<u64>,
}

impl View for BindGroupCache {
    type V = Option<u64>;

    closed spec fn view(&self) -> Option<u64> {
        self.bound
    }
}

impl Default for BindGroupCache {
    fn default() -> (cache: BindGroupCache)
        ensures
            cache@ is None,
    {
        BindGroupCache { bound: None }
    }
}

impl BindGroupCache {
    /// The surface the cached bind group attaches, if one was built.
    pub fn bound(&self) -> (surface: Option<u64>)
        ensures
            surface == self@,
    {
        self.bound
    }
}

/// Decides whether the bind group must be rebuilt for `surface`, the handle of
/// the surface as resolved this frame, and records that surface as bound.
///
/// The first call asks for a build, and so does every call that sees another
/// surface than the one before; all other calls reuse.
pub fn prepare_bind_group(cache: &mut BindGroupCache, surface: u64) -> (action: BindGroupAction)
    ensures
        final(cache)@ == Some(surface),
        action == if old(cache)@ == Some(surface) {
            BindGroupAction::Reuse
        } else {
            BindGroupAction::Rebuild
        },
{
    match cache.bound {
        Some(bound) => {
            if bound == surface {
                return BindGroupAction::Reuse;
            }
        },
        None => {},
    }
    cache.bound = Some(surface);
    BindGroupAction::Rebuild
}

/// The automata node's state, under the name of the render-graph node
/// `game_of_life`.
pub type GameOfLifeState = AutomataState;

/// The automata node, under the name of the render-graph node `game_of_life`.
pub type GameOfLifeNode = AutomataNode;

} // verus!
