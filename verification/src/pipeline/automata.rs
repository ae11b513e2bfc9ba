//! The automata pass: seeding the board, then stepping it once per frame.

use vstd::prelude::*;
use crate::images::SimulationSurface;
use crate::input::DrawingParams;
use crate::pipeline::{Dispatch, PipelineStatus, PipelineStatuses};

verus! {

/// Where the automata node stands: waiting for the seeding pipeline, seeding,
/// or stepping.
#[derive(Clone, Copy, Debug, PartialEq, Eq, Structural)]
pub enum AutomataState {
    Loading,
    Init,
    Update,
}

impl AutomataState {
    /// How far along the node is; no transition lowers it.
    pub open spec fn rank(self) -> nat {
        match self {
            AutomataState::Loading => 0,
            AutomataState::Init => 1,
            AutomataState::Update => 2,
        }
    }

    /// The state after one readiness poll: seeding starts once the seeding
    /// pipeline is ready, stepping once the transition pipeline is ready, one
    /// step per poll.
    pub open spec fn after(self, init: PipelineStatus, update: PipelineStatus) -> AutomataState {
        match self {
            AutomataState::Loading => if init == PipelineStatus::Ready {
                AutomataState::Init
            } else {
                AutomataState::Loading
            },
            AutomataState::Init => if update == PipelineStatus::Ready {
                AutomataState::Update
            } else {
                AutomataState::Init
            },
            AutomataState::Update => AutomataState::Update,
        }
    }

    /// What the node issues in this state, given this frame's statuses:
    /// nothing while the eraser is held, while the node is loading, or when the
    /// state's pipeline does not report ready; else one dispatch of that
    /// pipeline over the whole grid. Seeding repeats on every frame spent in
    /// `Init`.
    pub open spec fn dispatch(
        self,
        pipelines: PipelineStatuses,
        is_erasing: bool,
        surface: SimulationSurface,
    ) -> Option<Dispatch> {
        if is_erasing {
            None
        } else {
            match self {
                AutomataState::Loading => None,
                AutomataState::Init => if pipelines.init == PipelineStatus::Ready {
                    Some(Dispatch::Init { workgroups: surface.full_grid() })
                } else {
                    None
                },
                AutomataState::Update => if pipelines.update == PipelineStatus::Ready {
                    Some(Dispatch::Update { workgroups: surface.full_grid() })
                } else {
                    None
                },
            }
        }
    }
}

/// The scheduling node of the automata pass.
#[derive(Debug)]
pub struct AutomataNode {
    state: AutomataState,
}

impl View for AutomataNode {
    type V = AutomataState;

    closed spec fn view(&self) -> AutomataState {
        self.state
    }
}

impl Default for AutomataNode {
    fn default() -> (node: AutomataNode)
        ensures
            node@ == AutomataState::Loading,
    {
        Self { state: AutomataState::Loading }
    }
}

impl AutomataNode {
    /// The node's current state.
    pub fn state(&self) -> (state: AutomataState)
        ensures
            state == self@,
    {
        self.state
    }

    /// Advances the node on this frame's poll of the two automata pipelines.
    pub fn update(&mut self, init: PipelineStatus, update: PipelineStatus)
        ensures
            final(self)@ == old(self)@.after(init, update),
            final(self)@.rank() >= old(self)@.rank(),
    {
        match self.state {
            AutomataState::Loading => {
                if init == PipelineStatus::Ready {
                    self.state = AutomataState::Init;
                }
            },
            AutomataState::Init => {
                if update == PipelineStatus::Ready {
                    self.state = AutomataState::Update;
                }
            },
            AutomataState::Update => {},
        }
    }

    /// Decides this frame's automata dispatch from the statuses polled this
    /// frame. A pipeline that does not report ready is never dispatched, even
    /// if it was ready before; the node's state stays where it is.
    pub fn run(
        &self,
        pipelines: &PipelineStatuses,
        params: &DrawingParams,
        surface: &SimulationSurface,
    ) -> (issued: Option<Dispatch>)
        ensures
            issued == self@.dispatch(*pipelines, params.is_erasing, *surface),
            params.is_erasing ==> issued is None,
            issued matches Some(dispatch) ==> pipelines.of(dispatch.kind())
                == PipelineStatus::Ready,
    {
        if !params.is_erasing {
            match self.state {
                AutomataState::Loading => None,
                AutomataState::Init => {
                    if pipelines.init == PipelineStatus::Ready {
                        Some(Dispatch::Init { workgroups: surface.workgroups() })
                    } else {
                        None
                    }
                },
                AutomataState::Update => {
                    if pipelines.update == PipelineStatus::Ready {
                        Some(Dispatch::Update { workgroups: surface.workgroups() })
                    } else {
                        None
                    }
                },
            }
        } else {
            None
        }
    }
}

} // verus!
