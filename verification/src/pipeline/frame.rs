//! One frame of the simulation: the brush stage, then the automata stage.
//!
//! Both stages write the same surface. Within a frame the brush runs first, so
//! that freshly painted cells take part in that frame's automata step.

use vstd::prelude::*;
use crate::images::{tiles_to_cover, SimulationSurface};
use crate::input::DrawingParams;
use crate::pipeline::automata::{AutomataNode, AutomataState};
use crate::pipeline::draw::{AutomataDrawNode, AutomataDrawState};
use crate::pipeline::{Dispatch, PipelineKind, PipelineStatus, PipelineStatuses};

verus! {

/// What one frame hands to the stages: the pipelines' statuses as polled, and
/// the input snapshot.
#[derive(Clone, Copy, Debug, PartialEq, Eq, Structural)]
pub struct FrameInput {
    pub pipelines: PipelineStatuses,
    pub params: DrawingParams,
}

/// The states of the two nodes.
#[derive(Clone, Copy, Debug, PartialEq, Eq, Structural)]
pub struct StageStates {
    pub draw: AutomataDrawState,
    pub automata: AutomataState,
}

impl StageStates {
    /// Both nodes waiting for their pipelines.
    pub open spec fn loading() -> StageStates {
        StageStates { draw: AutomataDrawState::Loading, automata: AutomataState::Loading }
    }

    /// The states after one frame's readiness polls.
    pub open spec fn after(self, pipelines: PipelineStatuses) -> StageStates {
        StageStates {
            draw: self.draw.after(pipelines.draw),
            automata: self.automata.after(pipelines.init, pipelines.update),
        }
    }

    /// The states after a run of frames, polled in order.
    pub open spec fn after_frames(self, frames: Seq<FrameInput>) -> StageStates
        decreases frames.len(),
    {
        if frames.len() == 0 {
            self
        } else {
            self.after_frames(frames.drop_last()).after(frames.last().pipelines)
        }
    }

    /// The brush node's dispatch in these states.
    pub open spec fn brush(self, input: FrameInput, surface: SimulationSurface) -> Option<
        Dispatch,
    > {
        self.draw.dispatch(input.pipelines.draw, input.params, surface)
    }

    /// The automata node's dispatch in these states.
    pub open spec fn step(self, input: FrameInput, surface: SimulationSurface) -> Option<
        Dispatch,
    > {
        self.automata.dispatch(input.pipelines, input.params.is_erasing, surface)
    }

    /// The dispatches issued in these states, in the order they must reach the
    /// device: the brush dispatch, if any, then the automata dispatch, if any.
    pub open spec fn dispatches(self, input: FrameInput, surface: SimulationSurface) -> Seq<
        Dispatch,
    > {
        let brush = match self.brush(input, surface) {
            Some(dispatch) => seq![dispatch],
            None => seq![],
        };
        let step = match self.step(input, surface) {
            Some(dispatch) => seq![dispatch],
            None => seq![],
        };
        brush + step
    }

    /// The states in which frame `i` of a run of frames issues its dispatches:
    /// those reached by the polls of frames `0` to `i`.
    pub open spec fn at_frame(self, frames: Seq<FrameInput>, i: int) -> StageStates {
        self.after_frames(frames.take(i + 1))
    }

    /// The dispatches of frame `i` in a run of frames.
    pub open spec fn dispatches_at(
        self,
        frames: Seq<FrameInput>,
        i: int,
        surface: SimulationSurface,
    ) -> Seq<Dispatch> {
        self.at_frame(frames, i).dispatches(frames[i], surface)
    }

    /// The states in which a frame issues its dispatches are those left by
    /// the frames before it, advanced by its own polls.
    pub proof fn frame_by_frame(self, frames: Seq<FrameInput>, i: int)
        requires
            0 <= i < frames.len(),
        ensures
            self.at_frame(frames, i) == self.after_frames(frames.take(i)).after(
                frames[i].pipelines,
            ),
            i > 0 ==> self.after_frames(frames.take(i)) == self.at_frame(frames, i - 1),
            self.after_frames(frames.take(0)) == self,
    {
        let seen = frames.take(i + 1);
        assert(seen.drop_last() =~= frames.take(i));
        assert(seen.last() == frames[i]);
        if i > 0 {
            assert(frames.take(i - 1 + 1) =~= frames.take(i));
        }
    }

    /// Node states only move forward: over any run of frames the automata
    /// node's rank does not drop, and a brush node that has loaded stays
    /// loaded, whatever the pipelines report.
    pub proof fn never_regresses(self, frames: Seq<FrameInput>)
        ensures
            self.after_frames(frames).automata.rank() >= self.automata.rank(),
            self.draw == AutomataDrawState::Update ==> self.after_frames(frames).draw
                == AutomataDrawState::Update,
        decreases frames.len(),
    {
        if frames.len() > 0 {
            self.never_regresses(frames.drop_last());
        }
    }

    /// Starting from loading nodes, the automata node is still loading after a
    /// run of frames exactly when the seeding pipeline was ready in none of
    /// them, and the brush node exactly when the draw pipeline was ready in
    /// none of them.
    pub proof fn loading_until_ready(frames: Seq<FrameInput>)
        ensures
            Self::loading().after_frames(frames).automata == AutomataState::Loading <==> forall|
                j: int,
            |
                0 <= j < frames.len() ==> (#[trigger] frames[j]).pipelines.init
                    != PipelineStatus::Ready,
            Self::loading().after_frames(frames).draw == AutomataDrawState::Loading <==> forall|
                j: int,
            |
                0 <= j < frames.len() ==> (#[trigger] frames[j]).pipelines.draw
                    != PipelineStatus::Ready,
        decreases frames.len(),
    {
        if frames.len() > 0 {
            let earlier = frames.drop_last();
            Self::loading_until_ready(earlier);
            Self::loading().never_regresses(earlier);
            assert forall|j: int| 0 <= j < earlier.len() implies earlier[j] == frames[j] by {}
            assert(frames.last() == frames[frames.len() - 1]);
            if Self::loading().after_frames(frames).automata == AutomataState::Loading {
                assert forall|j: int| 0 <= j < frames.len() implies (
                #[trigger] frames[j]).pipelines.init != PipelineStatus::Ready by {
                    if j < earlier.len() {
                        assert(earlier[j].pipelines.init != PipelineStatus::Ready);
                    }
                }
            }
            if Self::loading().after_frames(frames).draw == AutomataDrawState::Loading {
                assert forall|j: int| 0 <= j < frames.len() implies (
                #[trigger] frames[j]).pipelines.draw != PipelineStatus::Ready by {
                    if j < earlier.len() {
                        assert(earlier[j].pipelines.draw != PipelineStatus::Ready);
                    }
                }
            }
        }
    }

    /// Nothing is ever issued against a pipeline that does not report ready in
    /// the frame at hand, in any state: not while it compiles, not after its
    /// compilation failed, and not after a pipeline that was ready stopped
    /// being so. A frame in which no pipeline is ready issues nothing.
    pub proof fn only_ready_pipelines_run(self, input: FrameInput, surface: SimulationSurface)
        ensures
            forall|k: int|
                0 <= k < self.dispatches(input, surface).len() ==> input.pipelines.of(
                    (#[trigger] self.dispatches(input, surface)[k]).kind(),
                ) == PipelineStatus::Ready,
            input.pipelines.init != PipelineStatus::Ready && input.pipelines.update
                != PipelineStatus::Ready && input.pipelines.draw != PipelineStatus::Ready
                ==> self.dispatches(input, surface).len() == 0,
    {
    }

    /// From loading nodes, as long as the seeding pipeline has not reported
    /// ready in any frame up to and including frame `i`, that frame issues no
    /// automata dispatch, whatever the other pipelines report. An automata
    /// dispatch is only ever issued with the eraser up and after the seeding
    /// pipeline has been ready.
    pub proof fn automata_waits_for_seeding(
        frames: Seq<FrameInput>,
        i: int,
        surface: SimulationSurface,
    )
        requires
            0 <= i < frames.len(),
        ensures
            (forall|j: int|
                0 <= j <= i ==> (#[trigger] frames[j]).pipelines.init != PipelineStatus::Ready)
                ==> Self::loading().at_frame(frames, i).step(frames[i], surface) is None,
            (forall|j: int|
                0 <= j <= i ==> (#[trigger] frames[j]).pipelines.init != PipelineStatus::Ready)
                ==> forall|k: int|
                0 <= k < Self::loading().dispatches_at(frames, i, surface).len() ==> (
                #[trigger] Self::loading().dispatches_at(frames, i, surface)[k]).kind()
                    == PipelineKind::Draw,
            Self::loading().at_frame(frames, i).step(frames[i], surface) is Some
                ==> !frames[i].params.is_erasing && exists|j: int|
                0 <= j <= i && (#[trigger] frames[j]).pipelines.init == PipelineStatus::Ready,
    {
        let seen = frames.take(i + 1);
        Self::loading_until_ready(seen);
        assert forall|j: int| 0 <= j <= i implies seen[j] == frames[j] by {}
        if forall|j: int|
            0 <= j <= i ==> (#[trigger] frames[j]).pipelines.init != PipelineStatus::Ready {
            assert forall|j: int| 0 <= j < seen.len() implies (#[trigger] seen[j]).pipelines.init
                != PipelineStatus::Ready by {
                assert(frames[j].pipelines.init != PipelineStatus::Ready);
            }
        }
        if Self::loading().at_frame(frames, i).step(frames[i], surface) is Some {
            let j = choose|j: int|
                0 <= j < seen.len() && (#[trigger] seen[j]).pipelines.init
                    == PipelineStatus::Ready;
            assert(frames[j].pipelines.init == PipelineStatus::Ready);
        }
    }

    /// Once the automata node has left loading, a frame in which the
    /// transition pipeline is ready and the eraser is up issues exactly one
    /// transition dispatch, last in the frame, over the tiles that cover the
    /// grid along each axis, rounded up.
    pub proof fn one_generation_per_frame(
        self,
        input: FrameInput,
        surface: SimulationSurface,
    )
        requires
            self.automata != AutomataState::Loading,
            input.pipelines.update == PipelineStatus::Ready,
            !input.params.is_erasing,
            surface.spec_tile() > 0,
        ensures
            ({
                let issued = self.after(input.pipelines).dispatches(input, surface);
                &&& 1 <= issued.len() <= 2
                &&& issued.last() == Dispatch::Update { workgroups: surface.full_grid() }
                &&& forall|k: int|
                    0 <= k < issued.len() ==> ((#[trigger] issued[k]).kind()
                        == PipelineKind::Update <==> k == issued.len() - 1)
            }),
            surface.full_grid().x == tiles_to_cover(
                surface.spec_width() as int,
                surface.spec_tile() as int,
            ),
            surface.full_grid().y == tiles_to_cover(
                surface.spec_height() as int,
                surface.spec_tile() as int,
            ),
            surface.full_grid().z == 1,
    {
        surface.full_grid_covers();
    }

    /// From loading nodes, every frame of a run that comes after a frame in
    /// which the seeding pipeline was ready, and in which the transition
    /// pipeline is ready and the eraser is up, issues exactly one transition
    /// dispatch over the whole grid, last in the frame.
    pub proof fn stepping_once_ready(frames: Seq<FrameInput>, i: int, surface: SimulationSurface)
        requires
            0 <= i < frames.len(),
            exists|j: int|
                0 <= j < i && (#[trigger] frames[j]).pipelines.init == PipelineStatus::Ready,
            frames[i].pipelines.update == PipelineStatus::Ready,
            !frames[i].params.is_erasing,
            surface.spec_tile() > 0,
        ensures
            ({
                let issued = Self::loading().dispatches_at(frames, i, surface);
                &&& 1 <= issued.len() <= 2
                &&& issued.last() == Dispatch::Update { workgroups: surface.full_grid() }
                &&& forall|k: int|
                    0 <= k < issued.len() ==> ((#[trigger] issued[k]).kind()
                        == PipelineKind::Update <==> k == issued.len() - 1)
            }),
    {
        let before = frames.take(i);
        let j = choose|j: int|
            0 <= j < i && (#[trigger] frames[j]).pipelines.init == PipelineStatus::Ready;
        assert(before[j].pipelines.init == PipelineStatus::Ready);
        Self::loading_until_ready(before);
        Self::loading().frame_by_frame(frames, i);
        Self::loading().after_frames(before).one_generation_per_frame(frames[i], surface);
    }

    /// While the eraser is held the automata node issues nothing, in any
    /// state: whatever a frame then dispatches is a brush dispatch.
    pub proof fn erasing_pauses_automata(self, input: FrameInput, surface: SimulationSurface)
        requires
            input.params.is_erasing,
        ensures
            self.step(input, surface) is None,
            forall|k: int|
                0 <= k < self.dispatches(input, surface).len() ==> (
                #[trigger] self.dispatches(input, surface)[k]).kind() == PipelineKind::Draw,
    {
    }

    /// Whatever state the brush node was in before, a frame issues a brush
    /// dispatch exactly when the brush is down and the draw pipeline reports
    /// ready in that frame. The stroke runs from the snapshot's current cursor
    /// to its previous one.
    pub proof fn brush_dispatch_iff(self, input: FrameInput, surface: SimulationSurface)
        ensures
            ({
                let issued = self.after(input.pipelines).brush(input, surface);
                &&& issued is Some <==> input.params.is_drawing && input.pipelines.draw
                    == PipelineStatus::Ready
                &&& issued matches Some(dispatch) ==> dispatch == (Dispatch::Draw {
                    push_constants: AutomataDrawState::stroke(input.params),
                    workgroups: surface.full_grid(),
                }) && AutomataDrawState::stroke(input.params).draw_start == input.params.mouse_pos
                    && AutomataDrawState::stroke(input.params).draw_end
                    == input.params.prev_mouse_pos
            }),
    {
    }

    /// In every frame of a run, from any starting states, a brush dispatch is
    /// issued exactly when the brush is down and the draw pipeline reports
    /// ready in that frame.
    pub proof fn brush_follows_pipeline(
        self,
        frames: Seq<FrameInput>,
        i: int,
        surface: SimulationSurface,
    )
        requires
            0 <= i < frames.len(),
        ensures
            self.at_frame(frames, i).brush(frames[i], surface) is Some
                <==> frames[i].params.is_drawing && frames[i].pipelines.draw
                == PipelineStatus::Ready,
    {
        self.frame_by_frame(frames, i);
        self.after_frames(frames.take(i)).brush_dispatch_iff(frames[i], surface);
    }

    /// A frame issues at most two dispatches, and a brush dispatch comes
    /// before anything else in it.
    pub proof fn brush_comes_first(self, input: FrameInput, surface: SimulationSurface)
        ensures
            self.dispatches(input, surface).len() <= 2,
            forall|k: int|
                0 <= k < self.dispatches(input, surface).len() && (
                #[trigger] self.dispatches(input, surface)[k]).kind() == PipelineKind::Draw
                    ==> k == 0,
    {
    }
}

/// The two scheduling nodes, run in their fixed order once per frame.
#[derive(Debug)]
pub struct Stages {
    draw: AutomataDrawNode,
    automata: AutomataNode,
}

impl View for Stages {
    type V = StageStates;

    closed spec fn view(&self) -> StageStates {
        StageStates { draw: self.draw@, automata: self.automata@ }
    }
}

impl Default for Stages {
    fn default() -> (stages: Stages)
        ensures
            stages@ == StageStates::loading(),
    {
        Stages { draw: AutomataDrawNode::default(), automata: AutomataNode::default() }
    }
}

impl Stages {
    /// The nodes' current states.
    pub fn states(&self) -> (states: StageStates)
        ensures
            states == self@,
    {
        StageStates { draw: self.draw.state(), automata: self.automata.state() }
    }

    /// Runs one frame: both nodes advance on the polled statuses, then the brush
    /// node and the automata node decide their dispatches, in that order.
    pub fn frame(&mut self, input: &FrameInput, surface: &SimulationSurface) -> (issued: Vec<
        Dispatch,
    >)
        ensures
            final(self)@ == old(self)@.after(input.pipelines),
            issued@ == final(self)@.dispatches(*input, *surface),
            forall|k: int|
                0 <= k < issued@.len() ==> input.pipelines.of((#[trigger] issued@[k]).kind())
                    == PipelineStatus::Ready,
    {
        self.draw.update(input.pipelines.draw);
        self.automata.update(input.pipelines.init, input.pipelines.update);
        let mut issued: Vec<Dispatch> = Vec::new();
        match self.draw.run(&input.pipelines, &input.params, surface) {
            Some(dispatch) => {
                issued.push(dispatch);
            },
            None => {},
        }
        match self.automata.run(&input.pipelines, &input.params, surface) {
            Some(dispatch) => {
                issued.push(dispatch);
            },
            None => {},
        }
        assert(issued@ =~= self@.dispatches(*input, *surface));
        issued
    }

    /// Runs the frames in order and collects what each one issues.
    pub fn run_frames(&mut self, frames: &[FrameInput], surface: &SimulationSurface) -> (issued:
        Vec<Vec<Dispatch>>)
        ensures
            final(self)@ == old(self)@.after_frames(frames@),
            issued@.len() == frames@.len(),
            forall|i: int|
                0 <= i < frames@.len() ==> (#[trigger] issued@[i])@ == old(self)@.dispatches_at(
                    frames@,
                    i,
                    *surface,
                ),
    {
        let ghost start = self@;
        let mut issued: Vec<Vec<Dispatch>> = Vec::new();
        let mut n: usize = 0;
        assert(frames@.take(0) =~= Seq::<FrameInput>::empty());
        while n < frames.len()
            invariant
                n <= frames@.len(),
                issued@.len() == n,
                self@ == start.after_frames(frames@.take(n as int)),
                forall|i: int|
                    0 <= i < n ==> (#[trigger] issued@[i])@ == start.dispatches_at(
                        frames@,
                        i,
                        *surface,
                    ),
            decreases frames@.len() - n,
        {
            proof {
                start.frame_by_frame(frames@, n as int);
            }
            let dispatches = self.frame(&frames[n], surface);
            issued.push(dispatches);
            n += 1;
        }
        assert(frames@.take(n as int) =~= frames@);
        issued
    }
}

} // verus!
