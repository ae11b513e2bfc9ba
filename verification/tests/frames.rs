use pixel_world::images::{SimulationSurface, Workgroups};
use pixel_world::input::{CanvasPos, DrawingParams};
use pixel_world::pipeline::automata::AutomataState;
use pixel_world::pipeline::draw::{AutomataDrawState, DrawPushConstants, BRUSH_RADIUS};
use pixel_world::pipeline::frame::{FrameInput, StageStates, Stages};
use pixel_world::pipeline::{Dispatch, PipelineKind, PipelineStatus, PipelineStatuses};
use pixel_world::CurrentElement;

const GRID: Workgroups = Workgroups { x: 160, y: 90, z: 1 };

fn all(status: PipelineStatus) -> PipelineStatuses {
    PipelineStatuses { init: status, update: status, draw: status }
}

fn frame_of(pipelines: PipelineStatuses, is_drawing: bool, is_erasing: bool) -> FrameInput {
    FrameInput {
        pipelines,
        params: DrawingParams { is_drawing, is_erasing, ..DrawingParams::default() },
    }
}

fn automata_dispatches(issued: &[Dispatch]) -> usize {
    issued.iter().filter(|d| d.pipeline() != PipelineKind::Draw).count()
}

#[test]
fn stages_start_loading() {
    assert_eq!(
        Stages::default().states(),
        StageStates { draw: AutomataDrawState::Loading, automata: AutomataState::Loading }
    );
}

#[test]
fn no_automata_dispatch_before_the_pipelines_are_ready() {
    let surface = SimulationSurface::standard();
    let mut stages = Stages::default();
    let mut total = 0;
    for n in 0..100 {
        let status = if n % 3 == 0 { PipelineStatus::Failed } else { PipelineStatus::Pending };
        let issued = stages.frame(&frame_of(all(status), n % 2 == 0, n % 5 == 0), &surface);
        total += issued.len();
    }
    assert_eq!(total, 0);
    assert_eq!(stages.states().automata, AutomataState::Loading);
}

#[test]
fn no_automata_dispatch_while_only_the_update_pipeline_is_ready() {
    let surface = SimulationSurface::standard();
    let mut stages = Stages::default();
    let pipelines = PipelineStatuses {
        init: PipelineStatus::Pending,
        update: PipelineStatus::Ready,
        draw: PipelineStatus::Ready,
    };
    for n in 0..20 {
        let issued = stages.frame(&frame_of(pipelines, n % 2 == 0, false), &surface);
        assert_eq!(automata_dispatches(&issued), 0);
    }
}

#[test]
fn seeding_runs_while_the_update_pipeline_compiles() {
    let surface = SimulationSurface::standard();
    let mut stages = Stages::default();
    let pipelines = PipelineStatuses {
        init: PipelineStatus::Ready,
        update: PipelineStatus::Pending,
        draw: PipelineStatus::Pending,
    };
    for _ in 0..3 {
        assert_eq!(
            stages.frame(&frame_of(pipelines, false, false), &surface),
            vec![Dispatch::Init { workgroups: GRID }]
        );
    }
}

#[test]
fn one_update_dispatch_per_frame_once_stepping() {
    let surface = SimulationSurface::standard();
    let mut stages = Stages::default();
    stages.frame(&frame_of(all(PipelineStatus::Ready), false, false), &surface);
    for _ in 0..50 {
        assert_eq!(
            stages.frame(&frame_of(all(PipelineStatus::Ready), false, false), &surface),
            vec![Dispatch::Update { workgroups: GRID }]
        );
    }
}

#[test]
fn first_ready_frame_seeds_rather_than_steps() {
    let surface = SimulationSurface::standard();
    let mut stages = Stages::default();
    assert_eq!(
        stages.frame(&frame_of(all(PipelineStatus::Ready), false, false), &surface),
        vec![Dispatch::Init { workgroups: GRID }]
    );
}

#[test]
fn erase_suppresses_automata_for_that_frame_only() {
    let surface = SimulationSurface::standard();
    let mut stages = Stages::default();
    let ready = all(PipelineStatus::Ready);
    assert_eq!(stages.frame(&frame_of(ready, false, true), &surface), vec![]);
    assert_eq!(stages.states().automata, AutomataState::Init);
    assert_eq!(stages.frame(&frame_of(ready, false, true), &surface), vec![]);
    assert_eq!(stages.states().automata, AutomataState::Update);
    assert_eq!(
        stages.frame(&frame_of(ready, false, false), &surface),
        vec![Dispatch::Update { workgroups: GRID }]
    );
    assert_eq!(stages.frame(&frame_of(ready, false, true), &surface), vec![]);
    assert_eq!(
        stages.frame(&frame_of(ready, false, false), &surface),
        vec![Dispatch::Update { workgroups: GRID }]
    );
}

#[test]
fn erasing_while_drawing_leaves_only_the_brush() {
    let surface = SimulationSurface::standard();
    let mut stages = Stages::default();
    let ready = all(PipelineStatus::Ready);
    stages.frame(&frame_of(ready, false, false), &surface);
    stages.frame(&frame_of(ready, false, false), &surface);
    let issued = stages.frame(&frame_of(ready, true, true), &surface);
    assert_eq!(issued.len(), 1);
    assert_eq!(issued[0].pipeline(), PipelineKind::Draw);
}

#[test]
fn brush_dispatch_needs_drawing_and_a_ready_pipeline() {
    let surface = SimulationSurface::standard();
    for status in [PipelineStatus::Pending, PipelineStatus::Ready, PipelineStatus::Failed] {
        for is_drawing in [false, true] {
            let mut stages = Stages::default();
            let pipelines = PipelineStatuses {
                init: PipelineStatus::Pending,
                update: PipelineStatus::Pending,
                draw: status,
            };
            let issued = stages.frame(&frame_of(pipelines, is_drawing, false), &surface);
            let expected = is_drawing && status == PipelineStatus::Ready;
            assert_eq!(issued.len() == 1, expected);
            assert_eq!(issued.is_empty(), !expected);
        }
    }
}

#[test]
fn brush_comes_before_the_automata_step() {
    let surface = SimulationSurface::standard();
    let mut stages = Stages::default();
    let ready = all(PipelineStatus::Ready);
    let issued = stages.frame(&frame_of(ready, true, false), &surface);
    assert_eq!(issued.len(), 2);
    assert_eq!(issued[0].pipeline(), PipelineKind::Draw);
    assert_eq!(issued[1], Dispatch::Init { workgroups: GRID });
    let issued = stages.frame(&frame_of(ready, true, false), &surface);
    assert_eq!(issued.len(), 2);
    assert_eq!(issued[0].pipeline(), PipelineKind::Draw);
    assert_eq!(issued[1], Dispatch::Update { workgroups: GRID });
}

#[test]
fn frame_by_frame_scenario() {
    let surface = SimulationSurface::standard();
    let mut stages = Stages::default();

    let first = stages.frame(&frame_of(all(PipelineStatus::Pending), false, false), &surface);
    assert_eq!(first, vec![]);

    for _ in 2..50 {
        stages.frame(&frame_of(all(PipelineStatus::Ready), false, false), &surface);
    }

    let fiftieth = stages.frame(&frame_of(all(PipelineStatus::Ready), false, false), &surface);
    assert_eq!(fiftieth, vec![Dispatch::Update { workgroups: GRID }]);

    let cursor = CanvasPos { x: 640.0f32.to_bits(), y: 360.0f32.to_bits() };
    let previous = CanvasPos { x: 630.0f32.to_bits(), y: 355.0f32.to_bits() };
    let painting = FrameInput {
        pipelines: all(PipelineStatus::Ready),
        params: DrawingParams {
            mouse_pos: cursor,
            is_drawing: true,
            prev_mouse_pos: previous,
            is_erasing: false,
            element: CurrentElement::Sand,
        },
    };
    let fifty_first = stages.frame(&painting, &surface);
    assert_eq!(
        fifty_first,
        vec![
            Dispatch::Draw {
                push_constants: DrawPushConstants::new(cursor, previous, BRUSH_RADIUS, 1),
                workgroups: GRID,
            },
            Dispatch::Update { workgroups: GRID },
        ]
    );
    match fifty_first[0] {
        Dispatch::Draw { push_constants, .. } => assert_eq!(push_constants.element, 1),
        other => panic!("expected a brush dispatch, got {:?}", other),
    }
}

#[test]
fn a_failed_compile_freezes_the_simulation_quietly() {
    let surface = SimulationSurface::standard();
    let mut stages = Stages::default();
    for _ in 0..30 {
        let issued = stages.frame(&frame_of(all(PipelineStatus::Failed), true, false), &surface);
        assert_eq!(issued, vec![]);
    }
    assert_eq!(
        stages.states(),
        StageStates { draw: AutomataDrawState::Loading, automata: AutomataState::Loading }
    );
}

#[test]
fn states_only_move_forward() {
    let surface = SimulationSurface::standard();
    let mut stages = Stages::default();
    let statuses = [PipelineStatus::Pending, PipelineStatus::Ready, PipelineStatus::Failed];
    let rank = |state: AutomataState| match state {
        AutomataState::Loading => 0,
        AutomataState::Init => 1,
        AutomataState::Update => 2,
    };
    let mut seen = 0;
    let mut loaded = false;
    for n in 0..81usize {
        let pipelines = PipelineStatuses {
            init: statuses[(n / 9) % 3],
            update: statuses[(n / 3) % 3],
            draw: statuses[(n * 2 + 1) % 3],
        };
        stages.frame(&frame_of(pipelines, false, false), &surface);
        let now = stages.states();
        assert!(rank(now.automata) >= seen);
        seen = rank(now.automata);
        if loaded {
            assert_eq!(now.draw, AutomataDrawState::Update);
        }
        loaded = now.draw == AutomataDrawState::Update;
    }
    assert_eq!(seen, 2);
}

#[test]
fn run_frames_matches_frame_by_frame() {
    let surface = SimulationSurface::standard();
    let statuses = [PipelineStatus::Pending, PipelineStatus::Ready, PipelineStatus::Failed];
    let frames: Vec<FrameInput> = (0..40usize)
        .map(|n| {
            frame_of(
                PipelineStatuses {
                    init: statuses[(n / 7) % 3],
                    update: statuses[(n / 11) % 3],
                    draw: statuses[(n / 5) % 3],
                },
                n % 3 != 0,
                n % 4 == 0,
            )
        })
        .collect();

    let mut batch = Stages::default();
    let issued = batch.run_frames(&frames, &surface);

    let mut single = Stages::default();
    let expected: Vec<Vec<Dispatch>> =
        frames.iter().map(|frame| single.frame(frame, &surface)).collect();

    assert_eq!(issued, expected);
    assert_eq!(batch.states(), single.states());
}

#[test]
fn run_frames_on_nothing_changes_nothing() {
    let surface = SimulationSurface::standard();
    let mut stages = Stages::default();
    stages.frame(&frame_of(all(PipelineStatus::Ready), false, false), &surface);
    let before = stages.states();
    assert_eq!(stages.run_frames(&[], &surface), Vec::<Vec<Dispatch>>::new());
    assert_eq!(stages.states(), before);
}

#[test]
fn scenario_as_one_run() {
    let surface = SimulationSurface::standard();
    let mut frames = vec![frame_of(all(PipelineStatus::Pending), false, false)];
    for _ in 2..=50 {
        frames.push(frame_of(all(PipelineStatus::Ready), false, false));
    }
    frames.push(FrameInput {
        pipelines: all(PipelineStatus::Ready),
        params: DrawingParams {
            is_drawing: true,
            element: CurrentElement::Sand,
            ..DrawingParams::default()
        },
    });
    let issued = Stages::default().run_frames(&frames, &surface);
    assert_eq!(issued.len(), 51);
    assert_eq!(issued[0], vec![]);
    assert_eq!(issued[1], vec![Dispatch::Init { workgroups: GRID }]);
    for n in 2..50 {
        assert_eq!(issued[n], vec![Dispatch::Update { workgroups: GRID }]);
    }
    assert_eq!(issued[50].len(), 2);
    assert_eq!(
        issued[50][0],
        Dispatch::Draw {
            push_constants: DrawPushConstants::new(
                CanvasPos { x: 0, y: 0 },
                CanvasPos { x: 0, y: 0 },
                BRUSH_RADIUS,
                1
            ),
            workgroups: GRID,
        }
    );
    assert_eq!(issued[50][1], Dispatch::Update { workgroups: GRID });
}

#[test]
fn a_pipeline_that_fails_after_being_ready_is_not_dispatched() {
    let surface = SimulationSurface::standard();
    let mut stages = Stages::default();
    let ready = all(PipelineStatus::Ready);
    stages.frame(&frame_of(ready, false, false), &surface);
    assert_eq!(
        stages.frame(&frame_of(ready, false, false), &surface),
        vec![Dispatch::Update { workgroups: GRID }]
    );
    let before = stages.states();
    for status in [PipelineStatus::Failed, PipelineStatus::Pending] {
        assert_eq!(stages.frame(&frame_of(all(status), true, false), &surface), vec![]);
        assert_eq!(stages.frame(&frame_of(all(status), false, false), &surface), vec![]);
        assert_eq!(stages.states(), before);
    }
    let issued = stages.frame(&frame_of(ready, true, false), &surface);
    assert_eq!(issued.len(), 2);
    assert_eq!(issued[1], Dispatch::Update { workgroups: GRID });
}

#[test]
fn brush_is_not_dispatched_once_its_pipeline_is_lost() {
    let surface = SimulationSurface::standard();
    let mut stages = Stages::default();
    let ready = all(PipelineStatus::Ready);
    assert_eq!(stages.frame(&frame_of(ready, true, false), &surface).len(), 2);
    let draw_failed = PipelineStatuses { draw: PipelineStatus::Failed, ..ready };
    assert_eq!(
        stages.frame(&frame_of(draw_failed, true, false), &surface),
        vec![Dispatch::Update { workgroups: GRID }]
    );
    assert_eq!(stages.states().draw, AutomataDrawState::Update);
}

#[test]
fn every_dispatch_names_a_ready_pipeline() {
    let surface = SimulationSurface::standard();
    let statuses = [PipelineStatus::Pending, PipelineStatus::Ready, PipelineStatus::Failed];
    let mut stages = Stages::default();
    let mut issued_any = false;
    for n in 0..243usize {
        let pipelines = PipelineStatuses {
            init: statuses[n % 3],
            update: statuses[(n / 3) % 3],
            draw: statuses[(n / 9) % 3],
        };
        for dispatch in stages.frame(&frame_of(pipelines, n % 2 == 0, n % 7 == 0), &surface) {
            assert_eq!(pipelines.status(dispatch.pipeline()), PipelineStatus::Ready);
            issued_any = true;
        }
    }
    assert!(issued_any);
}
