//! The frame sequencer: one call per frame decides which passes are
//! recorded, in which order.
//!
//! A frame is recorded in three stages. The draw stage runs only while the
//! brush is down, and also while the simulation is paused. The simulation
//! stage runs only while it is not paused. The colour stage always runs, so
//! that a stroke shows at once.

use crate::frame::{next_frame, FrameTick};
use crate::sand::bind_groups::SandPipelineBindGroups;
use crate::sand::input::AutomataParams;
use crate::sand::pipeline::{
    after_dispersion,
    dispatch_of,
    dispersion_group,
    movement_group,
    Dispatch,
    Kernel,
    SandPipelines,
};
use crate::sand::push_constants::SandPushConstants;
use crate::sand::settings::SandAppSettings;
use vstd::prelude::*;

verus! {

/// The direction of a frame's first dispersion group: the frame's parity.
pub open spec fn dispersion_direction(frame: usize) -> u32 {
    (frame as int % 2) as u32
}

/// The direction that is not the given one.
pub open spec fn opposite(direction: u32) -> u32 {
    (1 - direction) as u32
}

/// The direction of a frame's first dispersion group.
pub fn direction_at(frame: usize) -> (direction: u32)
    ensures
        direction == dispersion_direction(frame),
        direction == frame % 2,
{
    if frame % 2 == 0 {
        0
    } else {
        1
    }
}

/// The draw stage: one dispatch of the draw kernel against the main
/// configuration while the brush is down.
pub open spec fn draw_stage(groups: SandPipelineBindGroups, block: SandPushConstants, drawing: bool)
    -> Seq<Dispatch> {
    if drawing {
        seq![dispatch_of(Kernel::Draw, groups.bind_group_main, Some(block))]
    } else {
        Seq::empty()
    }
}

/// The simulation stage: nothing while paused. Otherwise a movement group
/// with step 0 and a dispersion group in the frame's direction; then, if
/// more than one movement step is set, a movement group with step 1, one
/// with step 2 if more than two are set, and a second dispersion group in
/// the opposite direction.
///
/// The block is handed from group to group: a later group sees the
/// movement step and the dispersion words as the groups before it left
/// them.
pub open spec fn simulation_stage(
    groups: SandPipelineBindGroups,
    block: SandPushConstants,
    settings: SandAppSettings,
    frame: usize,
) -> Seq<Dispatch> {
    if settings.is_paused {
        Seq::empty()
    } else {
        let direction = dispersion_direction(frame);
        let steps = settings.dispersion_steps;
        let first = movement_group(groups, block, 0) + dispersion_group(
            groups,
            block.with_move_step(0),
            direction,
            steps as nat,
        );
        let spread = after_dispersion(block.with_move_step(0), direction, steps);
        if settings.movement_steps > 2 {
            first + movement_group(groups, spread, 1) + movement_group(groups, spread, 2)
                + dispersion_group(
                groups,
                spread.with_move_step(2),
                opposite(direction),
                steps as nat,
            )
        } else if settings.movement_steps > 1 {
            first + movement_group(groups, spread, 1) + dispersion_group(
                groups,
                spread.with_move_step(1),
                opposite(direction),
                steps as nat,
            )
        } else {
            first
        }
    }
}

/// The colour stage: one dispatch of the colour kernel against the main
/// configuration, with no block.
pub open spec fn color_stage(groups: SandPipelineBindGroups) -> Seq<Dispatch> {
    seq![dispatch_of(Kernel::Color, groups.bind_group_main, None)]
}

/// Every pass of a frame, in order, as recorded when every kernel is ready.
pub open spec fn frame_passes(
    groups: SandPipelineBindGroups,
    params: AutomataParams,
    settings: SandAppSettings,
    frame: usize,
) -> Seq<Dispatch> {
    let block = SandPushConstants::at_frame(params, settings.seed, frame);
    draw_stage(groups, block, params.is_drawing) + simulation_stage(groups, block, settings, frame)
        + color_stage(groups)
}

/// The passes of a frame as recorded: those of `frame_passes` whose kernel
/// is ready, in the same order.
pub open spec fn recorded_passes(
    pipelines: SandPipelines,
    groups: SandPipelineBindGroups,
    params: AutomataParams,
    settings: SandAppSettings,
    frame: usize,
) -> Seq<Dispatch> {
    frame_passes(groups, params, settings, frame).filter(pipelines.admits())
}

/// What a frame recorded, with the frame number it was recorded for.
#[derive(Clone, Debug, PartialEq, Eq)]
pub struct FrameRecord {
    pub frame: usize,
    pub pass: Vec<Dispatch>,
}

/// The sequencer of the falling-sand simulation.
#[derive(Clone, Copy, Debug, Default)]
pub struct Sand2DNode;

impl Sand2DNode {
    /// Steps the frame counter, once per frame: by one for a simulated
    /// frame, not at all for a paused one.
    pub fn update(&mut self, params: &AutomataParams, settings: &SandAppSettings) -> (tick:
        FrameTick)
        ensures
            tick.after == next_frame(tick.before, settings.is_paused),
    {
        params.frame.advance(settings.is_paused)
    }

    /// Records the passes of the given frame.
    pub fn record(
        pipelines: &SandPipelines,
        bind_groups: &SandPipelineBindGroups,
        params: &AutomataParams,
        settings: &SandAppSettings,
        frame: usize,
    ) -> (pass: Vec<Dispatch>)
        ensures
            pass@ == recorded_passes(*pipelines, *bind_groups, *params, *settings, frame),
    {
        broadcast use Seq::filter_distributes_over_add;

        let mut pass: Vec<Dispatch> = Vec::new();
        let mut pc = SandPushConstants::for_frame(params, settings.get_current_seed(), frame);
        let ghost block = pc;
        let ghost admits = pipelines.admits();
        let ghost draw = draw_stage(*bind_groups, block, params.is_drawing);
        let ghost simulation = simulation_stage(*bind_groups, block, *settings, frame);
        let ghost color = color_stage(*bind_groups);

        // DRAW
        if params.is_drawing {
            pipelines.dispatch_if_ready(
                &mut pass,
                Kernel::Draw,
                &bind_groups.bind_group_main,
                Some(&pc),
            );
        }
        assert(pass@ =~= draw.filter(admits)) by {
            reveal_with_fuel(Seq::filter, 1);
        }

        if !settings.is_paused {
            let direction = direction_at(frame);
            let steps = settings.dispersion_steps;
            let ghost spread = after_dispersion(block.with_move_step(0), direction, steps);

            pipelines.move_once(&mut pass, bind_groups, &mut pc, 0);
            pipelines.disperse(&mut pass, bind_groups, &mut pc, direction, steps);
            assert(pc == spread);

            let mut should_disperse = false;
            if settings.movement_steps > 1 {
                pipelines.move_once(&mut pass, bind_groups, &mut pc, 1);
                should_disperse = true;
            }
            if settings.movement_steps > 2 {
                assert(movement_group(*bind_groups, pc, 2) == movement_group(
                    *bind_groups,
                    spread,
                    2,
                ));
                pipelines.move_once(&mut pass, bind_groups, &mut pc, 2);
                should_disperse = true;
            }
            if should_disperse {
                pipelines.disperse(&mut pass, bind_groups, &mut pc, 1 - direction, steps);
            }
            assert(pass@ =~= draw.filter(admits) + simulation.filter(admits));
        } else {
            assert(simulation.filter(admits) =~= Seq::<Dispatch>::empty()) by {
                reveal_with_fuel(Seq::filter, 1);
            }
            assert(pass@ =~= draw.filter(admits) + simulation.filter(admits));
        }

        // COLOR
        pipelines.dispatch_if_ready(&mut pass, Kernel::Color, &bind_groups.bind_group_main, None);
        assert(pass@ =~= (draw + simulation + color).filter(admits));
        pass
    }

    /// Records the passes of the frame the counter stands at.
    ///
    /// It always succeeds. Where the frame's binding configurations are
    /// missing the frame is skipped: nothing is recorded, the counter is
    /// not read, and the result carries no record, which is for the caller
    /// to warn of. The next frame is recorded as usual.
    pub fn run(
        &self,
        bind_groups: Option<&SandPipelineBindGroups>,
        pipelines: &SandPipelines,
        params: &AutomataParams,
        settings: &SandAppSettings,
    ) -> (outcome: Result<Option<FrameRecord>, std::convert::Infallible>)
        ensures
            outcome is Ok,
            outcome->Ok_0 is None <==> bind_groups is None,
            outcome->Ok_0 matches Some(record) ==> bind_groups matches Some(groups) && record.pass@
                == recorded_passes(*pipelines, *groups, *params, *settings, record.frame),
    {
        match bind_groups {
            Some(groups) => {
                let frame = params.get_frame();
                let pass = Sand2DNode::record(pipelines, groups, params, settings, frame);
                Ok(Some(FrameRecord { frame, pass }))
            },
            None => Ok(None),
        }
    }
}

} // verus!
