//! What holds of every frame the sequencer records.

use crate::buffers::{BufferRoles, SurfaceId};
use crate::frame::{frame_after, next_frame};
use crate::sand::bind_groups::{SandPipelineBindGroups, Side};
use crate::sand::constants::{GRID_H, GRID_W};
use crate::sand::input::AutomataParams;
use crate::sand::node::{
    color_stage,
    dispersion_direction,
    draw_stage,
    frame_passes,
    opposite,
    recorded_passes,
    simulation_stage,
};
use crate::sand::pipeline::{
    after_dispersion,
    dispatch_of,
    dispersion_group,
    filter_one,
    movement_group,
    Dispatch,
    Kernel,
    SandPipelines,
};
use crate::sand::push_constants::SandPushConstants;
use crate::sand::settings::SandAppSettings;
use vstd::prelude::*;

verus! {

/// How many movement groups a frame runs when it is not paused.
pub open spec fn movement_groups(settings: SandAppSettings) -> nat {
    if settings.movement_steps > 2 {
        3
    } else if settings.movement_steps > 1 {
        2
    } else {
        1
    }
}

/// How many dispersion passes a frame runs when it is not paused: two for
/// each step of its one group, or of its two groups if it moves more than
/// once.
pub open spec fn dispersion_passes(settings: SandAppSettings) -> nat {
    if settings.movement_steps > 1 {
        4 * settings.dispersion_steps as nat
    } else {
        2 * settings.dispersion_steps as nat
    }
}

/// How many passes a frame has when every kernel is ready.
pub open spec fn pass_count(drawing: bool, settings: SandAppSettings) -> nat {
    let draw: nat = if drawing {
        1
    } else {
        0
    };
    let simulation: nat = if settings.is_paused {
        0
    } else {
        6 * movement_groups(settings) + dispersion_passes(settings)
    };
    draw + simulation + 1
}

/// A frame has one pass for the brush if it is down, six for each movement
/// group and two for each dispersion step if it is not paused, and one for
/// the colours.
pub proof fn frame_pass_count(
    groups: SandPipelineBindGroups,
    params: AutomataParams,
    settings: SandAppSettings,
    frame: usize,
)
    ensures
        frame_passes(groups, params, settings, frame).len() == pass_count(
            params.is_drawing,
            settings,
        ),
{
    let block = SandPushConstants::at_frame(params, settings.seed, frame);
    let steps = settings.dispersion_steps as nat;
    assert(draw_stage(groups, block, params.is_drawing).len() == if params.is_drawing {
        1nat
    } else {
        0nat
    });
    assert(color_stage(groups).len() == 1);
    assert(simulation_stage(groups, block, settings, frame).len() == if settings.is_paused {
        0nat
    } else {
        6 * movement_groups(settings) + dispersion_passes(settings)
    }) by {
        assert forall|base: SandPushConstants, step: u32|
            (#[trigger] movement_group(groups, base, step)).len() == 6 by {}
        assert forall|base: SandPushConstants, direction: u32|
            (#[trigger] dispersion_group(groups, base, direction, steps)).len() == 2 * steps by {}
    }
}

/// With step counts in range, a frame records at most sixty dispatches,
/// whichever kernels are ready.
pub proof fn frame_dispatch_bound(
    pipelines: SandPipelines,
    groups: SandPipelineBindGroups,
    params: AutomataParams,
    settings: SandAppSettings,
    frame: usize,
)
    requires
        settings.in_range(),
    ensures
        recorded_passes(pipelines, groups, params, settings, frame).len() <= frame_passes(
            groups,
            params,
            settings,
            frame,
        ).len() <= 60,
{
    frame_pass_count(groups, params, settings, frame);
    frame_passes(groups, params, settings, frame).lemma_filter_len(pipelines.admits());
}

/// Where every element passes the filter, filtering changes nothing.
pub proof fn filter_keeps_all<A>(s: Seq<A>, pred: spec_fn(A) -> bool)
    requires
        forall|i: int| 0 <= i < s.len() ==> pred(#[trigger] s[i]),
    ensures
        s.filter(pred) == s,
    decreases s.len(),
{
    reveal(Seq::filter);
    if s.len() > 0 {
        filter_keeps_all(s.drop_last(), pred);
        assert(s.drop_last().push(s.last()) =~= s);
    }
}

/// With every kernel ready, every pass of the frame is recorded.
pub proof fn ready_kernels_record_every_pass(
    pipelines: SandPipelines,
    groups: SandPipelineBindGroups,
    params: AutomataParams,
    settings: SandAppSettings,
    frame: usize,
)
    requires
        pipelines.all_ready(),
    ensures
        recorded_passes(pipelines, groups, params, settings, frame) == frame_passes(
            groups,
            params,
            settings,
            frame,
        ),
{
    let passes = frame_passes(groups, params, settings, frame);
    let admits = pipelines.admits();
    assert forall|i: int| 0 <= i < passes.len() implies admits(#[trigger] passes[i]) by {
        assert(pipelines.spec_is_ready(passes[i].pipeline));
    }
    filter_keeps_all(passes, admits);
}

/// Every recorded dispatch is one of the frame's passes.
pub proof fn recorded_is_a_pass(
    pipelines: SandPipelines,
    groups: SandPipelineBindGroups,
    params: AutomataParams,
    settings: SandAppSettings,
    frame: usize,
    i: int,
)
    requires
        0 <= i < recorded_passes(pipelines, groups, params, settings, frame).len(),
    ensures
        frame_passes(groups, params, settings, frame).contains(
            recorded_passes(pipelines, groups, params, settings, frame)[i],
        ),
        pipelines.spec_is_ready(
            recorded_passes(pipelines, groups, params, settings, frame)[i].pipeline,
        ),
{
    let passes = frame_passes(groups, params, settings, frame);
    let recorded = recorded_passes(pipelines, groups, params, settings, frame);
    assert(recorded.contains(recorded[i]));
    passes.lemma_filter_contains_rev(pipelines.admits(), recorded[i]);
    passes.lemma_filter_pred(pipelines.admits(), i);
}

/// The pass at a place of a simulation stage that is not paused, found by
/// counting through its groups.
spec fn simulation_pass_at(
    groups: SandPipelineBindGroups,
    block: SandPushConstants,
    settings: SandAppSettings,
    frame: usize,
    i: int,
) -> Dispatch {
    let steps = settings.dispersion_steps as nat;
    let n = 2 * steps as int;
    let direction = dispersion_direction(frame);
    let spread = after_dispersion(block.with_move_step(0), direction, settings.dispersion_steps);
    if i < 6 {
        movement_group(groups, block, 0)[i]
    } else if i < 6 + n {
        dispersion_group(groups, block.with_move_step(0), direction, steps)[i - 6]
    } else if i < 12 + n {
        movement_group(groups, spread, 1)[i - 6 - n]
    } else if settings.movement_steps > 2 {
        if i < 18 + n {
            movement_group(groups, spread, 2)[i - 12 - n]
        } else {
            dispersion_group(groups, spread.with_move_step(2), opposite(direction), steps)[i - 18
                - n]
        }
    } else {
        dispersion_group(groups, spread.with_move_step(1), opposite(direction), steps)[i - 12 - n]
    }
}

/// Counting through the groups of a simulation stage finds its passes.
proof fn simulation_by_index(
    groups: SandPipelineBindGroups,
    block: SandPushConstants,
    settings: SandAppSettings,
    frame: usize,
    i: int,
)
    requires
        0 <= i < simulation_stage(groups, block, settings, frame).len(),
    ensures
        !settings.is_paused,
        simulation_stage(groups, block, settings, frame).len() == 6 * movement_groups(settings)
            + dispersion_passes(settings),
        simulation_stage(groups, block, settings, frame)[i] == simulation_pass_at(
            groups,
            block,
            settings,
            frame,
            i,
        ),
{
    let steps = settings.dispersion_steps as nat;
    let n = 2 * steps as int;
    let direction = dispersion_direction(frame);
    let spread = after_dispersion(block.with_move_step(0), direction, settings.dispersion_steps);
    let simulation = simulation_stage(groups, block, settings, frame);
    let move0 = movement_group(groups, block, 0);
    let spread0 = dispersion_group(groups, block.with_move_step(0), direction, steps);
    let move1 = movement_group(groups, spread, 1);
    let move2 = movement_group(groups, spread, 2);
    assert(move0.len() == 6 && move1.len() == 6 && move2.len() == 6);
    assert(spread0.len() == n);
    let first = move0 + spread0;
    if settings.movement_steps > 2 {
        let last = spread.with_move_step(2);
        let spread1 = dispersion_group(groups, last, opposite(direction), steps);
        assert(spread1.len() == n);
        assert(simulation == first + move1 + move2 + spread1);
        if i < 6 {
            assert(simulation[i] == move0[i]);
        } else if i < 6 + n {
            assert(first[i] == spread0[i - 6]);
            assert(simulation[i] == first[i]);
        } else if i < 12 + n {
            assert(simulation[i] == move1[i - 6 - n]);
        } else if i < 18 + n {
            assert(simulation[i] == move2[i - 12 - n]);
        } else {
            assert(simulation[i] == spread1[i - 18 - n]);
        }
    } else if settings.movement_steps > 1 {
        let last = spread.with_move_step(1);
        let spread1 = dispersion_group(groups, last, opposite(direction), steps);
        assert(spread1.len() == n);
        assert(simulation == first + move1 + spread1);
        if i < 6 {
            assert(simulation[i] == move0[i]);
        } else if i < 6 + n {
            assert(first[i] == spread0[i - 6]);
            assert(simulation[i] == first[i]);
        } else if i < 12 + n {
            assert(simulation[i] == move1[i - 6 - n]);
        } else {
            assert(simulation[i] == spread1[i - 12 - n]);
        }
    } else {
        assert(simulation == first);
        if i < 6 {
            assert(first[i] == move0[i]);
        } else {
            assert(first[i] == spread0[i - 6]);
        }
    }
}

/// The passes of a frame are the brush's, if it is down, then those of the
/// simulation stage, then the colour pass.
proof fn frame_by_index(
    groups: SandPipelineBindGroups,
    params: AutomataParams,
    settings: SandAppSettings,
    frame: usize,
    i: int,
)
    requires
        0 <= i < frame_passes(groups, params, settings, frame).len(),
    ensures
        ({
            let block = SandPushConstants::at_frame(params, settings.seed, frame);
            let simulation = simulation_stage(groups, block, settings, frame);
            let passes = frame_passes(groups, params, settings, frame);
            let brush: int = if params.is_drawing {
                1
            } else {
                0
            };
            &&& passes.len() == brush + simulation.len() + 1
            &&& passes[i] == if i < brush {
                dispatch_of(Kernel::Draw, groups.bind_group_main, Some(block))
            } else if i < brush + simulation.len() {
                simulation[i - brush]
            } else {
                dispatch_of(Kernel::Color, groups.bind_group_main, None)
            }
        }),
{
    let block = SandPushConstants::at_frame(params, settings.seed, frame);
    let draw = draw_stage(groups, block, params.is_drawing);
    let simulation = simulation_stage(groups, block, settings, frame);
    let color = color_stage(groups);
    let passes = frame_passes(groups, params, settings, frame);
    assert(passes == draw + simulation + color);
    assert(color.len() == 1);
    if i < draw.len() {
        assert((draw + simulation)[i] == draw[i]);
    } else if i < draw.len() + simulation.len() {
        assert((draw + simulation)[i] == simulation[i - draw.len()]);
    } else {
        assert(passes[i] == color[i - draw.len() - simulation.len()]);
    }
}

/// Whether a kernel belongs to the exchanging half of its pair, which runs
/// against the swapped configuration.
pub open spec fn runs_swapped(kernel: Kernel) -> bool {
    kernel == Kernel::FallSwap || kernel == Kernel::RiseSwap || kernel == Kernel::SlideDownSwap
        || kernel == Kernel::HorizontalSwap
}

/// Whether a block is the frame's block with nothing changed but the
/// per-pass words, and those within their ranges: a movement step of at
/// most 2, a direction of 0 or 1, a dispersion step below the number of
/// steps set (or zero where none is set).
pub open spec fn block_of_frame(
    block: SandPushConstants,
    params: AutomataParams,
    settings: SandAppSettings,
    frame: usize,
) -> bool {
    &&& block == (SandPushConstants {
        move_step: block.move_step,
        dispersion_dir: block.dispersion_dir,
        dispersion_step: block.dispersion_step,
        ..SandPushConstants::at_frame(params, settings.seed, frame)
    })
    &&& block.move_step <= 2
    &&& block.dispersion_dir <= 1
    &&& (block.dispersion_step == 0 || block.dispersion_step < settings.dispersion_steps)
}

/// Whether a dispatch has the shape of a pass of the frame: it covers the
/// grid, an exchanging kernel runs against the swapped configuration and
/// any other against the main one, and it carries a block exactly if its
/// kernel declares one, the frame's block with the per-pass words in range.
pub open spec fn pass_of_frame(
    dispatch: Dispatch,
    groups: SandPipelineBindGroups,
    params: AutomataParams,
    settings: SandAppSettings,
    frame: usize,
) -> bool {
    &&& dispatch.workgroups == (GRID_W, GRID_H, 1u32)
    &&& dispatch.bind_group == if runs_swapped(dispatch.pipeline) {
        groups.bind_group_swap
    } else {
        groups.bind_group_main
    }
    &&& match dispatch.push_constants {
        Some(block) => dispatch.pipeline.declares_block() && block_of_frame(
            block,
            params,
            settings,
            frame,
        ),
        None => !dispatch.pipeline.declares_block(),
    }
}

/// Every pass of a frame has the shape of a pass of that frame.
pub proof fn passes_are_well_formed(
    groups: SandPipelineBindGroups,
    params: AutomataParams,
    settings: SandAppSettings,
    frame: usize,
)
    ensures
        forall|i: int|
            0 <= i < frame_passes(groups, params, settings, frame).len() ==> pass_of_frame(
                #[trigger] frame_passes(groups, params, settings, frame)[i],
                groups,
                params,
                settings,
                frame,
            ),
{
    let block = SandPushConstants::at_frame(params, settings.seed, frame);
    let passes = frame_passes(groups, params, settings, frame);
    let simulation = simulation_stage(groups, block, settings, frame);
    assert(block_of_frame(block, params, settings, frame));
    assert forall|i: int| 0 <= i < passes.len() implies pass_of_frame(
        #[trigger] passes[i],
        groups,
        params,
        settings,
        frame,
    ) by {
        frame_by_index(groups, params, settings, frame, i);
        let brush: int = if params.is_drawing {
            1
        } else {
            0
        };
        if brush <= i < brush + simulation.len() {
            simulation_pass_is_well_formed(groups, params, settings, frame, i - brush);
        }
    }
}

/// Every pass of the simulation stage has the shape of a pass of the
/// frame.
proof fn simulation_pass_is_well_formed(
    groups: SandPipelineBindGroups,
    params: AutomataParams,
    settings: SandAppSettings,
    frame: usize,
    i: int,
)
    requires
        0 <= i < simulation_stage(
            groups,
            SandPushConstants::at_frame(params, settings.seed, frame),
            settings,
            frame,
        ).len(),
    ensures
        pass_of_frame(
            simulation_stage(
                groups,
                SandPushConstants::at_frame(params, settings.seed, frame),
                settings,
                frame,
            )[i],
            groups,
            params,
            settings,
            frame,
        ),
{
    let block = SandPushConstants::at_frame(params, settings.seed, frame);
    let steps = settings.dispersion_steps;
    let n = 2 * steps as int;
    let direction = dispersion_direction(frame);
    let spread = after_dispersion(block.with_move_step(0), direction, steps);
    simulation_by_index(groups, block, settings, frame, i);
    assert(block_of_frame(block, params, settings, frame));
    assert(block_of_frame(block.with_move_step(0), params, settings, frame));
    assert(block_of_frame(spread, params, settings, frame));
    if i < 6 {
        movement_is_well_formed(groups, params, settings, frame, block, 0);
    } else if i < 6 + n {
        dispersion_is_well_formed(
            groups,
            params,
            settings,
            frame,
            block.with_move_step(0),
            direction,
        );
    } else if i < 12 + n {
        movement_is_well_formed(groups, params, settings, frame, spread, 1);
    } else if settings.movement_steps > 2 {
        if i < 18 + n {
            movement_is_well_formed(groups, params, settings, frame, spread, 2);
        } else {
            assert(block_of_frame(spread.with_move_step(2), params, settings, frame));
            dispersion_is_well_formed(
                groups,
                params,
                settings,
                frame,
                spread.with_move_step(2),
                opposite(direction),
            );
        }
    } else {
        assert(block_of_frame(spread.with_move_step(1), params, settings, frame));
        dispersion_is_well_formed(
            groups,
            params,
            settings,
            frame,
            spread.with_move_step(1),
            opposite(direction),
        );
    }
}

/// Every dispatch of a movement group built on a block of the frame has the
/// shape of a pass of that frame.
proof fn movement_is_well_formed(
    groups: SandPipelineBindGroups,
    params: AutomataParams,
    settings: SandAppSettings,
    frame: usize,
    base: SandPushConstants,
    move_step: u32,
)
    requires
        block_of_frame(base, params, settings, frame),
        move_step <= 2,
    ensures
        movement_group(groups, base, move_step).len() == 6,
        forall|i: int|
            0 <= i < 6 ==> pass_of_frame(
                #[trigger] movement_group(groups, base, move_step)[i],
                groups,
                params,
                settings,
                frame,
            ),
{
    assert(block_of_frame(base.with_move_step(move_step), params, settings, frame));
}

/// Every dispatch of a dispersion group built on a block of the frame has
/// the shape of a pass of that frame.
proof fn dispersion_is_well_formed(
    groups: SandPipelineBindGroups,
    params: AutomataParams,
    settings: SandAppSettings,
    frame: usize,
    base: SandPushConstants,
    direction: u32,
)
    requires
        block_of_frame(base, params, settings, frame),
        direction <= 1,
    ensures
        dispersion_group(groups, base, direction, settings.dispersion_steps as nat).len() == 2
            * settings.dispersion_steps,
        forall|i: int|
            0 <= i < 2 * settings.dispersion_steps ==> pass_of_frame(
                #[trigger] dispersion_group(
                    groups,
                    base,
                    direction,
                    settings.dispersion_steps as nat,
                )[i],
                groups,
                params,
                settings,
                frame,
            ),
{
    let steps = settings.dispersion_steps;
    assert forall|i: int| 0 <= i < 2 * steps implies pass_of_frame(
        #[trigger] dispersion_group(groups, base, direction, steps as nat)[i],
        groups,
        params,
        settings,
        frame,
    ) by {
        let block = base.with_dispersion(direction, (i / 2) as u32);
        assert(0 <= i / 2 < steps);
        assert(block_of_frame(block, params, settings, frame));
    }
}

/// Every recorded dispatch runs against one of the frame's two
/// configurations: the swapped one for an exchanging kernel, the main one
/// for any other.
pub proof fn recorded_dispatches_take_a_side(
    pipelines: SandPipelines,
    surface: SurfaceId,
    params: AutomataParams,
    settings: SandAppSettings,
    frame: usize,
)
    ensures
        ({
            let groups = SandPipelineBindGroups::at_frame(frame, surface);
            let recorded = recorded_passes(pipelines, groups, params, settings, frame);
            forall|i: int|
                0 <= i < recorded.len() ==> groups.spec_side_of(
                    &(#[trigger] recorded[i]).bind_group,
                ) == Some(
                    if runs_swapped(recorded[i].pipeline) {
                        Side::Swap
                    } else {
                        Side::Main
                    },
                )
        }),
{
    let groups = SandPipelineBindGroups::at_frame(frame, surface);
    let recorded = recorded_passes(pipelines, groups, params, settings, frame);
    let passes = frame_passes(groups, params, settings, frame);
    passes_are_well_formed(groups, params, settings, frame);
    assert forall|i: int| 0 <= i < recorded.len() implies groups.spec_side_of(
        &(#[trigger] recorded[i]).bind_group,
    ) == Some(
        if runs_swapped(recorded[i].pipeline) {
            Side::Swap
        } else {
            Side::Main
        },
    ) by {
        recorded_is_a_pass(pipelines, groups, params, settings, frame, i);
        let j = choose|j: int| 0 <= j < passes.len() && passes[j] == recorded[i];
        assert(pass_of_frame(passes[j], groups, params, settings, frame));
    }
}

/// Every recorded dispatch covers the whole grid: ninety workgroups along
/// each axis, one deep.
pub proof fn recorded_dispatches_cover_grid(
    pipelines: SandPipelines,
    groups: SandPipelineBindGroups,
    params: AutomataParams,
    settings: SandAppSettings,
    frame: usize,
)
    ensures
        forall|i: int|
            0 <= i < recorded_passes(pipelines, groups, params, settings, frame).len() ==> (
            #[trigger] recorded_passes(pipelines, groups, params, settings, frame)[i]).workgroups
                == (90u32, 90u32, 1u32),
{
    let recorded = recorded_passes(pipelines, groups, params, settings, frame);
    let passes = frame_passes(groups, params, settings, frame);
    passes_are_well_formed(groups, params, settings, frame);
    assert forall|i: int| 0 <= i < recorded.len() implies (#[trigger] recorded[i]).workgroups == (
        90u32,
        90u32,
        1u32,
    ) by {
        recorded_is_a_pass(pipelines, groups, params, settings, frame, i);
        let j = choose|j: int| 0 <= j < passes.len() && passes[j] == recorded[i];
        assert(pass_of_frame(passes[j], groups, params, settings, frame));
    }
}

/// While the simulation is paused, every dispatch a frame records runs the
/// draw kernel or the colour kernel, and with the brush up none runs a
/// kernel that writes cells.
pub proof fn paused_frame_records_brush_and_colour_only(
    pipelines: SandPipelines,
    groups: SandPipelineBindGroups,
    params: AutomataParams,
    settings: SandAppSettings,
    frame: usize,
)
    requires
        settings.is_paused,
    ensures
        forall|i: int|
            0 <= i < recorded_passes(pipelines, groups, params, settings, frame).len() ==> {
                let kernel = (#[trigger] recorded_passes(
                    pipelines,
                    groups,
                    params,
                    settings,
                    frame,
                )[i]).pipeline;
                if params.is_drawing {
                    kernel == Kernel::Draw || kernel == Kernel::Color
                } else {
                    !kernel.spec_writes_cells()
                }
            },
{
    let recorded = recorded_passes(pipelines, groups, params, settings, frame);
    let passes = frame_passes(groups, params, settings, frame);
    assert forall|i: int| 0 <= i < recorded.len() implies {
        let kernel = (#[trigger] recorded[i]).pipeline;
        if params.is_drawing {
            kernel == Kernel::Draw || kernel == Kernel::Color
        } else {
            !kernel.spec_writes_cells()
        }
    } by {
        recorded_is_a_pass(pipelines, groups, params, settings, frame, i);
        let j = choose|j: int| 0 <= j < passes.len() && passes[j] == recorded[i];
        frame_by_index(groups, params, settings, frame, j);
    }
}

/// After a run of paused frames the buffers have the roles they had before
/// it, and the binding configurations are the same.
pub proof fn paused_run_keeps_roles(start: usize, paused: Seq<bool>, surface: SurfaceId)
    requires
        forall|i: int| 0 <= i < paused.len() ==> paused[i],
    ensures
        BufferRoles::at_frame(frame_after(start, paused)) == BufferRoles::at_frame(start),
        SandPipelineBindGroups::at_frame(frame_after(start, paused), surface)
            == SandPipelineBindGroups::at_frame(start, surface),
{
    crate::frame::paused_run_holds_counter(start, paused);
}

/// The first dispersion group of a frame runs in the direction of the
/// frame's parity, and the second, if there is one, in the other: every
/// horizontal pass up to the end of the first group carries the parity as
/// its direction, and every later one carries one minus the parity.
pub proof fn dispersion_follows_parity(
    groups: SandPipelineBindGroups,
    params: AutomataParams,
    settings: SandAppSettings,
    frame: usize,
)
    ensures
        forall|i: int|
            0 <= i < frame_passes(groups, params, settings, frame).len() ==> {
                let pass = #[trigger] frame_passes(groups, params, settings, frame)[i];
                pass.pipeline == Kernel::HorizontalEmpty || pass.pipeline == Kernel::HorizontalSwap
                    ==> pass.push_constants is Some && pass.push_constants->0.dispersion_dir == if i
                    < first_dispersion_end(params.is_drawing, settings) {
                    frame as int % 2
                } else {
                    1 - frame as int % 2
                }
            },
{
    let block = SandPushConstants::at_frame(params, settings.seed, frame);
    let passes = frame_passes(groups, params, settings, frame);
    let simulation = simulation_stage(groups, block, settings, frame);
    assert forall|i: int| 0 <= i < passes.len() implies {
        let pass = #[trigger] passes[i];
        pass.pipeline == Kernel::HorizontalEmpty || pass.pipeline == Kernel::HorizontalSwap
            ==> pass.push_constants is Some && pass.push_constants->0.dispersion_dir == if i
            < first_dispersion_end(params.is_drawing, settings) {
            frame as int % 2
        } else {
            1 - frame as int % 2
        }
    } by {
        frame_by_index(groups, params, settings, frame, i);
        let brush: int = if params.is_drawing {
            1
        } else {
            0
        };
        if brush <= i < brush + simulation.len() {
            simulation_by_index(groups, block, settings, frame, i - brush);
        }
    }
}

/// Where the first dispersion group of a frame ends among its passes: after
/// the brush, if it is down, the first movement group and two passes for
/// each dispersion step.
pub open spec fn first_dispersion_end(drawing: bool, settings: SandAppSettings) -> int {
    (if drawing {
        1int
    } else {
        0int
    }) + 6 + 2 * settings.dispersion_steps
}

/// From one simulated frame to the next the first dispersion group changes
/// direction.
pub proof fn direction_alternates(frame: usize)
    ensures
        dispersion_direction(frame) == frame as int % 2,
        dispersion_direction(next_frame(frame, false)) == opposite(dispersion_direction(frame)),
        dispersion_direction(next_frame(frame, true)) == dispersion_direction(frame),
{
    crate::frame::parity_alternates(frame, false);
}

/// The colour pass takes nothing from the input, the settings or the frame
/// number. While the colour kernel is ready, the last dispatch recorded is
/// the colour kernel against the main configuration, over the whole grid,
/// with no block. No other recorded dispatch runs the colour kernel, so
/// while it is not ready none does.
pub proof fn colour_pass_is_fixed(
    pipelines: SandPipelines,
    groups: SandPipelineBindGroups,
    params: AutomataParams,
    settings: SandAppSettings,
    frame: usize,
)
    ensures
        ({
            let recorded = recorded_passes(pipelines, groups, params, settings, frame);
            let color = dispatch_of(Kernel::Color, groups.bind_group_main, None);
            &&& pipelines.spec_is_ready(Kernel::Color) ==> recorded.len() > 0 && recorded.last()
                == color
            &&& forall|i: int|
                0 <= i < recorded.len() && (#[trigger] recorded[i]).pipeline == Kernel::Color ==> i
                    == recorded.len() - 1 && pipelines.spec_is_ready(Kernel::Color)
        }),
{
    broadcast use Seq::filter_distributes_over_add;

    let recorded = recorded_passes(pipelines, groups, params, settings, frame);
    let admits = pipelines.admits();
    let block = SandPushConstants::at_frame(params, settings.seed, frame);
    let before = draw_stage(groups, block, params.is_drawing) + simulation_stage(
        groups,
        block,
        settings,
        frame,
    );
    let color = dispatch_of(Kernel::Color, groups.bind_group_main, None);
    assert(color_stage(groups) == seq![color]);
    filter_one(color, admits);
    assert forall|i: int| 0 <= i < recorded.len() implies pipelines.spec_is_ready(
        (#[trigger] recorded[i]).pipeline,
    ) by {
        recorded_is_a_pass(pipelines, groups, params, settings, frame, i);
    }
    assert(recorded == before.filter(admits) + seq![color].filter(admits));
    assert forall|i: int| 0 <= i < before.filter(admits).len() implies (#[trigger] before.filter(
        admits,
    )[i]).pipeline != Kernel::Color by {
        let kept = before.filter(admits)[i];
        assert(before.filter(admits).contains(kept));
        before.lemma_filter_contains_rev(admits, kept);
        let j = choose|j: int| 0 <= j < before.len() && before[j] == kept;
        passes_are_well_formed(groups, params, settings, frame);
        assert(frame_passes(groups, params, settings, frame)[j] == before[j]);
        no_color_before_the_end(groups, params, settings, frame, j);
    }
}

/// No pass but the last of a frame runs the colour kernel.
proof fn no_color_before_the_end(
    groups: SandPipelineBindGroups,
    params: AutomataParams,
    settings: SandAppSettings,
    frame: usize,
    i: int,
)
    requires
        0 <= i < frame_passes(groups, params, settings, frame).len() - 1,
    ensures
        frame_passes(groups, params, settings, frame)[i].pipeline != Kernel::Color,
{
    let block = SandPushConstants::at_frame(params, settings.seed, frame);
    let simulation = simulation_stage(groups, block, settings, frame);
    frame_by_index(groups, params, settings, frame, i);
    let brush: int = if params.is_drawing {
        1
    } else {
        0
    };
    if brush <= i {
        simulation_by_index(groups, block, settings, frame, i - brush);
    }
}

/// While the brush is down and the draw kernel is ready, the first
/// dispatch recorded is the stroke: the draw kernel against the main
/// configuration, with the frame's block. The stroke runs from the
/// pointer's position to its previous one, with the radius, shape and
/// substance of the snapshot.
pub proof fn stroke_is_recorded_first(
    pipelines: SandPipelines,
    groups: SandPipelineBindGroups,
    params: AutomataParams,
    settings: SandAppSettings,
    frame: usize,
)
    requires
        params.is_drawing,
        pipelines.spec_is_ready(Kernel::Draw),
    ensures
        recorded_passes(pipelines, groups, params, settings, frame).len() > 0,
        recorded_passes(pipelines, groups, params, settings, frame)[0] == dispatch_of(
            Kernel::Draw,
            groups.bind_group_main,
            Some(SandPushConstants::at_frame(params, settings.seed, frame)),
        ),
{
    broadcast use Seq::filter_distributes_over_add;

    let admits = pipelines.admits();
    let block = SandPushConstants::at_frame(params, settings.seed, frame);
    let stroke = dispatch_of(Kernel::Draw, groups.bind_group_main, Some(block));
    let rest = simulation_stage(groups, block, settings, frame) + color_stage(groups);
    filter_one(stroke, admits);
    assert(frame_passes(groups, params, settings, frame) =~= seq![stroke] + rest);
    assert(recorded_passes(pipelines, groups, params, settings, frame) == seq![stroke].filter(
        admits,
    ) + rest.filter(admits));
}

/// From one paused frame to the next, with the input snapshot unchanged,
/// the stroke is recorded against the same configuration with the same
/// block, but for the seed.
pub proof fn repeated_stroke_differs_only_in_seed(
    pipelines: SandPipelines,
    surface: SurfaceId,
    params: AutomataParams,
    first: SandAppSettings,
    second: SandAppSettings,
    frame: usize,
)
    requires
        params.is_drawing,
        pipelines.spec_is_ready(Kernel::Draw),
        first.is_paused,
    ensures
        ({
            let again = next_frame(frame, first.is_paused);
            let one = recorded_passes(
                pipelines,
                SandPipelineBindGroups::at_frame(frame, surface),
                params,
                first,
                frame,
            )[0];
            let two = recorded_passes(
                pipelines,
                SandPipelineBindGroups::at_frame(again, surface),
                params,
                second,
                again,
            )[0];
            &&& one.pipeline == Kernel::Draw
            &&& two == (Dispatch {
                push_constants: Some(
                    SandPushConstants { seed: second.seed, ..one.push_constants->0 },
                ),
                ..one
            })
        }),
{
    let again = next_frame(frame, first.is_paused);
    stroke_is_recorded_first(
        pipelines,
        SandPipelineBindGroups::at_frame(frame, surface),
        params,
        first,
        frame,
    );
    stroke_is_recorded_first(
        pipelines,
        SandPipelineBindGroups::at_frame(again, surface),
        params,
        second,
        again,
    );
}

} // verus!
