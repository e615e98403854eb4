//! The kernels of the simulation, their readiness, and the recording of
//! their dispatches.
//!
//! A pass is recorded as a value; whoever owns the device replays the record
//! in order. A kernel that is still loading is passed over: its dispatch is
//! left out of the record and everything else is recorded as usual.

use crate::readiness::KernelState;
use crate::sand::bind_groups::{BindGroup, SandPipelineBindGroups};
use crate::sand::constants::{GRID_H, GRID_W};
use crate::sand::push_constants::SandPushConstants;
use vstd::prelude::*;

verus! {

/// A compute kernel of the simulation.
///
/// The `Empty` kernels move cells into vacant neighbours, the `Swap`
/// kernels exchange cells of different weight. They are separate kernels so
/// that no cell takes part in both within one dispatch.
#[derive(Clone, Copy, Debug, PartialEq, Eq, Hash, Structural)]
pub enum Kernel {
    Draw,
    Color,
    RiseSwap,
    RiseEmpty,
    FallSwap,
    FallEmpty,
    SlideDownSwap,
    SlideDownEmpty,
    HorizontalEmpty,
    HorizontalSwap,
}

impl Kernel {
    /// Whether the kernel writes cell buffers. The colour kernel alone does
    /// not: it reads cells and writes the output surface.
    pub open spec fn spec_writes_cells(self) -> bool {
        self != Kernel::Color
    }

    /// Whether the kernel writes cell buffers.
    #[verifier::when_used_as_spec(spec_writes_cells)]
    pub fn writes_cells(self) -> (writes: bool)
        ensures
            writes == self.spec_writes_cells(),
    {
        match self {
            Kernel::Color => false,
            _ => true,
        }
    }
}

/// One recorded compute invocation.
#[derive(Clone, Copy, Debug, PartialEq, Eq)]
pub struct Dispatch {
    pub pipeline: Kernel,
    pub bind_group: BindGroup,
    pub push_constants: Option<SandPushConstants>,
    /// Workgroups along each axis.
    pub workgroups: (u32, u32, u32),
}

/// The dispatch of a kernel over the whole grid.
pub open spec fn dispatch_of(
    pipeline: Kernel,
    bind_group: BindGroup,
    push_constants: Option<SandPushConstants>,
) -> Dispatch {
    Dispatch { pipeline, bind_group, push_constants, workgroups: (GRID_W, GRID_H, 1u32) }
}

/// The six dispatches of a movement group: fall, rise, slide, each first
/// into vacant cells against the main configuration, then by exchange
/// against the swapped one. Only the slide kernels read the block.
pub open spec fn movement_group(
    groups: SandPipelineBindGroups,
    block: SandPushConstants,
    move_step: u32,
) -> Seq<Dispatch> {
    let block = block.with_move_step(move_step);
    seq![
        dispatch_of(Kernel::FallEmpty, groups.bind_group_main, None),
        dispatch_of(Kernel::FallSwap, groups.bind_group_swap, None),
        dispatch_of(Kernel::RiseEmpty, groups.bind_group_main, None),
        dispatch_of(Kernel::RiseSwap, groups.bind_group_swap, None),
        dispatch_of(Kernel::SlideDownEmpty, groups.bind_group_main, Some(block)),
        dispatch_of(Kernel::SlideDownSwap, groups.bind_group_swap, Some(block)),
    ]
}

/// The dispatches of a dispersion group: for each step in turn, the
/// horizontal move into vacant cells against the main configuration, then
/// the horizontal exchange against the swapped one, both with the group's
/// direction and the step's number.
pub open spec fn dispersion_group(
    groups: SandPipelineBindGroups,
    block: SandPushConstants,
    direction: u32,
    steps: nat,
) -> Seq<Dispatch> {
    Seq::new(
        2 * steps,
        |i: int|
            if i % 2 == 0 {
                dispatch_of(
                    Kernel::HorizontalEmpty,
                    groups.bind_group_main,
                    Some(block.with_dispersion(direction, (i / 2) as u32)),
                )
            } else {
                dispatch_of(
                    Kernel::HorizontalSwap,
                    groups.bind_group_swap,
                    Some(block.with_dispersion(direction, (i / 2) as u32)),
                )
            },
    )
}

/// The block as a dispersion group leaves it: with the group's direction
/// and the number of its last step.
pub open spec fn after_dispersion(block: SandPushConstants, direction: u32, steps: u32)
    -> SandPushConstants {
    if steps == 0 {
        block.with_direction(direction)
    } else {
        block.with_dispersion(direction, (steps - 1) as u32)
    }
}

/// The kernels of the simulation, each with its readiness.
///
/// A kernel's state changes only through `poll`, so a kernel that was ready
/// once is ready ever after.
#[derive(Clone, Copy, Debug, PartialEq, Eq)]
pub struct SandPipelines {
    draw_pipeline: KernelState,
    color_pipeline: KernelState,
    rise_swap_pipeline: KernelState,
    rise_empty_pipeline: KernelState,
    fall_swap_pipeline: KernelState,
    fall_empty_pipeline: KernelState,
    slide_down_swap_pipeline: KernelState,
    slide_down_empty_pipeline: KernelState,
    horizontal_empty_pipeline: KernelState,
    horizontal_swap_pipeline: KernelState,
}

impl SandPipelines {
    /// The readiness of a kernel.
    pub closed spec fn spec_state(&self, kernel: Kernel) -> KernelState {
        match kernel {
            Kernel::Draw => self.draw_pipeline,
            Kernel::Color => self.color_pipeline,
            Kernel::RiseSwap => self.rise_swap_pipeline,
            Kernel::RiseEmpty => self.rise_empty_pipeline,
            Kernel::FallSwap => self.fall_swap_pipeline,
            Kernel::FallEmpty => self.fall_empty_pipeline,
            Kernel::SlideDownSwap => self.slide_down_swap_pipeline,
            Kernel::SlideDownEmpty => self.slide_down_empty_pipeline,
            Kernel::HorizontalEmpty => self.horizontal_empty_pipeline,
            Kernel::HorizontalSwap => self.horizontal_swap_pipeline,
        }
    }

    /// Whether a kernel can be dispatched.
    pub open spec fn spec_is_ready(&self, kernel: Kernel) -> bool {
        self.spec_state(kernel) == KernelState::Ready
    }

    /// The dispatches that can be recorded: those of ready kernels.
    pub open spec fn admits(self) -> spec_fn(Dispatch) -> bool {
        |dispatch: Dispatch| self.spec_is_ready(dispatch.pipeline)
    }

    /// Whether every kernel can be dispatched.
    pub open spec fn all_ready(self) -> bool {
        forall|kernel: Kernel| self.spec_is_ready(kernel)
    }

    /// The kernels as queued at launch: all loading.
    pub fn new() -> (pipelines: SandPipelines)
        ensures
            forall|kernel: Kernel| pipelines.spec_state(kernel) == KernelState::Loading,
    {
        SandPipelines {
            draw_pipeline: KernelState::Loading,
            color_pipeline: KernelState::Loading,
            rise_swap_pipeline: KernelState::Loading,
            rise_empty_pipeline: KernelState::Loading,
            fall_swap_pipeline: KernelState::Loading,
            fall_empty_pipeline: KernelState::Loading,
            slide_down_swap_pipeline: KernelState::Loading,
            slide_down_empty_pipeline: KernelState::Loading,
            horizontal_empty_pipeline: KernelState::Loading,
            horizontal_swap_pipeline: KernelState::Loading,
        }
    }

    /// The readiness of a kernel.
    #[verifier::when_used_as_spec(spec_state)]
    pub fn state(&self, kernel: Kernel) -> (state: KernelState)
        ensures
            state == self.spec_state(kernel),
    {
        match kernel {
            Kernel::Draw => self.draw_pipeline,
            Kernel::Color => self.color_pipeline,
            Kernel::RiseSwap => self.rise_swap_pipeline,
            Kernel::RiseEmpty => self.rise_empty_pipeline,
            Kernel::FallSwap => self.fall_swap_pipeline,
            Kernel::FallEmpty => self.fall_empty_pipeline,
            Kernel::SlideDownSwap => self.slide_down_swap_pipeline,
            Kernel::SlideDownEmpty => self.slide_down_empty_pipeline,
            Kernel::HorizontalEmpty => self.horizontal_empty_pipeline,
            Kernel::HorizontalSwap => self.horizontal_swap_pipeline,
        }
    }

    /// Whether a kernel can be dispatched.
    #[verifier::when_used_as_spec(spec_is_ready)]
    pub fn is_ready(&self, kernel: Kernel) -> (ready: bool)
        ensures
            ready == self.spec_is_ready(kernel),
    {
        self.state(kernel).is_ready()
    }

    /// Takes the repository's report on one kernel. The other kernels keep
    /// their state.
    pub fn poll(&mut self, kernel: Kernel, compiled: bool)
        ensures
            final(self).spec_state(kernel) == old(self).spec_state(kernel).after_poll(compiled),
            forall|other: Kernel|
                other != kernel ==> final(self).spec_state(other) == old(self).spec_state(other),
    {
        let next = self.state(kernel).poll(compiled);
        match kernel {
            Kernel::Draw => self.draw_pipeline = next,
            Kernel::Color => self.color_pipeline = next,
            Kernel::RiseSwap => self.rise_swap_pipeline = next,
            Kernel::RiseEmpty => self.rise_empty_pipeline = next,
            Kernel::FallSwap => self.fall_swap_pipeline = next,
            Kernel::FallEmpty => self.fall_empty_pipeline = next,
            Kernel::SlideDownSwap => self.slide_down_swap_pipeline = next,
            Kernel::SlideDownEmpty => self.slide_down_empty_pipeline = next,
            Kernel::HorizontalEmpty => self.horizontal_empty_pipeline = next,
            Kernel::HorizontalSwap => self.horizontal_swap_pipeline = next,
        }
    }

    /// Records one dispatch over the whole grid.
    pub fn dispatch(
        pass: &mut Vec<Dispatch>,
        pipeline: Kernel,
        bind_group: &BindGroup,
        push_constants: Option<&SandPushConstants>,
    )
        ensures
            final(pass)@ == old(pass)@.push(
                dispatch_of(
                    pipeline,
                    *bind_group,
                    match push_constants {
                        Some(block) => Some(*block),
                        None => None,
                    },
                ),
            ),
    {
        let push_constants = match push_constants {
            Some(block) => Some(*block),
            None => None,
        };
        pass.push(
            Dispatch {
                pipeline,
                bind_group: *bind_group,
                push_constants,
                workgroups: (GRID_W, GRID_H, 1),
            },
        );
    }

    /// Records one dispatch if its kernel is ready, and nothing otherwise.
    pub fn dispatch_if_ready(
        &self,
        pass: &mut Vec<Dispatch>,
        pipeline: Kernel,
        bind_group: &BindGroup,
        push_constants: Option<&SandPushConstants>,
    )
        ensures
            final(pass)@ == old(pass)@ + seq![
                dispatch_of(
                    pipeline,
                    *bind_group,
                    match push_constants {
                        Some(block) => Some(*block),
                        None => None,
                    },
                ),
            ].filter(self.admits()),
    {
        proof {
            filter_one(
                dispatch_of(
                    pipeline,
                    *bind_group,
                    match push_constants {
                        Some(block) => Some(*block),
                        None => None,
                    },
                ),
                self.admits(),
            );
        }
        if self.is_ready(pipeline) {
            SandPipelines::dispatch(pass, pipeline, bind_group, push_constants);
            assert(pass@ =~= old(pass)@ + seq![
                dispatch_of(
                    pipeline,
                    *bind_group,
                    match push_constants {
                        Some(block) => Some(*block),
                        None => None,
                    },
                ),
            ]);
        } else {
            assert(pass@ =~= old(pass)@ + Seq::<Dispatch>::empty());
        }
    }

    /// Records a movement group with the given step number, leaving out
    /// the dispatches of kernels that are not ready.
    pub fn move_once(
        &self,
        pass: &mut Vec<Dispatch>,
        bind_groups: &SandPipelineBindGroups,
        push_constants: &mut SandPushConstants,
        move_step: u32,
    )
        ensures
            final(pass)@ == old(pass)@ + movement_group(
                *bind_groups,
                *old(push_constants),
                move_step,
            ).filter(self.admits()),
            *final(push_constants) == old(push_constants).with_move_step(move_step),
    {
        broadcast use Seq::filter_distributes_over_add;

        push_constants.move_step = move_step;

        // Fall
        self.dispatch_if_ready(pass, Kernel::FallEmpty, &bind_groups.bind_group_main, None);
        self.dispatch_if_ready(pass, Kernel::FallSwap, &bind_groups.bind_group_swap, None);

        // Rise
        self.dispatch_if_ready(pass, Kernel::RiseEmpty, &bind_groups.bind_group_main, None);
        self.dispatch_if_ready(pass, Kernel::RiseSwap, &bind_groups.bind_group_swap, None);

        // Slide
        self.dispatch_if_ready(
            pass,
            Kernel::SlideDownEmpty,
            &bind_groups.bind_group_main,
            Some(push_constants),
        );
        self.dispatch_if_ready(
            pass,
            Kernel::SlideDownSwap,
            &bind_groups.bind_group_swap,
            Some(push_constants),
        );

        proof {
            let block = old(push_constants).with_move_step(move_step);
            let d0 = seq![dispatch_of(Kernel::FallEmpty, bind_groups.bind_group_main, None)];
            let d1 = seq![dispatch_of(Kernel::FallSwap, bind_groups.bind_group_swap, None)];
            let d2 = seq![dispatch_of(Kernel::RiseEmpty, bind_groups.bind_group_main, None)];
            let d3 = seq![dispatch_of(Kernel::RiseSwap, bind_groups.bind_group_swap, None)];
            let d4 = seq![
                dispatch_of(Kernel::SlideDownEmpty, bind_groups.bind_group_main, Some(block)),
            ];
            let d5 = seq![
                dispatch_of(Kernel::SlideDownSwap, bind_groups.bind_group_swap, Some(block)),
            ];
            let group = movement_group(*bind_groups, *old(push_constants), move_step);
            assert(group =~= d0 + d1 + d2 + d3 + d4 + d5);
            let admits = self.admits();
            assert(pass@ =~= old(pass)@ + (d0.filter(admits) + d1.filter(admits) + d2.filter(
                admits,
            ) + d3.filter(admits) + d4.filter(admits) + d5.filter(admits)));
        }
    }

    /// Records a dispersion group with the given direction and number of
    /// steps, leaving out the dispatches of kernels that are not ready.
    pub fn disperse(
        &self,
        pass: &mut Vec<Dispatch>,
        bind_groups: &SandPipelineBindGroups,
        push_constants: &mut SandPushConstants,
        direction: u32,
        dispersion_steps: u32,
    )
        ensures
            final(pass)@ == old(pass)@ + dispersion_group(
                *bind_groups,
                *old(push_constants),
                direction,
                dispersion_steps as nat,
            ).filter(self.admits()),
            *final(push_constants) == after_dispersion(
                *old(push_constants),
                direction,
                dispersion_steps,
            ),
    {
        broadcast use Seq::filter_distributes_over_add;

        push_constants.dispersion_dir = direction;
        assert(dispersion_group(*bind_groups, *old(push_constants), direction, 0)
            =~= Seq::<Dispatch>::empty());
        assert(pass@ =~= old(pass)@ + Seq::<Dispatch>::empty().filter(self.admits()));

        let mut dispersion_step: u32 = 0;
        while dispersion_step < dispersion_steps
            invariant
                dispersion_step <= dispersion_steps,
                pass@ == old(pass)@ + dispersion_group(
                    *bind_groups,
                    *old(push_constants),
                    direction,
                    dispersion_step as nat,
                ).filter(self.admits()),
                *push_constants == after_dispersion(
                    *old(push_constants),
                    direction,
                    dispersion_step,
                ),
            decreases dispersion_steps - dispersion_step,
        {
            let ghost before = pass@;
            push_constants.dispersion_step = dispersion_step;
            assert(*push_constants == old(push_constants).with_dispersion(
                direction,
                dispersion_step,
            ));

            self.dispatch_if_ready(
                pass,
                Kernel::HorizontalEmpty,
                &bind_groups.bind_group_main,
                Some(push_constants),
            );
            self.dispatch_if_ready(
                pass,
                Kernel::HorizontalSwap,
                &bind_groups.bind_group_swap,
                Some(push_constants),
            );

            proof {
                let block = old(push_constants).with_dispersion(direction, dispersion_step);
                let empty = seq![
                    dispatch_of(Kernel::HorizontalEmpty, bind_groups.bind_group_main, Some(block)),
                ];
                let swap = seq![
                    dispatch_of(Kernel::HorizontalSwap, bind_groups.bind_group_swap, Some(block)),
                ];
                let done = dispersion_group(
                    *bind_groups,
                    *old(push_constants),
                    direction,
                    dispersion_step as nat,
                );
                let next = dispersion_group(
                    *bind_groups,
                    *old(push_constants),
                    direction,
                    (dispersion_step + 1) as nat,
                );
                assert(next =~= done + empty + swap);
                let admits = self.admits();
                assert(pass@ =~= old(pass)@ + (done.filter(admits) + empty.filter(admits)
                    + swap.filter(admits)));
            }
            dispersion_step += 1;
        }
    }
}

/// Filtering a single dispatch keeps it or leaves nothing.
pub proof fn filter_one(dispatch: Dispatch, admits: spec_fn(Dispatch) -> bool)
    ensures
        seq![dispatch].filter(admits) == if admits(dispatch) {
            seq![dispatch]
        } else {
            Seq::<Dispatch>::empty()
        },
{
    reveal_with_fuel(Seq::filter, 2);
    assert(seq![dispatch].drop_last() =~= Seq::<Dispatch>::empty());
    assert(Seq::<Dispatch>::empty().push(dispatch) =~= seq![dispatch]);
}

} // verus!
