use falling_sand::sand::bind_groups::{BindGroup, SandPipelineBindGroups, Side};
use falling_sand::sand::input::AutomataParams;
use falling_sand::sand::node::{direction_at, Sand2DNode};
use falling_sand::sand::pipeline::{Dispatch, Kernel, SandPipelines};
use falling_sand::sand::push_constants::SandPushConstants;
use falling_sand::sand::settings::SandAppSettings;
use falling_sand::buffers::{BufferId, SurfaceId};
use falling_sand::readiness::KernelState;
use falling_sand::scalar::FloatBits;

const KERNELS: [Kernel; 10] = [
    Kernel::Draw,
    Kernel::Color,
    Kernel::RiseSwap,
    Kernel::RiseEmpty,
    Kernel::FallSwap,
    Kernel::FallEmpty,
    Kernel::SlideDownSwap,
    Kernel::SlideDownEmpty,
    Kernel::HorizontalEmpty,
    Kernel::HorizontalSwap,
];

fn all_ready() -> SandPipelines {
    let mut pipelines = SandPipelines::new();
    for kernel in KERNELS {
        pipelines.poll(kernel, true);
    }
    pipelines
}

fn kernels_of(pass: &[Dispatch]) -> Vec<Kernel> {
    pass.iter().map(|dispatch| dispatch.pipeline).collect()
}

fn settings(movement_steps: u32, dispersion_steps: u32, is_paused: bool) -> SandAppSettings {
    SandAppSettings {
        seed: FloatBits(0x3F00_0000),
        is_paused,
        movement_steps,
        dispersion_steps,
        print_performance: false,
    }
}

fn drawing() -> AutomataParams {
    AutomataParams { is_drawing: true, ..AutomataParams::default() }
}

#[test]
fn full_frame_issues_sixty_dispatches_of_ninety_by_ninety() {
    let groups = SandPipelineBindGroups::for_frame(0, SurfaceId(7));
    let pass = Sand2DNode::record(&all_ready(), &groups, &drawing(), &settings(3, 10, false), 0);
    assert_eq!(pass.len(), 60);
    for dispatch in &pass {
        assert_eq!(dispatch.workgroups, (90, 90, 1));
    }
    let kernels = kernels_of(&pass);
    assert_eq!(kernels[0], Kernel::Draw);
    assert_eq!(kernels[59], Kernel::Color);
    let movement = kernels.iter().filter(|k| {
        matches!(
            k,
            Kernel::FallEmpty
                | Kernel::FallSwap
                | Kernel::RiseEmpty
                | Kernel::RiseSwap
                | Kernel::SlideDownEmpty
                | Kernel::SlideDownSwap
        )
    });
    assert_eq!(movement.count(), 18);
    let dispersion = kernels
        .iter()
        .filter(|k| matches!(k, Kernel::HorizontalEmpty | Kernel::HorizontalSwap));
    assert_eq!(dispersion.count(), 40);
}

#[test]
fn movement_group_runs_fall_rise_slide_each_empty_then_swap() {
    let groups = SandPipelineBindGroups::for_frame(0, SurfaceId(7));
    let mut pass = Vec::new();
    let mut block = SandPushConstants::default();
    block.dispersion_step = 4;
    all_ready().move_once(&mut pass, &groups, &mut block, 2);
    assert_eq!(
        kernels_of(&pass),
        vec![
            Kernel::FallEmpty,
            Kernel::FallSwap,
            Kernel::RiseEmpty,
            Kernel::RiseSwap,
            Kernel::SlideDownEmpty,
            Kernel::SlideDownSwap,
        ]
    );
    for (i, dispatch) in pass.iter().enumerate() {
        let expected = if i % 2 == 0 { groups.bind_group_main } else { groups.bind_group_swap };
        assert_eq!(dispatch.bind_group, expected);
    }
    assert_eq!(block.move_step, 2);
    for dispatch in &pass[..4] {
        assert_eq!(dispatch.push_constants, None);
    }
    let slide = SandPushConstants { move_step: 2, dispersion_step: 4, ..SandPushConstants::default() };
    assert_eq!(pass[4].push_constants, Some(slide));
    assert_eq!(pass[5].push_constants, Some(slide));
}

#[test]
fn dispersion_group_counts_its_steps() {
    let groups = SandPipelineBindGroups::for_frame(1, SurfaceId(7));
    let mut pass = Vec::new();
    let mut block = SandPushConstants::default();
    all_ready().disperse(&mut pass, &groups, &mut block, 1, 3);
    assert_eq!(pass.len(), 6);
    for (i, dispatch) in pass.iter().enumerate() {
        let block = dispatch.push_constants.unwrap();
        assert_eq!(block.dispersion_dir, 1);
        assert_eq!(block.dispersion_step, (i / 2) as u32);
        if i % 2 == 0 {
            assert_eq!(dispatch.pipeline, Kernel::HorizontalEmpty);
            assert_eq!(dispatch.bind_group, groups.bind_group_main);
        } else {
            assert_eq!(dispatch.pipeline, Kernel::HorizontalSwap);
            assert_eq!(dispatch.bind_group, groups.bind_group_swap);
        }
    }
    assert_eq!(block.dispersion_dir, 1);
    assert_eq!(block.dispersion_step, 2);
}

#[test]
fn dispersion_group_of_no_steps_sets_only_the_direction() {
    let groups = SandPipelineBindGroups::for_frame(1, SurfaceId(7));
    let mut pass = Vec::new();
    let mut block = SandPushConstants { dispersion_step: 9, ..SandPushConstants::default() };
    all_ready().disperse(&mut pass, &groups, &mut block, 1, 0);
    assert!(pass.is_empty());
    assert_eq!(block.dispersion_dir, 1);
    assert_eq!(block.dispersion_step, 9);
}

fn directions(pass: &[Dispatch]) -> Vec<u32> {
    pass.iter()
        .filter(|d| matches!(d.pipeline, Kernel::HorizontalEmpty | Kernel::HorizontalSwap))
        .map(|d| d.push_constants.unwrap().dispersion_dir)
        .collect()
}

#[test]
fn first_dispersion_follows_parity_and_second_opposes_it() {
    let pipelines = all_ready();
    let params = AutomataParams::default();
    let even = SandPipelineBindGroups::for_frame(4, SurfaceId(7));
    let pass = Sand2DNode::record(&pipelines, &even, &params, &settings(2, 2, false), 4);
    assert_eq!(directions(&pass), vec![0, 0, 0, 0, 1, 1, 1, 1]);
    let odd = SandPipelineBindGroups::for_frame(5, SurfaceId(7));
    let pass = Sand2DNode::record(&pipelines, &odd, &params, &settings(2, 2, false), 5);
    assert_eq!(directions(&pass), vec![1, 1, 1, 1, 0, 0, 0, 0]);
    assert_eq!(direction_at(4), 0);
    assert_eq!(direction_at(5), 1);
}

#[test]
fn single_movement_step_disperses_once() {
    let groups = SandPipelineBindGroups::for_frame(3, SurfaceId(7));
    let params = AutomataParams::default();
    let pass = Sand2DNode::record(&all_ready(), &groups, &params, &settings(1, 10, false), 3);
    assert_eq!(pass.len(), 6 + 20 + 1);
    assert_eq!(directions(&pass), vec![1; 20]);
}

#[test]
fn two_movement_steps_disperse_twice() {
    let groups = SandPipelineBindGroups::for_frame(3, SurfaceId(7));
    let params = AutomataParams::default();
    let pass = Sand2DNode::record(&all_ready(), &groups, &params, &settings(2, 10, false), 3);
    assert_eq!(pass.len(), 12 + 40 + 1);
}

#[test]
fn later_groups_see_the_block_as_earlier_ones_left_it() {
    let groups = SandPipelineBindGroups::for_frame(0, SurfaceId(7));
    let params = AutomataParams::default();
    let pass = Sand2DNode::record(&all_ready(), &groups, &params, &settings(3, 2, false), 0);
    // draw is up: 6 movement, 4 dispersion, 6 movement, 6 movement, 4 dispersion, colour
    assert_eq!(pass.len(), 27);
    let slide = |i: usize| pass[i].push_constants.unwrap();
    assert_eq!((slide(4).move_step, slide(4).dispersion_dir, slide(4).dispersion_step), (0, 0, 0));
    assert_eq!((slide(14).move_step, slide(14).dispersion_dir, slide(14).dispersion_step), (1, 0, 1));
    assert_eq!((slide(20).move_step, slide(20).dispersion_dir, slide(20).dispersion_step), (2, 0, 1));
    assert_eq!((slide(22).move_step, slide(22).dispersion_dir, slide(22).dispersion_step), (2, 1, 0));
    assert_eq!((slide(25).move_step, slide(25).dispersion_dir, slide(25).dispersion_step), (2, 1, 1));
}

#[test]
fn paused_frame_draws_and_colours_only() {
    let groups = SandPipelineBindGroups::for_frame(8, SurfaceId(7));
    let pass = Sand2DNode::record(&all_ready(), &groups, &drawing(), &settings(3, 10, true), 8);
    assert_eq!(kernels_of(&pass), vec![Kernel::Draw, Kernel::Color]);
    let lifted = AutomataParams::default();
    let pass = Sand2DNode::record(&all_ready(), &groups, &lifted, &settings(3, 10, true), 8);
    assert_eq!(kernels_of(&pass), vec![Kernel::Color]);
    assert!(!pass[0].pipeline.writes_cells());
}

#[test]
fn colour_pass_is_the_same_in_every_frame() {
    let groups = SandPipelineBindGroups::for_frame(2, SurfaceId(7));
    let one = Sand2DNode::record(&all_ready(), &groups, &drawing(), &settings(3, 10, false), 2);
    let two = Sand2DNode::record(&all_ready(), &groups, &drawing(), &settings(1, 1, true), 2);
    let colour = Dispatch {
        pipeline: Kernel::Color,
        bind_group: groups.bind_group_main,
        push_constants: None,
        workgroups: (90, 90, 1),
    };
    assert_eq!(one.last(), Some(&colour));
    assert_eq!(two.last(), Some(&colour));
}

#[test]
fn loading_kernels_are_passed_over_and_the_rest_recorded() {
    let groups = SandPipelineBindGroups::for_frame(0, SurfaceId(7));
    let mut pipelines = SandPipelines::new();
    let none = Sand2DNode::record(&pipelines, &groups, &drawing(), &settings(3, 10, false), 0);
    assert!(none.is_empty());

    pipelines.poll(Kernel::Color, true);
    let only_colour =
        Sand2DNode::record(&pipelines, &groups, &drawing(), &settings(3, 10, false), 0);
    assert_eq!(kernels_of(&only_colour), vec![Kernel::Color]);

    let mut pipelines = SandPipelines::new();
    for kernel in KERNELS {
        pipelines.poll(kernel, kernel != Kernel::Color && kernel != Kernel::FallSwap);
    }
    let pass = Sand2DNode::record(&pipelines, &groups, &drawing(), &settings(3, 10, false), 0);
    assert_eq!(pass.len(), 60 - 1 - 3);
    assert!(pass.iter().all(|d| d.pipeline != Kernel::Color && d.pipeline != Kernel::FallSwap));
    assert_eq!(pass[0].pipeline, Kernel::Draw);
    assert_eq!(pass[1].pipeline, Kernel::FallEmpty);
    assert_eq!(pass[2].pipeline, Kernel::RiseEmpty);
}

#[test]
fn stroke_runs_from_the_pointer_to_where_it_was() {
    let groups = SandPipelineBindGroups::for_frame(6, SurfaceId(7));
    let mut params = drawing();
    params.mouse_pos.x = FloatBits(0x4120_0000);
    params.mouse_pos.y = FloatBits(0x41A0_0000);
    params.prev_mouse_pos.x = FloatBits(0x4040_0000);
    params.use_square_brush = true;
    let pass = Sand2DNode::record(&all_ready(), &groups, &params, &settings(3, 10, true), 6);
    let block = pass[0].push_constants.unwrap();
    assert_eq!(pass[0].bind_group, groups.bind_group_main);
    assert_eq!(block.draw_start, params.mouse_pos);
    assert_eq!(block.draw_end, params.prev_mouse_pos);
    assert_eq!(block.draw_radius, FloatBits(0x4080_0000));
    assert_eq!(block.draw_square, 1);
    assert_eq!(block.sim_step, 6);
    assert_eq!(block.seed, FloatBits(0x3F00_0000));
    assert_eq!(block.draw_matter, 0);
    assert_eq!(block.matter, falling_sand::sand::matter::Matter::sand());
    assert_eq!((block.move_step, block.dispersion_dir, block.dispersion_step), (0, 0, 0));
}

#[test]
fn frame_number_reaches_kernels_by_its_low_word() {
    let params = AutomataParams::default();
    let frame = 0x1_0000_0005u64 as usize;
    let block = SandPushConstants::for_frame(&params, FloatBits(0), frame);
    assert_eq!(block.sim_step, frame as u32);
    let block = SandPushConstants::for_frame(&params, FloatBits(0), usize::MAX);
    assert_eq!(block.sim_step, u32::MAX);
}

#[test]
fn missing_bind_groups_skip_the_frame() {
    let params = drawing();
    let mut node = Sand2DNode;
    let running = settings(3, 10, false);
    node.update(&params, &running);
    let outcome = node.run(None, &all_ready(), &params, &running);
    assert_eq!(outcome, Ok(None));
    assert_eq!(params.get_frame(), 1);
    assert!(params.is_drawing);

    // the next frame is recorded as usual
    node.update(&params, &running);
    let groups = SandPipelineBindGroups::for_frame(2, SurfaceId(1));
    let record = node.run(Some(&groups), &all_ready(), &params, &running).unwrap().unwrap();
    assert_eq!(record.frame, 2);
    assert_eq!(record.pass.len(), 60);
}

#[test]
fn run_succeeds_with_a_record_whatever_is_ready() {
    let params = AutomataParams::default();
    let node = Sand2DNode;
    let groups = SandPipelineBindGroups::for_frame(0, SurfaceId(1));
    let outcome = node.run(Some(&groups), &SandPipelines::new(), &params, &settings(3, 10, false));
    let record = outcome.unwrap().unwrap();
    assert_eq!(record.frame, 0);
    assert!(record.pass.is_empty());
}

#[test]
fn run_records_the_frame_the_counter_stands_at() {
    let params = drawing();
    let mut node = Sand2DNode;
    let running = settings(3, 10, false);
    node.update(&params, &running);
    node.update(&params, &running);
    node.update(&params, &running);
    let groups = SandPipelineBindGroups::for_frame(3, SurfaceId(1));
    let record = node.run(Some(&groups), &all_ready(), &params, &running).unwrap().unwrap();
    assert_eq!(record.frame, 3);
    assert_eq!(record.pass, Sand2DNode::record(&all_ready(), &groups, &params, &running, 3));
    assert_eq!(directions(&record.pass)[0], 1);
}

#[test]
fn update_holds_the_counter_while_paused() {
    let params = AutomataParams::default();
    let mut node = Sand2DNode;
    let tick = node.update(&params, &settings(3, 10, false));
    assert_eq!((tick.before, tick.after), (0, 1));
    let tick = node.update(&params, &settings(3, 10, true));
    assert_eq!((tick.before, tick.after), (1, 1));
    let tick = node.update(&params, &settings(3, 10, true));
    assert_eq!((tick.before, tick.after), (1, 1));
    let tick = node.update(&params, &settings(3, 10, false));
    assert_eq!((tick.before, tick.after), (1, 2));
    assert_eq!(params.get_frame(), 2);
}

#[test]
fn bind_groups_mirror_from_frame_to_frame() {
    let surface = SurfaceId(42);
    let even = SandPipelineBindGroups::for_frame(10, surface);
    assert_eq!(
        even.bind_group_main,
        BindGroup { binding0: BufferId::A, binding1: BufferId::B, binding2: surface }
    );
    assert_eq!(
        even.bind_group_swap,
        BindGroup { binding0: BufferId::B, binding1: BufferId::A, binding2: surface }
    );
    let odd = SandPipelineBindGroups::for_frame(11, surface);
    assert_eq!(odd.bind_group_main, even.bind_group_swap);
    assert_eq!(odd.bind_group_swap, even.bind_group_main);
}

#[test]
fn queued_bind_groups_belong_to_the_counters_frame() {
    let params = AutomataParams::default();
    params.frame.increment();
    let queued = falling_sand::sand::bind_groups::queue_bind_groups(&params, SurfaceId(3));
    assert_eq!(queued.frame, 1);
    assert_eq!(queued.groups, SandPipelineBindGroups::for_frame(1, SurfaceId(3)));
    assert_eq!(queued.groups.bind_group_main.binding0, BufferId::B);
}

#[test]
fn every_dispatch_of_a_frame_takes_one_side() {
    let groups = SandPipelineBindGroups::for_frame(9, SurfaceId(7));
    let pass = Sand2DNode::record(&all_ready(), &groups, &drawing(), &settings(3, 10, false), 9);
    for dispatch in &pass {
        let swapped = matches!(
            dispatch.pipeline,
            Kernel::FallSwap | Kernel::RiseSwap | Kernel::SlideDownSwap | Kernel::HorizontalSwap
        );
        let expected = if swapped { Side::Swap } else { Side::Main };
        assert_eq!(groups.side_of(&dispatch.bind_group), Some(expected));
    }
    let other = SandPipelineBindGroups::for_frame(9, SurfaceId(8));
    assert_eq!(groups.side_of(&other.bind_group_main), None);
    assert_eq!(groups.side_of(&groups.bind_group_swap), Some(Side::Swap));
}

#[test]
fn stroke_repeated_while_paused_is_recorded_alike() {
    let params = drawing();
    let mut node = Sand2DNode;
    let paused = settings(3, 10, true);
    node.update(&params, &settings(3, 10, false));
    node.update(&params, &paused);
    let first = falling_sand::sand::bind_groups::queue_bind_groups(&params, SurfaceId(2));
    let one = node.run(Some(&first.groups), &all_ready(), &params, &paused).unwrap().unwrap();
    node.update(&params, &paused);
    let second = falling_sand::sand::bind_groups::queue_bind_groups(&params, SurfaceId(2));
    let later = SandAppSettings { seed: FloatBits(0x4000_0000), ..paused };
    let two = node.run(Some(&second.groups), &all_ready(), &params, &later).unwrap().unwrap();

    assert_eq!(one.frame, 1);
    assert_eq!(two.frame, 1);
    assert_eq!(first.groups, second.groups);
    assert_eq!(kernels_of(&one.pass), vec![Kernel::Draw, Kernel::Color]);
    assert_eq!(kernels_of(&two.pass), vec![Kernel::Draw, Kernel::Color]);
    let stroke = one.pass[0];
    let again = two.pass[0];
    assert_eq!(again.bind_group, stroke.bind_group);
    assert_eq!(
        again.push_constants,
        Some(SandPushConstants { seed: later.seed, ..stroke.push_constants.unwrap() })
    );
    assert_eq!(one.pass[1], two.pass[1]);
}

#[test]
fn tracker_polls_one_kernel_at_a_time_and_never_goes_back() {
    let mut pipelines = SandPipelines::new();
    for kernel in KERNELS {
        assert_eq!(pipelines.state(kernel), KernelState::Loading);
        assert!(!pipelines.is_ready(kernel));
    }
    pipelines.poll(Kernel::SlideDownEmpty, false);
    assert_eq!(pipelines.state(Kernel::SlideDownEmpty), KernelState::Loading);
    pipelines.poll(Kernel::SlideDownEmpty, true);
    for kernel in KERNELS {
        assert_eq!(pipelines.is_ready(kernel), kernel == Kernel::SlideDownEmpty);
    }
    pipelines.poll(Kernel::SlideDownEmpty, false);
    assert_eq!(pipelines.state(Kernel::SlideDownEmpty), KernelState::Ready);
}

#[test]
fn ten_kernels_are_queued_each_once() {
    let queued = Kernel::all();
    assert_eq!(
        queued,
        vec![
            Kernel::FallEmpty,
            Kernel::FallSwap,
            Kernel::SlideDownEmpty,
            Kernel::SlideDownSwap,
            Kernel::HorizontalEmpty,
            Kernel::HorizontalSwap,
            Kernel::RiseEmpty,
            Kernel::RiseSwap,
            Kernel::Draw,
            Kernel::Color,
        ]
    );
    assert_eq!(queued.len(), falling_sand::sand::setup::KERNELS);
    for kernel in KERNELS {
        assert_eq!(queued.iter().filter(|queued| **queued == kernel).count(), 1);
    }
}
