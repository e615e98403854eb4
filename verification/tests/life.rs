use falling_sand::buffers::{BufferId, SurfaceId};
use falling_sand::life::automata::{
    queue_automata_bind_group, AutomataKernel, AutomataNode, AutomataPass, AutomataPipeline,
    AutomataState, AutomataTextureBindGroup,
};
use falling_sand::life::color::{
    queue_color_bind_group, AutomataColorBindGroup, AutomataColorNode, AutomataColorPipeline,
    AutomataColorState, ColorPass,
};
use falling_sand::life::draw::{
    queue_draw_bind_group, AutomataDrawBindGroup, AutomataDrawNode, AutomataDrawPipeline,
    AutomataDrawState, AutomataPushConstants,
};
use falling_sand::life::input::{update_input_state, AutomataParams};
use falling_sand::life::pipeline::{node_edges, PipelineNode};
use falling_sand::life::setup::setup;
use falling_sand::life::utils::{create_image, create_storage_buffer_with_data, create_uniform_buffer};
use falling_sand::pointer::{ButtonState, MouseButton, MouseButtonInput, PointerReport};
use falling_sand::resources::{
    BindGroupLayoutEntry, BindingType, BufferUsages, FilterMode, TextureFormat,
};
use falling_sand::scalar::{CanvasPos, FloatBits};

fn at(x: f32, y: f32) -> CanvasPos {
    CanvasPos { x: FloatBits(x.to_bits()), y: FloatBits(y.to_bits()) }
}

fn image_of(words: &[u32]) -> Vec<u8> {
    words.iter().flat_map(|w| w.to_ne_bytes()).collect()
}

fn stepping_node(params: &AutomataParams) -> AutomataNode {
    let mut node = AutomataNode::default();
    node.update(true, true, params);
    node.update(true, true, params);
    assert_eq!(node.state(), AutomataState::Update);
    node
}

#[test]
fn automata_node_seeds_once_its_kernel_is_compiled_then_steps() {
    let params = AutomataParams::default();
    let mut node = AutomataNode::default();
    assert_eq!(node.state(), AutomataState::Loading);
    assert_eq!(node.update(false, true, &params), None);
    assert_eq!(node.state(), AutomataState::Loading);
    assert_eq!(node.update(true, true, &params), None);
    assert_eq!(node.state(), AutomataState::Init);
    assert_eq!(node.update(true, false, &params), None);
    assert_eq!(node.state(), AutomataState::Init);
    assert_eq!(node.update(false, true, &params), None);
    assert_eq!(node.state(), AutomataState::Update);
    assert_eq!(params.get_frame(), 0);
    let tick = node.update(false, false, &params).unwrap();
    assert_eq!((tick.before, tick.after), (0, 1));
    assert_eq!(node.state(), AutomataState::Update);
    assert_eq!(params.get_frame(), 1);
}

#[test]
fn automata_node_holds_the_counter_while_paused() {
    let mut params = AutomataParams::default();
    let mut node = stepping_node(&params);
    node.update(true, true, &params);
    params.is_paused = true;
    let tick = node.update(true, true, &params).unwrap();
    assert_eq!((tick.before, tick.after), (1, 1));
    params.is_paused = false;
    let tick = node.update(true, true, &params).unwrap();
    assert_eq!((tick.before, tick.after), (1, 2));
}

#[test]
fn automata_node_dispatches_by_its_state() {
    let mut params = AutomataParams::default();
    let bind_group = AutomataTextureBindGroup::for_frame(3);
    assert_eq!(bind_group, AutomataTextureBindGroup { source: BufferId::B, destination: BufferId::A });
    let loading = AutomataNode::default();
    assert_eq!(loading.run(&params, &bind_group), None);
    let mut seeding = AutomataNode::default();
    seeding.update(true, false, &params);
    assert_eq!(seeding.state(), AutomataState::Init);
    assert_eq!(
        seeding.run(&params, &bind_group),
        Some(AutomataPass { pipeline: AutomataKernel::Init, bind_group, workgroups: (160, 90, 1) })
    );
    let stepping = stepping_node(&params);
    assert_eq!(
        stepping.run(&params, &bind_group),
        Some(AutomataPass { pipeline: AutomataKernel::Update, bind_group, workgroups: (160, 90, 1) })
    );
    params.is_paused = true;
    assert_eq!(seeding.run(&params, &bind_group), None);
    assert_eq!(stepping.run(&params, &bind_group), None);
}

#[test]
fn bindings_follow_the_counter() {
    let params = AutomataParams::default();
    let surface = SurfaceId(5);
    let queued = queue_automata_bind_group(&params);
    assert_eq!(queued.frame, 0);
    assert_eq!(
        queued.bind_group,
        AutomataTextureBindGroup { source: BufferId::A, destination: BufferId::B }
    );
    assert_eq!(
        queue_color_bind_group(&params, surface).bind_group,
        AutomataColorBindGroup { cells: BufferId::A, surface }
    );
    assert_eq!(queue_draw_bind_group(&params).bind_group, AutomataDrawBindGroup { cells: BufferId::A });
    params.frame.increment();
    let queued = queue_automata_bind_group(&params);
    assert_eq!(queued.frame, 1);
    assert_eq!(
        queued.bind_group,
        AutomataTextureBindGroup { source: BufferId::B, destination: BufferId::A }
    );
    assert_eq!(
        queue_color_bind_group(&params, surface).bind_group,
        AutomataColorBindGroup { cells: BufferId::B, surface }
    );
    assert_eq!(queue_draw_bind_group(&params).bind_group, AutomataDrawBindGroup { cells: BufferId::B });
}

#[test]
fn colour_node_runs_every_frame_once_ready() {
    let bind_group = AutomataColorBindGroup { cells: BufferId::B, surface: SurfaceId(1) };
    let mut node = AutomataColorNode::default();
    assert_eq!(node.state(), AutomataColorState::Loading);
    assert_eq!(node.run(&bind_group), None);
    node.update(false);
    assert_eq!(node.state(), AutomataColorState::Loading);
    node.update(true);
    assert_eq!(node.state(), AutomataColorState::Update);
    node.update(false);
    assert_eq!(node.state(), AutomataColorState::Update);
    assert_eq!(node.run(&bind_group), Some(ColorPass { bind_group, workgroups: (160, 90, 1) }));
}

#[test]
fn draw_node_runs_while_the_brush_is_down() {
    let bind_group = AutomataDrawBindGroup { cells: BufferId::A };
    let mut params = AutomataParams::default();
    params.mouse_pos = at(7.0, 8.0);
    params.prev_mouse_pos = at(5.0, 6.0);
    let mut node = AutomataDrawNode::default();
    assert_eq!(node.state(), AutomataDrawState::Loading);
    params.is_drawing = true;
    assert_eq!(node.run(&params, &bind_group), None);
    node.update(true);
    assert_eq!(node.state(), AutomataDrawState::Update);
    node.update(false);
    assert_eq!(node.state(), AutomataDrawState::Update);
    let pass = node.run(&params, &bind_group).unwrap();
    assert_eq!(pass.bind_group, bind_group);
    assert_eq!(pass.workgroups, (160, 90, 1));
    assert_eq!(
        pass.push_constants,
        AutomataPushConstants::new(at(7.0, 8.0), at(5.0, 6.0), FloatBits(4.0f32.to_bits()), true)
    );
    params.is_paused = true;
    assert!(node.run(&params, &bind_group).is_some());
    params.is_drawing = false;
    assert_eq!(node.run(&params, &bind_group), None);
}

#[test]
fn brush_block_is_six_words() {
    let block =
        AutomataPushConstants::new(at(1.0, 2.0), at(3.0, 4.0), FloatBits(9.5f32.to_bits()), false);
    let words = block.as_words();
    assert_eq!(
        words,
        vec![
            1.0f32.to_bits(),
            2.0f32.to_bits(),
            3.0f32.to_bits(),
            4.0f32.to_bits(),
            9.5f32.to_bits(),
            0
        ]
    );
    assert_eq!(block.as_bytes(), image_of(&words));
    assert_eq!(block.as_bytes().len(), 24);
    let square = AutomataPushConstants::new(at(1.0, 2.0), at(3.0, 4.0), FloatBits(0), true);
    assert_eq!(square.as_words()[5], 1);
}

#[test]
fn life_snapshot_starts_with_a_square_brush() {
    let params = AutomataParams::default();
    assert!(!params.is_paused);
    assert!(!params.is_drawing);
    assert!(params.can_scroll);
    assert!(params.use_square_brush);
    assert_eq!(f32::from_bits(params.radius.0), 4.0);
    assert_eq!(params.mouse_pos, at(0.0, 0.0));
    assert_eq!(params.prev_mouse_pos, at(0.0, 0.0));
    assert_eq!(params.get_frame(), 0);
}

#[test]
fn life_input_follows_the_report() {
    let mut params = AutomataParams::default();
    let report = PointerReport {
        gui_wants_pointer: false,
        buttons: vec![MouseButtonInput { button: MouseButton::Left, state: ButtonState::Pressed }],
        pause_pressed: true,
        cursor: Some(at(2.0, 3.0)),
    };
    update_input_state(&mut params, &report);
    assert!(params.is_drawing);
    assert!(params.is_paused);
    assert!(params.can_scroll);
    assert_eq!(params.mouse_pos, at(2.0, 3.0));
    assert_eq!(params.prev_mouse_pos, at(0.0, 0.0));

    let held = PointerReport { gui_wants_pointer: true, ..report };
    update_input_state(&mut params, &held);
    assert!(!params.is_drawing);
    assert!(!params.can_scroll);
    assert!(params.is_paused);
    assert_eq!(params.mouse_pos, at(2.0, 3.0));
}

#[test]
fn launch_creates_two_cold_buffers_and_the_size_uniform() {
    let launch = setup();
    assert_eq!((launch.image.width, launch.image.height), (1280, 720));
    assert_eq!(launch.image.fill, vec![0, 0, 0, 255]);
    assert_eq!(launch.buffers.in_out_buffers.len(), 2);
    assert_eq!(launch.buffers.in_out_buffers[0].label, Some("Game of Life Buffer 0"));
    assert_eq!(launch.buffers.in_out_buffers[1].label, Some("Game of Life Buffer 1"));
    for buffer in &launch.buffers.in_out_buffers {
        assert_eq!(buffer.contents.len(), 2 * 921_600 * 4);
        assert!(buffer.contents.iter().all(|byte| *byte == 0));
        assert_eq!(buffer.usage, BufferUsages { storage: true, uniform: false, copy_dst: true });
    }
    assert_eq!(launch.buffers.uniform_buffer.label, Some("Simulation Size Uniform"));
    assert_eq!(launch.buffers.uniform_buffer.contents, image_of(&[1280, 720]));
    assert_eq!(
        launch.buffers.uniform_buffer.usage,
        BufferUsages { storage: false, uniform: true, copy_dst: true }
    );
}

#[test]
fn life_buffers_hold_their_words_in_machine_order() {
    let words = vec![0x0403_0201, 0xFFFF_FFFE, 7];
    let storage = create_storage_buffer_with_data(&words, None);
    assert_eq!(storage.contents, image_of(&words));
    assert_eq!(storage.label, None);
    let uniform = create_uniform_buffer(&words, Some("u"));
    assert_eq!(uniform.contents, image_of(&words));
    assert_eq!(uniform.usage, BufferUsages { storage: false, uniform: true, copy_dst: true });
}

#[test]
fn life_surface_is_opaque_black() {
    let image = create_image(64, 32);
    assert_eq!((image.width, image.height), (64, 32));
    assert_eq!(image.fill, vec![0, 0, 0, 255]);
    assert_eq!(image.format, TextureFormat::Rgba8Unorm);
    assert_eq!(image.mag_filter, FilterMode::Nearest);
    assert_eq!(image.min_filter, FilterMode::Nearest);
    assert_eq!(image.mipmap_filter, FilterMode::Nearest);
}

#[test]
fn life_kernels_and_layouts() {
    let automata = AutomataPipeline::new();
    assert_eq!(automata.init_pipeline.entry_point, "init");
    assert_eq!(automata.init_pipeline.shader, "shaders/game_of_life.wgsl");
    assert_eq!(automata.init_pipeline.label, "Game of Life Init Pipeline");
    assert_eq!(automata.update_pipeline.entry_point, "update");
    assert_eq!(automata.update_pipeline.shader, "shaders/game_of_life.wgsl");
    assert_eq!(automata.update_pipeline.label, "Game of Life Update Pipeline");
    assert_eq!(automata.update_pipeline.push_constant_range, None);
    let uniform = BindGroupLayoutEntry {
        binding: 0,
        ty: BindingType::UniformBuffer { min_binding_size: 8 },
    };
    let cells = |binding| BindGroupLayoutEntry {
        binding,
        ty: BindingType::StorageBuffer { min_binding_size: 2 * 921_600 * 4 },
    };
    assert_eq!(automata.texture_bind_group_layout, vec![uniform, cells(1), cells(2)]);

    let color = AutomataColorPipeline::new();
    assert_eq!(color.color_pipeline.entry_point, "color");
    assert_eq!(color.color_pipeline.shader, "shaders/color.wgsl");
    assert_eq!(color.color_pipeline.label, "Game of Life Color Pipeline");
    assert_eq!(
        color.color_bind_group_layout,
        vec![uniform, cells(1), BindGroupLayoutEntry { binding: 2, ty: BindingType::StorageTexture }]
    );

    let draw = AutomataDrawPipeline::new();
    assert_eq!(draw.draw_pipeline.entry_point, "draw");
    assert_eq!(draw.draw_pipeline.shader, "shaders/draw.wgsl");
    assert_eq!(draw.draw_pipeline.label, "Game of Life Draw Pipeline");
    assert_eq!(draw.draw_pipeline.push_constant_range, Some((0, 24)));
    assert_eq!(draw.draw_bind_group_layout, vec![uniform, cells(1)]);
}

#[test]
fn nodes_run_brush_then_automaton_then_colours() {
    assert_eq!(
        node_edges(),
        vec![
            (PipelineNode::Draw, PipelineNode::GameOfLife),
            (PipelineNode::GameOfLife, PipelineNode::Color),
            (PipelineNode::Color, PipelineNode::CameraDriver),
        ]
    );
    assert_eq!(PipelineNode::Draw.name(), "game_of_life_draw");
    assert_eq!(PipelineNode::GameOfLife.name(), "game_of_life");
    assert_eq!(PipelineNode::Color.name(), "game_of_life_color");
    assert_eq!(PipelineNode::CameraDriver.name(), "camera_driver");
}
