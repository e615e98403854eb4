use falling_sand::buffers::BufferId;
use falling_sand::resources::{
    BindGroupLayoutEntry, BindingType, BufferUsages, FilterMode, TextureFormat,
};
use falling_sand::sand::matter::{Matter, MATTER_WORDS};
use falling_sand::sand::pipeline::Kernel;
use falling_sand::sand::pipeline_assets::{filled_cells, SandPipelineAssets};
use falling_sand::sand::push_constants::{SandPushConstants, PUSH_CONSTANT_BYTES, PUSH_CONSTANT_WORDS};
use falling_sand::sand::setup::{bind_group_layout, setup_sand_pipeline, PIPELINE_ENTRY};
use falling_sand::sand::utils::{create_storage_buffer_with_data, create_texture_2d, words_of_cells};
use falling_sand::scalar::{CanvasPos, FloatBits, Rgba};

fn bits(value: f32) -> FloatBits {
    FloatBits(value.to_bits())
}

fn rgba(red: f32, green: f32, blue: f32, alpha: f32) -> Rgba {
    Rgba { red: bits(red), green: bits(green), blue: bits(blue), alpha: bits(alpha) }
}

fn image_of(words: &[u32]) -> Vec<u8> {
    words.iter().flat_map(|w| w.to_ne_bytes()).collect()
}

#[test]
fn substances_have_their_weights_colours_and_rates() {
    assert_eq!(Matter::empty(), Matter::new(0, rgba(0.0, 0.0, 0.0, 1.0), bits(1.0), 0));
    assert_eq!(Matter::sand(), Matter::new(1, rgba(0.76078, 0.69804, 0.50196, 1.0), bits(1.5), 0));
    assert_eq!(Matter::water(), Matter::new(2, rgba(0.01961, 0.33333, 1., 1.0), bits(1.0), 10));
    assert_eq!(Matter::gas(), Matter::new(3, rgba(0.49804, 1., 0., 1.0), bits(0.1), 5));
}

#[test]
fn new_matter_clears_its_padding() {
    let matter = Matter::new(9, rgba(0.25, 0.5, 0.75, 1.0), bits(2.0), 4);
    assert_eq!(matter.id, 9);
    assert_eq!(matter.weight, bits(2.0));
    assert_eq!(matter.dispersion, 4);
    assert_eq!(matter.pad, 0);
    assert_eq!(matter.color, rgba(0.25, 0.5, 0.75, 1.0));
}

#[test]
fn palette_entries_name_the_four_substances() {
    assert_eq!(Matter::from_id(0), Some(Matter::empty()));
    assert_eq!(Matter::from_id(1), Some(Matter::sand()));
    assert_eq!(Matter::from_id(2), Some(Matter::water()));
    assert_eq!(Matter::from_id(3), Some(Matter::gas()));
    assert_eq!(Matter::from_id(4), None);
}

fn sample_block() -> SandPushConstants {
    SandPushConstants {
        draw_start: CanvasPos { x: bits(1.0), y: bits(2.0) },
        draw_end: CanvasPos { x: bits(3.0), y: bits(4.0) },
        draw_radius: bits(5.0),
        draw_square: 1,
        sim_step: 0x0102_0304,
        move_step: 2,
        dispersion_dir: 1,
        dispersion_step: 9,
        seed: bits(6.5),
        draw_matter: 11,
        matter: Matter::water(),
    }
}

#[test]
fn block_lays_out_twenty_words_in_declaration_order() {
    let words = sample_block().as_words();
    assert_eq!(words.len(), PUSH_CONSTANT_WORDS);
    assert_eq!(
        words,
        vec![
            1.0f32.to_bits(),
            2.0f32.to_bits(),
            3.0f32.to_bits(),
            4.0f32.to_bits(),
            5.0f32.to_bits(),
            1,
            0x0102_0304,
            2,
            1,
            9,
            6.5f32.to_bits(),
            11,
            2,
            1.0f32.to_bits(),
            10,
            0,
            0.01961f32.to_bits(),
            0.33333f32.to_bits(),
            1.0f32.to_bits(),
            1.0f32.to_bits(),
        ]
    );
}

#[test]
fn block_bytes_are_its_words_in_machine_order() {
    let block = sample_block();
    let bytes = block.as_bytes();
    assert_eq!(bytes.len(), PUSH_CONSTANT_BYTES as usize);
    assert_eq!(bytes.len(), 80);
    assert_eq!(bytes, image_of(&block.as_words()));
    assert_eq!(&bytes[24..28], &0x0102_0304u32.to_ne_bytes());
}

#[test]
fn default_block_is_all_zero() {
    assert_eq!(SandPushConstants::default().as_bytes(), vec![0u8; 80]);
}

#[test]
fn cells_are_eight_words_each() {
    let cells = vec![Matter::sand(), Matter::gas()];
    let words = words_of_cells(&cells);
    assert_eq!(words.len(), 2 * MATTER_WORDS);
    assert_eq!(
        words,
        vec![
            1,
            1.5f32.to_bits(),
            0,
            0,
            0.76078f32.to_bits(),
            0.69804f32.to_bits(),
            0.50196f32.to_bits(),
            1.0f32.to_bits(),
            3,
            0.1f32.to_bits(),
            5,
            0,
            0.49804f32.to_bits(),
            1.0f32.to_bits(),
            0.0f32.to_bits(),
            1.0f32.to_bits(),
        ]
    );
}

#[test]
fn storage_buffer_holds_the_cells_bytes() {
    let cells = vec![Matter::water(), Matter::empty(), Matter::sand()];
    let descriptor = create_storage_buffer_with_data(&cells, Some("cells"));
    assert_eq!(descriptor.label, Some("cells"));
    assert_eq!(descriptor.usage, BufferUsages { storage: true, uniform: false, copy_dst: true });
    assert_eq!(descriptor.contents.len(), 3 * 32);
    assert_eq!(descriptor.contents, image_of(&words_of_cells(&cells)));
}

#[test]
fn filled_cells_all_hold_the_fill() {
    let cells = filled_cells(Matter::gas(), 5);
    assert_eq!(cells, vec![Matter::gas(); 5]);
    assert!(filled_cells(Matter::gas(), 0).is_empty());
}

#[test]
fn grid_buffers_start_out_empty_and_alike() {
    let assets = SandPipelineAssets::new();
    assert_eq!(assets.buffer_in.contents.len(), 32 * 518_400);
    assert_eq!(assets.buffer_in, assets.buffer_out);
    let empty = image_of(&words_of_cells(&[Matter::empty()].to_vec()));
    assert!(assets.buffer_in.contents.chunks(32).all(|cell| cell == &empty[..]));
    assert_eq!(assets.as_binding(BufferId::A), &assets.buffer_in);
    assert_eq!(assets.as_binding(BufferId::B), &assets.buffer_out);
}

#[test]
fn allocation_fills_both_buffers() {
    let assets = SandPipelineAssets::allocate(Matter::sand(), 3);
    let sand = image_of(&words_of_cells(&vec![Matter::sand()]));
    assert_eq!(assets.buffer_in.contents.len(), 96);
    assert!(assets.buffer_in.contents.chunks(32).all(|cell| cell == &sand[..]));
    assert_eq!(assets.buffer_out.contents, assets.buffer_in.contents);
}

#[test]
fn output_surface_is_as_large_as_the_grid() {
    let image = setup_sand_pipeline();
    assert_eq!((image.width, image.height), (720, 720));
    assert_eq!(image.format, TextureFormat::Rgba8Unorm);
    assert_eq!(image.fill, vec![0u8; 32]);
    assert_eq!(image.mag_filter, FilterMode::Nearest);
    assert_eq!(image.min_filter, FilterMode::Nearest);
    let image = create_texture_2d((16, 8), TextureFormat::Rgba8Unorm, FilterMode::Linear);
    assert_eq!((image.width, image.height), (16, 8));
    assert_eq!(image.mag_filter, FilterMode::Linear);
    assert_eq!(image.min_filter, FilterMode::Linear);
    assert_eq!(image.mipmap_filter, FilterMode::Nearest);
}

#[test]
fn layout_binds_two_grid_buffers_and_the_surface() {
    let grid_bytes = 32 * 518_400;
    assert_eq!(
        bind_group_layout(),
        vec![
            BindGroupLayoutEntry {
                binding: 0,
                ty: BindingType::StorageBuffer { min_binding_size: grid_bytes }
            },
            BindGroupLayoutEntry {
                binding: 1,
                ty: BindingType::StorageBuffer { min_binding_size: grid_bytes }
            },
            BindGroupLayoutEntry { binding: 2, ty: BindingType::StorageTexture },
        ]
    );
}

#[test]
fn kernels_name_their_sources_and_blocks() {
    let draw = Kernel::Draw.descriptor();
    assert_eq!(draw.label, "draw_pipeline");
    assert_eq!(draw.shader, "shaders/draw.wgsl");
    assert_eq!(draw.entry_point, PIPELINE_ENTRY);
    assert_eq!(draw.entry_point, "main");
    assert_eq!(draw.push_constant_range, Some((0, 80)));

    let fall = Kernel::FallEmpty.descriptor();
    assert_eq!(fall.label, "fall_empty_pipeline");
    assert_eq!(fall.shader, "shaders/empty/fall_empty.wgsl");
    assert_eq!(fall.push_constant_range, None);

    let expected = [
        (Kernel::Color, "color_pipeline", "shaders/color.wgsl", false),
        (Kernel::RiseSwap, "rise_swap_pipeline", "shaders/swap/rise_swap.wgsl", false),
        (Kernel::RiseEmpty, "rise_empty_pipeline", "shaders/empty/rise_empty.wgsl", false),
        (Kernel::FallSwap, "fall_swap_pipeline", "shaders/swap/fall_swap.wgsl", false),
        (Kernel::SlideDownSwap, "slide_down_swap_pipeline", "shaders/swap/slide_down_swap.wgsl", true),
        (Kernel::SlideDownEmpty, "slide_down_empty_pipeline", "shaders/empty/slide_down_empty.wgsl", true),
        (Kernel::HorizontalEmpty, "horizontal_empty_pipeline", "shaders/empty/horizontal_empty.wgsl", true),
        (Kernel::HorizontalSwap, "horizontal_swap_pipeline", "shaders/swap/horizontal_swap.wgsl", true),
    ];
    for (kernel, label, shader, block) in expected {
        let descriptor = kernel.descriptor();
        assert_eq!(descriptor.label, label);
        assert_eq!(descriptor.shader, shader);
        assert_eq!(descriptor.entry_point, "main");
        assert_eq!(descriptor.push_constant_range.is_some(), block);
    }
}

#[test]
fn only_the_colour_kernel_leaves_cells_alone() {
    assert!(!Kernel::Color.writes_cells());
    assert!(Kernel::Draw.writes_cells());
    assert!(Kernel::FallEmpty.writes_cells());
    assert!(Kernel::HorizontalSwap.writes_cells());
}
