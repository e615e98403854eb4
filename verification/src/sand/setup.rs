//! What is asked of the device at launch: one output surface, one binding
//! layout shared by every kernel, and the ten kernels.

use crate::resources::{
    BindGroupLayoutEntry,
    BindingType,
    ComputePipelineDescriptor,
    FilterMode,
    ImageDescriptor,
    TextureFormat,
};
use crate::sand::constants::{NUM_OF_CELLS, SIM_SIZE};
use crate::sand::pipeline::Kernel;
use crate::sand::push_constants::PUSH_CONSTANT_BYTES;
use crate::sand::utils::{create_texture_2d, FILL_BYTES};
use vstd::prelude::*;

verus! {

/// How the output surface stores its texels.
pub const PIXELS_TARGET_FORMAT: TextureFormat = TextureFormat::Rgba8Unorm;

/// Where every kernel starts.
pub const PIPELINE_ENTRY: &'static str = "main";

/// Bytes in one cell record.
pub const MATTER_BYTES: u64 = 32;

/// Binding slots a kernel expects.
pub const BINDING_SLOTS: usize = 3;

/// Kernels queued at launch.
pub const KERNELS: usize = 10;

/// The kernels of the simulation in the order they are queued at launch:
/// fall, slide, horizontal and rise, each first into vacant cells and then
/// by exchange, then the brush and the colours.
pub open spec fn queued_kernels() -> Seq<Kernel> {
    seq![
        Kernel::FallEmpty,
        Kernel::FallSwap,
        Kernel::SlideDownEmpty,
        Kernel::SlideDownSwap,
        Kernel::HorizontalEmpty,
        Kernel::HorizontalSwap,
        Kernel::RiseEmpty,
        Kernel::RiseSwap,
        Kernel::Draw,
        Kernel::Color,
    ]
}

impl Kernel {
    /// The kernel's place among those queued at launch.
    pub open spec fn place(self) -> int {
        match self {
            Kernel::FallEmpty => 0,
            Kernel::FallSwap => 1,
            Kernel::SlideDownEmpty => 2,
            Kernel::SlideDownSwap => 3,
            Kernel::HorizontalEmpty => 4,
            Kernel::HorizontalSwap => 5,
            Kernel::RiseEmpty => 6,
            Kernel::RiseSwap => 7,
            Kernel::Draw => 8,
            Kernel::Color => 9,
        }
    }

    /// The kernels to queue at launch, in order.
    pub fn all() -> (kernels: Vec<Kernel>)
        ensures
            kernels@ == queued_kernels(),
            kernels@.len() == KERNELS,
    {
        let mut kernels: Vec<Kernel> = Vec::new();
        kernels.push(Kernel::FallEmpty);
        kernels.push(Kernel::FallSwap);
        kernels.push(Kernel::SlideDownEmpty);
        kernels.push(Kernel::SlideDownSwap);
        kernels.push(Kernel::HorizontalEmpty);
        kernels.push(Kernel::HorizontalSwap);
        kernels.push(Kernel::RiseEmpty);
        kernels.push(Kernel::RiseSwap);
        kernels.push(Kernel::Draw);
        kernels.push(Kernel::Color);
        assert(kernels@ =~= queued_kernels());
        kernels
    }

    /// The file that holds the kernel's source.
    pub open spec fn shader_path(self) -> &'static str {
        match self {
            Kernel::Draw => "shaders/draw.wgsl",
            Kernel::Color => "shaders/color.wgsl",
            Kernel::RiseSwap => "shaders/swap/rise_swap.wgsl",
            Kernel::RiseEmpty => "shaders/empty/rise_empty.wgsl",
            Kernel::FallSwap => "shaders/swap/fall_swap.wgsl",
            Kernel::FallEmpty => "shaders/empty/fall_empty.wgsl",
            Kernel::SlideDownSwap => "shaders/swap/slide_down_swap.wgsl",
            Kernel::SlideDownEmpty => "shaders/empty/slide_down_empty.wgsl",
            Kernel::HorizontalEmpty => "shaders/empty/horizontal_empty.wgsl",
            Kernel::HorizontalSwap => "shaders/swap/horizontal_swap.wgsl",
        }
    }

    /// The name the kernel goes by on the device.
    pub open spec fn label(self) -> &'static str {
        match self {
            Kernel::Draw => "draw_pipeline",
            Kernel::Color => "color_pipeline",
            Kernel::RiseSwap => "rise_swap_pipeline",
            Kernel::RiseEmpty => "rise_empty_pipeline",
            Kernel::FallSwap => "fall_swap_pipeline",
            Kernel::FallEmpty => "fall_empty_pipeline",
            Kernel::SlideDownSwap => "slide_down_swap_pipeline",
            Kernel::SlideDownEmpty => "slide_down_empty_pipeline",
            Kernel::HorizontalEmpty => "horizontal_empty_pipeline",
            Kernel::HorizontalSwap => "horizontal_swap_pipeline",
        }
    }

    /// Whether the kernel declares a parameter block: the brush, the slide
    /// and the horizontal kernels do.
    pub open spec fn declares_block(self) -> bool {
        match self {
            Kernel::Draw
            | Kernel::SlideDownSwap
            | Kernel::SlideDownEmpty
            | Kernel::HorizontalEmpty
            | Kernel::HorizontalSwap => true,
            _ => false,
        }
    }

    /// What to compile for this kernel.
    pub open spec fn spec_descriptor(self) -> ComputePipelineDescriptor {
        ComputePipelineDescriptor {
            label: self.label(),
            shader: self.shader_path(),
            entry_point: PIPELINE_ENTRY,
            push_constant_range: if self.declares_block() {
                Some((0u32, PUSH_CONSTANT_BYTES))
            } else {
                None
            },
        }
    }

    /// What to compile for this kernel.
    #[verifier::when_used_as_spec(spec_descriptor)]
    pub fn descriptor(self) -> (descriptor: ComputePipelineDescriptor)
        ensures
            descriptor == self.spec_descriptor(),
    {
        let whole_block = Some((0u32, PUSH_CONSTANT_BYTES));
        match self {
            Kernel::Draw => ComputePipelineDescriptor {
                label: "draw_pipeline",
                shader: "shaders/draw.wgsl",
                entry_point: PIPELINE_ENTRY,
                push_constant_range: whole_block,
            },
            Kernel::Color => ComputePipelineDescriptor {
                label: "color_pipeline",
                shader: "shaders/color.wgsl",
                entry_point: PIPELINE_ENTRY,
                push_constant_range: None,
            },
            Kernel::RiseSwap => ComputePipelineDescriptor {
                label: "rise_swap_pipeline",
                shader: "shaders/swap/rise_swap.wgsl",
                entry_point: PIPELINE_ENTRY,
                push_constant_range: None,
            },
            Kernel::RiseEmpty => ComputePipelineDescriptor {
                label: "rise_empty_pipeline",
                shader: "shaders/empty/rise_empty.wgsl",
                entry_point: PIPELINE_ENTRY,
                push_constant_range: None,
            },
            Kernel::FallSwap => ComputePipelineDescriptor {
                label: "fall_swap_pipeline",
                shader: "shaders/swap/fall_swap.wgsl",
                entry_point: PIPELINE_ENTRY,
                push_constant_range: None,
            },
            Kernel::FallEmpty => ComputePipelineDescriptor {
                label: "fall_empty_pipeline",
                shader: "shaders/empty/fall_empty.wgsl",
                entry_point: PIPELINE_ENTRY,
                push_constant_range: None,
            },
            Kernel::SlideDownSwap => ComputePipelineDescriptor {
                label: "slide_down_swap_pipeline",
                shader: "shaders/swap/slide_down_swap.wgsl",
                entry_point: PIPELINE_ENTRY,
                push_constant_range: whole_block,
            },
            Kernel::SlideDownEmpty => ComputePipelineDescriptor {
                label: "slide_down_empty_pipeline",
                shader: "shaders/empty/slide_down_empty.wgsl",
                entry_point: PIPELINE_ENTRY,
                push_constant_range: whole_block,
            },
            Kernel::HorizontalEmpty => ComputePipelineDescriptor {
                label: "horizontal_empty_pipeline",
                shader: "shaders/empty/horizontal_empty.wgsl",
                entry_point: PIPELINE_ENTRY,
                push_constant_range: whole_block,
            },
            Kernel::HorizontalSwap => ComputePipelineDescriptor {
                label: "horizontal_swap_pipeline",
                shader: "shaders/swap/horizontal_swap.wgsl",
                entry_point: PIPELINE_ENTRY,
                push_constant_range: whole_block,
            },
        }
    }
}

/// The binding layout of every kernel: at slots 0 and 1 a storage buffer
/// that holds the whole grid, at slot 2 the output surface.
pub open spec fn layout_entries() -> Seq<BindGroupLayoutEntry> {
    seq![
        BindGroupLayoutEntry {
            binding: 0,
            ty: BindingType::StorageBuffer { min_binding_size: (32 * NUM_OF_CELLS) as u64 },
        },
        BindGroupLayoutEntry {
            binding: 1,
            ty: BindingType::StorageBuffer { min_binding_size: (32 * NUM_OF_CELLS) as u64 },
        },
        BindGroupLayoutEntry { binding: 2, ty: BindingType::StorageTexture },
    ]
}

/// The binding layout of every kernel.
pub fn bind_group_layout() -> (entries: Vec<BindGroupLayoutEntry>)
    ensures
        entries@ == layout_entries(),
        entries@.len() == BINDING_SLOTS,
{
    let grid_bytes: u64 = MATTER_BYTES * (NUM_OF_CELLS as u64);
    let mut entries: Vec<BindGroupLayoutEntry> = Vec::new();
    entries.push(
        BindGroupLayoutEntry {
            binding: 0,
            ty: BindingType::StorageBuffer { min_binding_size: grid_bytes },
        },
    );
    entries.push(
        BindGroupLayoutEntry {
            binding: 1,
            ty: BindingType::StorageBuffer { min_binding_size: grid_bytes },
        },
    );
    entries.push(BindGroupLayoutEntry { binding: 2, ty: BindingType::StorageTexture });
    assert(entries@ =~= layout_entries());
    entries
}

/// The output surface of the simulation: as large as the grid, sampled to
/// the nearest texel.
pub fn setup_sand_pipeline() -> (image: ImageDescriptor)
    ensures
        image.width == SIM_SIZE.0,
        image.height == SIM_SIZE.1,
        image.fill@ == Seq::new(FILL_BYTES as nat, |i: int| 0u8),
        image.format == PIXELS_TARGET_FORMAT,
        image.mag_filter == FilterMode::Nearest,
        image.min_filter == FilterMode::Nearest,
        image.mipmap_filter == FilterMode::Nearest,
{
    create_texture_2d(SIM_SIZE, PIXELS_TARGET_FORMAT, FilterMode::Nearest)
}

/// Exactly ten kernels are queued at launch, every kernel once: each
/// stands at its own place in the list and nowhere else.
pub proof fn every_kernel_queued_once()
    ensures
        queued_kernels().len() == KERNELS,
        forall|kernel: Kernel|
            0 <= #[trigger] kernel.place() < queued_kernels().len() && queued_kernels()[kernel.place()]
                == kernel,
        forall|i: int|
            0 <= i < queued_kernels().len() ==> (#[trigger] queued_kernels()[i]).place() == i,
{
}

} // verus!
