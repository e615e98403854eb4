//! Descriptions of the device resources a simulation asks for at launch.
//! The library fills them in; whoever owns the device creates the resources
//! from them.

use crate::bytes::{is_image_of, words_to_bytes};
use vstd::prelude::*;

verus! {

/// What a buffer may be used for.
#[derive(Clone, Copy, Debug, PartialEq, Eq)]
pub struct BufferUsages {
    pub storage: bool,
    pub uniform: bool,
    pub copy_dst: bool,
}

/// A buffer to create, with the bytes it starts out holding.
#[derive(Clone, Debug, PartialEq, Eq)]
pub struct BufferInitDescriptor {
    pub label: Option<&'static str>,
    pub contents: Vec<u8>,
    pub usage: BufferUsages,
}

/// What a kernel finds at one binding slot.
#[derive(Clone, Copy, Debug, PartialEq, Eq)]
pub enum BindingType {
    /// A buffer the kernel reads and writes, of at least this many bytes.
    StorageBuffer { min_binding_size: u64 },
    /// A buffer the kernel only reads, of at least this many bytes.
    UniformBuffer { min_binding_size: u64 },
    /// A two-dimensional surface of four 8-bit channels that the kernel
    /// reads and writes.
    StorageTexture,
}

/// One slot of a binding layout, visible to compute kernels.
#[derive(Clone, Copy, Debug, PartialEq, Eq)]
pub struct BindGroupLayoutEntry {
    pub binding: u32,
    pub ty: BindingType,
}

/// A compute kernel to compile: where its source is, where it starts, and
/// the byte range of the parameter block it takes, if it takes one.
#[derive(Clone, Copy, Debug, PartialEq, Eq)]
pub struct ComputePipelineDescriptor {
    pub label: &'static str,
    pub shader: &'static str,
    pub entry_point: &'static str,
    pub push_constant_range: Option<(u32, u32)>,
}

/// How the texels of a surface are stored.
#[derive(Clone, Copy, Debug, PartialEq, Eq, Structural)]
pub enum TextureFormat {
    /// Four channels of eight bits each, read as fractions of one.
    Rgba8Unorm,
}

/// How a surface is sampled between texels.
#[derive(Clone, Copy, Debug, PartialEq, Eq, Structural)]
pub enum FilterMode {
    Nearest,
    Linear,
}

/// A surface to create: a two-dimensional image filled with a repeated
/// pattern, that kernels write, copies fill and the display samples,
/// clamped to its border.
#[derive(Clone, Debug, PartialEq, Eq)]
pub struct ImageDescriptor {
    pub width: u32,
    pub height: u32,
    pub fill: Vec<u8>,
    pub format: TextureFormat,
    pub mag_filter: FilterMode,
    pub min_filter: FilterMode,
    pub mipmap_filter: FilterMode,
}

/// A storage buffer holding the given words.
pub fn storage_buffer_of_words(words: &Vec<u32>, label: Option<&'static str>) -> (descriptor:
    BufferInitDescriptor)
    ensures
        descriptor.label == label,
        is_image_of(descriptor.contents@, words@),
        descriptor.usage == (BufferUsages { storage: true, uniform: false, copy_dst: true }),
{
    BufferInitDescriptor {
        label,
        contents: words_to_bytes(words),
        usage: BufferUsages { storage: true, uniform: false, copy_dst: true },
    }
}

/// A uniform buffer holding the given words.
pub fn uniform_buffer_of_words(words: &Vec<u32>, label: Option<&'static str>) -> (descriptor:
    BufferInitDescriptor)
    ensures
        descriptor.label == label,
        is_image_of(descriptor.contents@, words@),
        descriptor.usage == (BufferUsages { storage: false, uniform: true, copy_dst: true }),
{
    BufferInitDescriptor {
        label,
        contents: words_to_bytes(words),
        usage: BufferUsages { storage: false, uniform: true, copy_dst: true },
    }
}

} // verus!
