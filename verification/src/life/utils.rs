//! Launch-time resources of the life automaton.

use crate::bytes::is_image_of;
use crate::resources::{
    storage_buffer_of_words,
    uniform_buffer_of_words,
    BufferInitDescriptor,
    BufferUsages,
    FilterMode,
    ImageDescriptor,
    TextureFormat,
};
use vstd::prelude::*;

verus! {

/// The output surface: cleared to opaque black, sampled to the nearest
/// texel.
pub fn create_image(width: u32, height: u32) -> (image: ImageDescriptor)
    ensures
        image.width == width,
        image.height == height,
        image.fill@ == seq![0u8, 0u8, 0u8, 255u8],
        image.format == TextureFormat::Rgba8Unorm,
        image.mag_filter == FilterMode::Nearest,
        image.min_filter == FilterMode::Nearest,
        image.mipmap_filter == FilterMode::Nearest,
{
    let mut fill: Vec<u8> = Vec::new();
    fill.push(0);
    fill.push(0);
    fill.push(0);
    fill.push(255);
    assert(fill@ =~= seq![0u8, 0u8, 0u8, 255u8]);
    ImageDescriptor {
        width,
        height,
        fill,
        format: TextureFormat::Rgba8Unorm,
        mag_filter: FilterMode::Nearest,
        min_filter: FilterMode::Nearest,
        mipmap_filter: FilterMode::Nearest,
    }
}

/// A storage buffer that starts out holding the given words.
pub fn create_storage_buffer_with_data(
    data: &Vec<u32>,
    label: Option<&'static str>,
) -> (descriptor: BufferInitDescriptor)
    ensures
        descriptor.label == label,
        is_image_of(descriptor.contents@, data@),
        descriptor.usage == (BufferUsages { storage: true, uniform: false, copy_dst: true }),
{
    storage_buffer_of_words(data, label)
}

/// A uniform buffer that holds the given words.
pub fn create_uniform_buffer(data: &Vec<u32>, label: Option<&'static str>) -> (descriptor:
    BufferInitDescriptor)
    ensures
        descriptor.label == label,
        is_image_of(descriptor.contents@, data@),
        descriptor.usage == (BufferUsages { storage: false, uniform: true, copy_dst: true }),
{
    uniform_buffer_of_words(data, label)
}

} // verus!
