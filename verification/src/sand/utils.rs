//! Launch-time resources of the falling-sand simulation.

use crate::resources::{
    storage_buffer_of_words,
    BufferInitDescriptor,
    BufferUsages,
    FilterMode,
    ImageDescriptor,
    TextureFormat,
};
use crate::bytes::is_image_of;
use crate::sand::matter::{Matter, MATTER_WORDS};
use vstd::prelude::*;

verus! {

/// Bytes in the fill pattern of the output surface: eight texels.
pub const FILL_BYTES: usize = 32;

/// The words of a run of cells: eight for each cell, in order.
pub open spec fn cell_words(cells: Seq<Matter>) -> Seq<u32> {
    Seq::new(MATTER_WORDS as nat * cells.len(), |i: int| cells[i / 8].words()[i % 8])
}

/// The output surface: cleared to transparent black.
pub fn create_texture_2d(size: (u32, u32), format: TextureFormat, filter: FilterMode) -> (image:
    ImageDescriptor)
    ensures
        image.width == size.0,
        image.height == size.1,
        image.fill@ == Seq::new(FILL_BYTES as nat, |i: int| 0u8),
        image.format == format,
        image.mag_filter == filter,
        image.min_filter == filter,
        image.mipmap_filter == FilterMode::Nearest,
{
    let mut fill: Vec<u8> = Vec::new();
    while fill.len() < FILL_BYTES
        invariant
            fill@.len() <= FILL_BYTES,
            forall|i: int| 0 <= i < fill@.len() ==> fill@[i] == 0u8,
        decreases FILL_BYTES - fill@.len(),
    {
        fill.push(0);
    }
    assert(fill@ =~= Seq::new(FILL_BYTES as nat, |i: int| 0u8));
    ImageDescriptor {
        width: size.0,
        height: size.1,
        fill,
        format,
        mag_filter: filter,
        min_filter: filter,
        mipmap_filter: FilterMode::Nearest,
    }
}

/// The words of the given cells, in order.
pub fn words_of_cells(data: &Vec<Matter>) -> (words: Vec<u32>)
    ensures
        words@ == cell_words(data@),
{
    let mut words: Vec<u32> = Vec::new();
    let mut i: usize = 0;
    assert(words@ =~= cell_words(data@.take(0)));
    while i < data.len()
        invariant
            i <= data.len(),
            words@ == cell_words(data@.take(i as int)),
        decreases data.len() - i,
    {
        let cell = data[i];
        words.push(cell.id);
        words.push(cell.weight.0);
        words.push(cell.dispersion);
        words.push(cell.pad);
        words.push(cell.color.red.0);
        words.push(cell.color.green.0);
        words.push(cell.color.blue.0);
        words.push(cell.color.alpha.0);
        i += 1;
        assert(words@ =~= cell_words(data@.take(i as int))) by {
            let before = cell_words(data@.take(i - 1));
            let after = cell_words(data@.take(i as int));
            assert(after.len() == before.len() + 8);
            assert forall|k: int| 0 <= k < after.len() implies words@[k] == after[k] by {
                if k < before.len() {
                    assert(data@.take(i as int)[k / 8] == data@.take(i - 1)[k / 8]);
                } else {
                    assert(k / 8 == i - 1);
                    assert(data@.take(i as int)[k / 8] == cell);
                }
            }
        }
    }
    assert(data@.take(i as int) =~= data@);
    words
}

/// A cell buffer: a storage buffer that starts out holding the given cells.
pub fn create_storage_buffer_with_data(
    data: &Vec<Matter>,
    label: Option<&'static str>,
) -> (descriptor: BufferInitDescriptor)
    ensures
        descriptor.label == label,
        is_image_of(descriptor.contents@, cell_words(data@)),
        descriptor.usage == (BufferUsages { storage: true, uniform: false, copy_dst: true }),
{
    let words = words_of_cells(data);
    storage_buffer_of_words(&words, label)
}

} // verus!
