//! Procedurally filled block-compressed textures.

use vstd::prelude::*;
use crate::hash::{uhash, uhash_spec};
use crate::mip::{mip_chain_bytes, mip_chain_size};

verus! {

/// The block-compressed formats a generated texture can carry.
#[derive(Clone, Copy, Debug, PartialEq, Eq, Structural)]
pub enum BlockFormat {
    /// Single channel, 8 bytes per 4x4 block.
    Bc4RUnorm,
    /// Four channels, sRGB, 16 bytes per 4x4 block.
    Bc7RgbaUnormSrgb,
}

impl BlockFormat {
    pub open spec fn block_bytes_spec(self) -> nat {
        match self {
            BlockFormat::Bc4RUnorm => 8,
            BlockFormat::Bc7RgbaUnormSrgb => 16,
        }
    }

    /// Bytes per 4x4 block.
    pub fn block_bytes(&self) -> (r: u32)
        ensures
            r == self.block_bytes_spec(),
    {
        match self {
            BlockFormat::Bc4RUnorm => 8,
            BlockFormat::Bc7RgbaUnormSrgb => 16,
        }
    }
}

/// The narrow single-channel format, or the wide four-channel one.
pub open spec fn format_for(narrow_format: bool) -> BlockFormat {
    if narrow_format {
        BlockFormat::Bc4RUnorm
    } else {
        BlockFormat::Bc7RgbaUnormSrgb
    }
}

/// The size in bytes of a generated texture of this edge and format.
pub open spec fn texture_len(edge: u32, narrow_format: bool) -> nat {
    mip_chain_bytes(edge as nat, format_for(narrow_format).block_bytes_spec())
}

/// The byte at offset `i` of a texture generated from `seed`: the low eight
/// bits of `uhash(i, seed)`.
pub open spec fn noise_byte(i: int, seed: u32) -> u8 {
    (uhash_spec(i as u32, seed) % 256) as u8
}

/// A square texture with its mip chain packed into one buffer.
#[derive(Clone, Debug)]
pub struct GeneratedTexture {
    pub edge: u32,
    pub format: BlockFormat,
    pub data: Vec<u8>,
}

/// `t` is what `generate_texture(edge, narrow_format, seed)` builds.
pub open spec fn is_generated(t: GeneratedTexture, edge: u32, narrow_format: bool, seed: u32) -> bool {
    &&& t.edge == edge
    &&& t.format == format_for(narrow_format)
    &&& t.data@.len() == texture_len(edge, narrow_format)
    &&& forall|i: int| 0 <= i < t.data@.len() ==> #[trigger] t.data@[i] == noise_byte(i, seed)
}

/// Builds a texture of opaque noise, sized for the full counted mip chain of
/// the selected format.
pub fn generate_texture(edge: u32, narrow_format: bool, seed: u32) -> (t: GeneratedTexture)
    requires
        texture_len(edge, narrow_format) <= u32::MAX,
    ensures
        is_generated(t, edge, narrow_format, seed),
{
    let format = if narrow_format {
        BlockFormat::Bc4RUnorm
    } else {
        BlockFormat::Bc7RgbaUnormSrgb
    };
    let len: u32 = mip_chain_size(edge, format.block_bytes());
    let mut data: Vec<u8> = Vec::with_capacity(len as usize);
    let mut i: u32 = 0;
    while i < len
        invariant
            i <= len,
            data@.len() == i,
            forall|j: int| 0 <= j < i ==> #[trigger] data@[j] == noise_byte(j, seed),
        decreases len - i,
    {
        let h: u32 = uhash(i, seed);
        data.push((h % 256) as u8);
        i = i + 1;
    }
    GeneratedTexture { edge, format, data }
}

} // verus!
