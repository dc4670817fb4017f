use vstd::prelude::*;

verus! {

/// Raw image layout codes.
pub const LAYOUT_UNDEFINED: i32 = 0;

pub const LAYOUT_SHADER_READ_ONLY_OPTIMAL: i32 = 5;

pub const LAYOUT_TRANSFER_DST_OPTIMAL: i32 = 7;

/// Raw memory access bits.
pub const ACCESS_NONE: u32 = 0;

pub const ACCESS_SHADER_READ: u32 = 0x20;

pub const ACCESS_TRANSFER_WRITE: u32 = 0x1000;

/// Raw pipeline stage bits.
pub const STAGE_TOP_OF_PIPE: u32 = 0x1;

pub const STAGE_FRAGMENT_SHADER: u32 = 0x80;

pub const STAGE_TRANSFER: u32 = 0x1000;

/// Bytes per texel of the texture: 8-bit RGBA.
pub const TEXEL_BYTES: u64 = 4;

/// The access masks and pipeline stages of the barrier that moves an image
/// from one layout to another.
#[derive(Clone, Copy, Debug, PartialEq, Eq, Structural)]
pub struct LayoutBarrier {
    pub src_access_mask: u32,
    pub dst_access_mask: u32,
    pub src_stage_mask: u32,
    pub dst_stage_mask: u32,
}

/// The pair of layouts has no barrier in this renderer.
#[derive(Clone, Copy, Debug, PartialEq, Eq, Structural)]
pub struct UnsupportedLayoutTransitionError {
    pub old_layout: i32,
    pub new_layout: i32,
}

/// Why the decoded texture cannot be uploaded.
#[derive(Clone, Copy, Debug, PartialEq, Eq, Structural)]
pub enum TextureLoadError {
    /// The decoded image has no alpha channel.
    MissingAlpha,
    /// The decoded bytes are not four per texel.
    SizeMismatch,
}

/// The barrier table: from undefined to transfer destination before the
/// upload, and from transfer destination to shader reads after it.
pub open spec fn barrier_for(old_layout: i32, new_layout: i32) -> Option<LayoutBarrier> {
    if old_layout == LAYOUT_UNDEFINED && new_layout == LAYOUT_TRANSFER_DST_OPTIMAL {
        Some(
            LayoutBarrier {
                src_access_mask: ACCESS_NONE,
                dst_access_mask: ACCESS_TRANSFER_WRITE,
                src_stage_mask: STAGE_TOP_OF_PIPE,
                dst_stage_mask: STAGE_TRANSFER,
            },
        )
    } else if old_layout == LAYOUT_TRANSFER_DST_OPTIMAL && new_layout
        == LAYOUT_SHADER_READ_ONLY_OPTIMAL {
        Some(
            LayoutBarrier {
                src_access_mask: ACCESS_TRANSFER_WRITE,
                dst_access_mask: ACCESS_SHADER_READ,
                src_stage_mask: STAGE_TRANSFER,
                dst_stage_mask: STAGE_FRAGMENT_SHADER,
            },
        )
    } else {
        None
    }
}

/// Chooses the barrier of an image layout transition.
pub fn transition_barrier(old_layout: i32, new_layout: i32) -> (r: Result<
    LayoutBarrier,
    UnsupportedLayoutTransitionError,
>)
    ensures
        barrier_for(old_layout, new_layout) matches Some(b) ==> r == Ok::<
            LayoutBarrier,
            UnsupportedLayoutTransitionError,
        >(b),
        barrier_for(old_layout, new_layout) is None ==> r == Err::<
            LayoutBarrier,
            UnsupportedLayoutTransitionError,
        >(UnsupportedLayoutTransitionError { old_layout, new_layout }),
{
    if old_layout == LAYOUT_UNDEFINED && new_layout == LAYOUT_TRANSFER_DST_OPTIMAL {
        Ok(
            LayoutBarrier {
                src_access_mask: ACCESS_NONE,
                dst_access_mask: ACCESS_TRANSFER_WRITE,
                src_stage_mask: STAGE_TOP_OF_PIPE,
                dst_stage_mask: STAGE_TRANSFER,
            },
        )
    } else if old_layout == LAYOUT_TRANSFER_DST_OPTIMAL && new_layout
        == LAYOUT_SHADER_READ_ONLY_OPTIMAL {
        Ok(
            LayoutBarrier {
                src_access_mask: ACCESS_TRANSFER_WRITE,
                dst_access_mask: ACCESS_SHADER_READ,
                src_stage_mask: STAGE_TRANSFER,
                dst_stage_mask: STAGE_FRAGMENT_SHADER,
            },
        )
    } else {
        Err(UnsupportedLayoutTransitionError { old_layout, new_layout })
    }
}

/// The number of bytes of a tightly packed RGBA image.
pub open spec fn rgba_size(width: u32, height: u32) -> int {
    width * height * 4
}

/// Checks the decoded texture and returns the size of its staging buffer: the
/// image must carry an alpha channel and hold four bytes per texel.
pub fn texture_staging_size(width: u32, height: u32, pixel_bytes: usize, has_alpha: bool) -> (r:
    Result<u64, TextureLoadError>)
    ensures
        !has_alpha ==> r == Err::<u64, TextureLoadError>(TextureLoadError::MissingAlpha),
        has_alpha && pixel_bytes != rgba_size(width, height) ==> r == Err::<u64, TextureLoadError>(
            TextureLoadError::SizeMismatch,
        ),
        has_alpha && pixel_bytes == rgba_size(width, height) ==> r == Ok::<u64, TextureLoadError>(
            pixel_bytes as u64,
        ),
{
    if !has_alpha {
        return Err(TextureLoadError::MissingAlpha);
    }
    assert(width as int * height as int <= u64::MAX) by (nonlinear_arith)
        requires
            width <= u32::MAX,
            height <= u32::MAX,
    ;
    let texels = width as u64 * height as u64;
    if texels > u64::MAX / TEXEL_BYTES {
        assert(rgba_size(width, height) > u64::MAX) by (nonlinear_arith)
            requires
                texels == width * height,
                texels > u64::MAX / 4,
        ;
        return Err(TextureLoadError::SizeMismatch);
    }
    let size = texels * TEXEL_BYTES;
    if pixel_bytes as u64 != size {
        return Err(TextureLoadError::SizeMismatch);
    }
    Ok(size)
}

} // verus!
