//! Choice of resampling filter by the direction of the scale.

use vstd::prelude::*;

verus! {

/// The kind of resampling that a resize calls for.
#[derive(Clone, Copy, Debug, PartialEq, Eq, Structural)]
pub enum FilterKind {
    /// The target has fewer pixels than the source: a sharper, cheaper filter.
    Downscale,
    /// The target has as many pixels or more: a smoother filter.
    Upscale,
}

pub open spec fn filter_for(current_area: int, target_area: int) -> FilterKind {
    if target_area < current_area {
        FilterKind::Downscale
    } else {
        FilterKind::Upscale
    }
}

/// Picks the filter from the source and target areas in pixels: `Downscale`
/// exactly when the target is smaller; equal areas go to `Upscale`.
pub fn select_filter(current_area: u64, target_area: u64) -> (r: FilterKind)
    ensures
        r == filter_for(current_area as int, target_area as int),
        r == FilterKind::Downscale <==> target_area < current_area,
        r == FilterKind::Upscale <==> target_area >= current_area,
{
    if target_area < current_area {
        FilterKind::Downscale
    } else {
        FilterKind::Upscale
    }
}

/// The area of a `width` by `height` image; no overflow is possible.
pub fn area(width: u32, height: u32) -> (r: u64)
    ensures
        r == width as int * height as int,
{
    proof {
        vstd::arithmetic::mul::lemma_mul_upper_bound(
            width as int,
            u32::MAX as int,
            height as int,
            u32::MAX as int,
        );
    }
    (width as u64) * (height as u64)
}

/// The filter for resizing a `current_width` by `current_height` image to
/// `target_width` by `target_height`.
pub fn filter_for_sizes(
    current_width: u32,
    current_height: u32,
    target_width: u32,
    target_height: u32,
) -> (r: FilterKind)
    ensures
        r == filter_for(
            current_width as int * current_height as int,
            target_width as int * target_height as int,
        ),
{
    select_filter(area(current_width, current_height), area(target_width, target_height))
}

} // verus!
