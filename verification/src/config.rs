//! Named configuration and the plain values that describe a surface.

use vstd::prelude::*;

verus! {

/// Width and height of a drawable surface, in pixels.
#[derive(Clone, Copy, Debug, PartialEq, Eq, Structural)]
pub struct Extent {
    pub width: u32,
    pub height: u32,
}

impl Extent {
    pub fn new(width: u32, height: u32) -> (e: Extent)
        ensures
            e == (Extent { width, height }),
    {
        Extent { width, height }
    }
}

/// The colour every frame is cleared to, eight bits per channel.
#[derive(Clone, Copy, Debug, PartialEq, Eq, Structural)]
pub struct ClearColor {
    pub red: u8,
    pub green: u8,
    pub blue: u8,
    pub alpha: u8,
}

/// What the engine is built with.
#[derive(Clone, Copy, Debug, PartialEq, Eq, Structural)]
pub struct EngineConfig {
    /// Fewest presentable images to ask for.
    pub min_images: u32,
    pub clear_color: ClearColor,
}

impl EngineConfig {
    /// Double buffering, cleared to opaque blue.
    pub open spec fn standard() -> EngineConfig {
        EngineConfig {
            min_images: 2,
            clear_color: ClearColor { red: 0, green: 0, blue: 255, alpha: 255 },
        }
    }
}

impl Default for EngineConfig {
    fn default() -> (c: EngineConfig)
        ensures
            c == EngineConfig::standard(),
    {
        EngineConfig {
            min_images: 2,
            clear_color: ClearColor { red: 0, green: 0, blue: 255, alpha: 255 },
        }
    }
}

/// The image-count bounds a surface reports.
#[derive(Clone, Copy, Debug, PartialEq, Eq, Structural)]
pub struct ImageCountBounds {
    pub min_image_count: u32,
    /// `None` where the device sets no upper bound.
    pub max_image_count: Option<u32>,
}

/// The larger of two counts.
pub open spec fn larger(a: int, b: int) -> int {
    if a >= b { a } else { b }
}

/// The smaller of two counts.
pub open spec fn smaller(a: int, b: int) -> int {
    if a <= b { a } else { b }
}

/// How many images to ask for: at least `wanted` and at least what the surface
/// needs, but never above the device's upper bound.
pub open spec fn image_count(wanted: u32, bounds: ImageCountBounds) -> int {
    let floor = larger(wanted as int, bounds.min_image_count as int);
    match bounds.max_image_count {
        None => floor,
        Some(limit) => smaller(floor, limit as int),
    }
}

/// Picks the number of presentable images for a new chain.
pub fn choose_image_count(wanted: u32, bounds: &ImageCountBounds) -> (n: u32)
    ensures
        n == image_count(wanted, *bounds),
{
    let floor: u32 = if wanted >= bounds.min_image_count { wanted } else { bounds.min_image_count };
    match bounds.max_image_count {
        None => floor,
        Some(limit) => if floor <= limit { floor } else { limit },
    }
}

/// The chosen count lies inside the surface's bounds whenever those bounds are
/// consistent, and is never below `wanted` unless the upper bound forces it.
pub proof fn image_count_within_bounds(wanted: u32, bounds: ImageCountBounds)
    ensures
        bounds.max_image_count is None ==> image_count(wanted, bounds) >= wanted
            && image_count(wanted, bounds) >= bounds.min_image_count,
        bounds.max_image_count matches Some(limit) ==> image_count(wanted, bounds) <= limit,
        bounds.max_image_count matches Some(limit) && bounds.min_image_count <= limit
            ==> image_count(wanted, bounds) >= bounds.min_image_count,
        bounds.max_image_count matches Some(limit) && wanted <= limit ==> image_count(
            wanted,
            bounds,
        ) >= wanted,
{
}

} // verus!
