use vstd::prelude::*;

verus! {

/// Sub-pixels to the pixel.
pub const SUBPIXELS_PER_PIXEL: i64 = 600;

/// An axis-aligned box: its centre and its full width and height, in
/// sub-pixels.
#[derive(Clone, Copy, Debug, PartialEq, Eq, Structural)]
pub struct Body {
    pub x: i64,
    pub y: i64,
    pub width: u32,
    pub height: u32,
}

pub open spec fn abs(d: int) -> int {
    if d < 0 {
        -d
    } else {
        d
    }
}

/// Two boxes overlap when, on each axis, the distance between their centres
/// is at most the sum of their half extents. Boxes that only touch overlap.
pub open spec fn overlaps(a: Body, b: Body) -> bool {
    &&& 2 * abs(a.x - b.x) <= a.width + b.width
    &&& 2 * abs(a.y - b.y) <= a.height + b.height
}

/// Whether `a` and `b` overlap.
pub fn collide(a: &Body, b: &Body) -> (r: bool)
    ensures
        r == overlaps(*a, *b),
{
    let dx: i128 = a.x as i128 - b.x as i128;
    let dy: i128 = a.y as i128 - b.y as i128;
    let adx: i128 = if dx < 0 { -dx } else { dx };
    let ady: i128 = if dy < 0 { -dy } else { dy };
    2 * adx <= a.width as i128 + b.width as i128 && 2 * ady <= a.height as i128 + b.height as i128
}

} // verus!
