//! The window of a standalone host on the desktop.

use vstd::prelude::*;

verus! {

/// The bit of a window's style mask that lets the user resize the window.
pub const RESIZABLE_STYLE: usize = 8;

/// The bounds within which the user resizes the window, in logical points.
#[derive(Clone, Copy, Debug, PartialEq, Eq, Structural)]
pub struct ResizeConstraints {
    pub min_width: u32,
    pub min_height: u32,
    pub max_width: u32,
    pub max_height: u32,
}

/// What the native window is told to become resizable.
#[derive(Clone, Copy, Debug, PartialEq, Eq)]
pub struct ResizePlan {
    pub style_mask: usize,
    pub content_min_size: (u32, u32),
    pub content_max_size: (u32, u32),
}

/// What makes a window resizable within bounds: the bit for it is added to the
/// window's style mask, and the content gets the bounds. There is nothing to do
/// without a native window, whose style mask is the first argument.
pub fn enable_resize(style_mask: Option<usize>, constraints: ResizeConstraints) -> (plan: Option<
    ResizePlan,
>)
    ensures
        plan == match style_mask {
            Some(mask) => Some(
                ResizePlan {
                    style_mask: mask | RESIZABLE_STYLE,
                    content_min_size: (constraints.min_width, constraints.min_height),
                    content_max_size: (constraints.max_width, constraints.max_height),
                },
            ),
            None => None,
        },
{
    match style_mask {
        Some(mask) => Some(
            ResizePlan {
                style_mask: mask | RESIZABLE_STYLE,
                content_min_size: (constraints.min_width, constraints.min_height),
                content_max_size: (constraints.max_width, constraints.max_height),
            },
        ),
        None => None,
    }
}

/// An extent in whole logical points, of which there is at least one.
pub open spec fn extent(points: u32) -> u32 {
    if points == 0 {
        1
    } else {
        points
    }
}

/// The extent of a view that is so many points wide or high.
fn at_least_one(points: u32) -> (result: u32)
    ensures
        result == extent(points),
{
    if points == 0 {
        1
    } else {
        points
    }
}

/// The size of the window's content in whole logical points, at least one each
/// way. The argument is the size of the content view, rounded; there is none
/// without a native window or without a content view.
pub fn content_size(view: Option<(u32, u32)>) -> (size: Option<(u32, u32)>)
    ensures
        size == match view {
            Some((width, height)) => Some((extent(width), extent(height))),
            None => None,
        },
{
    match view {
        Some((width, height)) => Some((at_least_one(width), at_least_one(height))),
        None => None,
    }
}

/// Making a window resizable sets the one bit for it, keeps every other bit of
/// the style mask, and changes nothing the second time.
pub proof fn law_only_the_resizable_bit_changes(mask: usize)
    ensures
        (mask | RESIZABLE_STYLE) & RESIZABLE_STYLE == RESIZABLE_STYLE,
        (mask | RESIZABLE_STYLE) & !RESIZABLE_STYLE == mask & !RESIZABLE_STYLE,
        (mask | RESIZABLE_STYLE) | RESIZABLE_STYLE == mask | RESIZABLE_STYLE,
{
    assert((mask | 8) & 8 == 8) by (bit_vector);
    assert((mask | 8) & !8usize == mask & !8usize) by (bit_vector);
    assert((mask | 8) | 8 == mask | 8) by (bit_vector);
}

/// Content has at least one point each way, and its own extent wherever that is
/// one or more.
pub proof fn law_extent_is_at_least_one(points: u32)
    ensures
        extent(points) >= 1,
        points >= 1 ==> extent(points) == points,
        extent(points) <= points || extent(points) == 1,
{
}

/// A window that is made resizable keeps its style but for the bit for that,
/// which is set, and its content is bounded by exactly the widths and heights of
/// the constraints. Without a window there is nothing to do.
pub proof fn law_window_is_bounded_by_its_constraints(
    style_mask: Option<usize>,
    constraints: ResizeConstraints,
    plan: Option<ResizePlan>,
)
    requires
        call_ensures(enable_resize, (style_mask, constraints), plan),
    ensures
        plan is Some <==> style_mask is Some,
        plan matches Some(plan) ==> {
            &&& plan.style_mask & 8 == 8
            &&& plan.style_mask & !8usize == style_mask->0 & !8usize
            &&& plan.content_min_size.0 == constraints.min_width
            &&& plan.content_min_size.1 == constraints.min_height
            &&& plan.content_max_size.0 == constraints.max_width
            &&& plan.content_max_size.1 == constraints.max_height
        },
{
    if style_mask is Some {
        law_only_the_resizable_bit_changes(style_mask->0);
    }
}

/// Content that has a size is as large as its view, but for a side of nothing,
/// which counts as one point.
pub proof fn law_content_is_as_large_as_its_view(
    view: Option<(u32, u32)>,
    size: Option<(u32, u32)>,
)
    requires
        call_ensures(content_size, (view,), size),
    ensures
        size is Some <==> view is Some,
        view matches Some(view) ==> size matches Some(size) && {
            &&& size.0 >= 1 && size.1 >= 1
            &&& view.0 >= 1 ==> size.0 == view.0
            &&& view.1 >= 1 ==> size.1 == view.1
            &&& view.0 == 0 ==> size.0 == 1
            &&& view.1 == 0 ==> size.1 == 1
        },
{
}

} // verus!
