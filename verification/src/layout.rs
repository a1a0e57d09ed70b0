//! Layout rules for one frame: the fixed window, the centered watermark
//! rectangle, and the sizes of the content groups. Every value here is a
//! deterministic function of the shell's state and the watermark's intrinsic
//! size.

use vstd::prelude::*;

use crate::shell::UiState;

verus! {

/// The window's fixed width, in pixels.
pub const WINDOW_WIDTH: u32 = 1280;

/// The window's fixed height, in pixels.
pub const WINDOW_HEIGHT: u32 = 600;

/// Width of the left content group, in pixels: half the window, less the
/// collapsed panel's width.
pub const LEFT_GROUP_WIDTH: u32 = WINDOW_WIDTH / 2 - 40;

/// Margin kept at the right edge of the right content group, in pixels.
pub const RIGHT_GROUP_MARGIN: u32 = 4;

/// The least coordinate of a span of `inner` pixels centered in a span of
/// `outer` pixels: half the slack, negative when the inner span is the wider
/// one, rounded towards zero.
pub open spec fn centered_min_spec(outer: int, inner: int) -> int {
    if inner <= outer {
        (outer - inner) / 2
    } else {
        -((inner - outer) / 2)
    }
}

/// Centering leaves equal margins on both sides, up to the one pixel a
/// half-odd slack cannot split: the margins sum to the slack and differ by at
/// most one.
pub proof fn lemma_centered_margins(outer: int, inner: int)
    ensures
        centered_min_spec(outer, inner) + (outer - inner - centered_min_spec(outer, inner))
            == outer - inner,
        -1 <= centered_min_spec(outer, inner) - (outer - inner - centered_min_spec(outer, inner)),
        centered_min_spec(outer, inner) - (outer - inner - centered_min_spec(outer, inner)) <= 1,
{
}

/// Computes the least coordinate that centers `inner` pixels in `outer`
/// pixels.
pub fn centered_min(outer: u32, inner: u32) -> (r: i64)
    ensures
        r == centered_min_spec(outer as int, inner as int),
{
    let o = outer as i64;
    let i = inner as i64;
    if i <= o {
        (o - i) / 2
    } else {
        -((i - o) / 2)
    }
}

/// An axis-aligned pixel rectangle, by its corners.
#[derive(Clone, Copy, Debug, PartialEq, Eq, Structural)]
pub struct PixelRect {
    pub min_x: i64,
    pub min_y: i64,
    pub max_x: i64,
    pub max_y: i64,
}

/// Where the watermark is painted: a rectangle of the image's intrinsic size,
/// centered in the fixed window on both axes.
pub fn watermark_rect(wm_width: u32, wm_height: u32) -> (r: PixelRect)
    ensures
        r.min_x == centered_min_spec(WINDOW_WIDTH as int, wm_width as int),
        r.min_y == centered_min_spec(WINDOW_HEIGHT as int, wm_height as int),
        r.max_x == r.min_x + wm_width,
        r.max_y == r.min_y + wm_height,
{
    let min_x = centered_min(WINDOW_WIDTH, wm_width);
    let min_y = centered_min(WINDOW_HEIGHT, wm_height);
    PixelRect {
        min_x,
        min_y,
        max_x: min_x + wm_width as i64,
        max_y: min_y + wm_height as i64,
    }
}

/// Everything a frame's layout needs: the side panel's width, the watermark's
/// rectangle, and the content groups' sizes.
#[derive(Clone, Copy, Debug, PartialEq, Eq, Structural)]
pub struct FrameLayout {
    pub sidepanel_width: u32,
    pub watermark: PixelRect,
    pub left_group_width: u32,
    pub content_height: i64,
}

/// Lays out one frame from the shell's state and the watermark's intrinsic
/// size: the panel keeps the state's width, the watermark is centered in the
/// window, the left group takes its fixed width, and the content row stands
/// one padding short of the window's height at top and bottom.
pub fn frame_layout(ui: &UiState, wm_width: u32, wm_height: u32) -> (r: FrameLayout)
    ensures
        r.sidepanel_width == ui.sidepanel_width,
        r.watermark.min_x == centered_min_spec(WINDOW_WIDTH as int, wm_width as int),
        r.watermark.min_y == centered_min_spec(WINDOW_HEIGHT as int, wm_height as int),
        r.watermark.max_x == r.watermark.min_x + wm_width,
        r.watermark.max_y == r.watermark.min_y + wm_height,
        r.left_group_width == LEFT_GROUP_WIDTH,
        r.content_height == WINDOW_HEIGHT - 2 * (ui.padding as int),
{
    FrameLayout {
        sidepanel_width: ui.sidepanel_width,
        watermark: watermark_rect(wm_width, wm_height),
        left_group_width: LEFT_GROUP_WIDTH,
        content_height: WINDOW_HEIGHT as i64 - 2 * (ui.padding as i64),
    }
}

/// The width left to the right content group, given the width still available
/// in the row: the margin is kept back, and a row narrower than the margin
/// leaves nothing.
pub fn right_group_width(available: u32) -> (r: u32)
    ensures
        r == if available >= RIGHT_GROUP_MARGIN {
            available - RIGHT_GROUP_MARGIN
        } else {
            0
        },
{
    if available >= RIGHT_GROUP_MARGIN {
        available - RIGHT_GROUP_MARGIN
    } else {
        0
    }
}

} // verus!
