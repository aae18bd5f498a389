use vstd::prelude::*;
use vstd::arithmetic::div_mod::lemma_div_basics;
use vstd::arithmetic::div_mod::lemma_div_is_ordered_by_denominator;
use vstd::arithmetic::div_mod::lemma_div_pos_is_pos;
use vstd::arithmetic::div_mod::lemma_fundamental_div_mod;
use vstd::arithmetic::div_mod::lemma_mod_bound;
use vstd::arithmetic::div_mod::lemma_multiply_divide_lt;
use vstd::arithmetic::mul::lemma_mul_nonnegative;
use vstd::arithmetic::mul::lemma_mul_is_commutative;
use vstd::arithmetic::mul::lemma_mul_upper_bound;
use crate::geometry::AspectRatio;
use crate::geometry::Vector;

verus! {

/// The way to adjust the content when the size of the window changes.
#[derive(Copy, Clone, Debug)]
pub enum ResizeStrategy {
    /// Use black bars to keep the size exactly the same.
    MaintainSize,
    /// Fill the screen, possibly cutting off content in the process.
    Stretch,
    /// Take up as much of the screen as possible, but use letterboxing if
    /// necessary.
    Letterbox,
}

/// The largest content size that fits a `ratio_w : ratio_h` target inside a
/// `win_w` by `win_h` window while keeping the target's aspect ratio: one
/// axis spans the window, the other is scaled down and truncated.
pub open spec fn scaled_dims(ratio_w: int, ratio_h: int, win_w: int, win_h: int) -> (int, int) {
    if win_w * ratio_h > ratio_w * win_h {
        ((ratio_w * win_h) / ratio_h, win_h)
    } else if win_w * ratio_h < ratio_w * win_h {
        (win_w, (win_w * ratio_h) / ratio_w)
    } else {
        (win_w, win_h)
    }
}

/// The offset that centers a `dims` rectangle in the window: along each
/// axis, half the slack, truncated toward zero.
pub open spec fn centered_offset(dims: (int, int), win_w: int, win_h: int) -> (int, int) {
    ((win_w - dims.0) / 2, (win_h - dims.1) / 2)
}

/// What `ResizeStrategy::resize` returns: the offset and the size of the
/// content rectangle. Stretch fills the window; MaintainSize and Letterbox
/// share the ratio-preserving, centered letterbox rectangle.
pub open spec fn resize_spec(
    strategy: ResizeStrategy,
    ratio_w: int,
    ratio_h: int,
    win_w: int,
    win_h: int,
) -> ((int, int), (int, int)) {
    match strategy {
        ResizeStrategy::Stretch => ((0, 0), (win_w, win_h)),
        _ => {
            let dims = scaled_dims(ratio_w, ratio_h, win_w, win_h);
            (centered_offset(dims, win_w, win_h), dims)
        },
    }
}

impl ResizeStrategy {
    /// Calculate the content offset and the content size for a window of
    /// `new_width` by `new_height` pixels and the given target aspect
    /// ratio.
    ///
    /// Stretch returns the full window at offset zero. MaintainSize and
    /// Letterbox return the largest rectangle with the target's aspect
    /// ratio that fits in the window, centered; for MaintainSize the
    /// caller layers its fixed content size on top of this shared
    /// centering computation.
    pub fn resize(self, target_ratio: AspectRatio, new_width: u32, new_height: u32) -> (r: (
        Vector,
        Vector,
    ))
        requires
            target_ratio.valid(),
            1 <= new_width <= i32::MAX,
            1 <= new_height <= i32::MAX,
        ensures
            (r.0@, r.1@) == resize_spec(
                self,
                target_ratio.width as int,
                target_ratio.height as int,
                new_width as int,
                new_height as int,
            ),
    {
        match self {
            ResizeStrategy::Stretch => (
                Vector::zero(),
                Vector::newi(new_width as i32, new_height as i32),
            ),
            ResizeStrategy::MaintainSize | ResizeStrategy::Letterbox => {
                let ratio_w = target_ratio.width;
                let ratio_h = target_ratio.height;
                proof {
                    lemma_mul_upper_bound(new_width as int, u32::MAX as int, ratio_h as int, u32::MAX as int);
                    lemma_mul_upper_bound(ratio_w as int, u32::MAX as int, new_height as int, u32::MAX as int);
                }
                let window_cross: u64 = (new_width as u64) * (ratio_h as u64);
                let target_cross: u64 = (ratio_w as u64) * (new_height as u64);
                let (content_w, content_h): (u32, u32) = if window_cross > target_cross {
                    let scaled: u64 = target_cross / (ratio_h as u64);
                    proof {
                        lemma_mul_is_commutative(new_width as int, ratio_h as int);
                        lemma_multiply_divide_lt(
                            ratio_w as int * new_height as int,
                            ratio_h as int,
                            new_width as int,
                        );
                        lemma_div_pos_is_pos(ratio_w as int * new_height as int, ratio_h as int);
                    }
                    (scaled as u32, new_height)
                } else if window_cross < target_cross {
                    let scaled: u64 = window_cross / (ratio_w as u64);
                    proof {
                        lemma_mul_is_commutative(ratio_w as int, new_height as int);
                        lemma_multiply_divide_lt(
                            new_width as int * ratio_h as int,
                            ratio_w as int,
                            new_height as int,
                        );
                        lemma_div_pos_is_pos(new_width as int * ratio_h as int, ratio_w as int);
                    }
                    (new_width, scaled as u32)
                } else {
                    (new_width, new_height)
                };
                let offset_x: u32 = (new_width - content_w) / 2;
                let offset_y: u32 = (new_height - content_h) / 2;
                (
                    Vector::newi(offset_x as i32, offset_y as i32),
                    Vector::newi(content_w as i32, content_h as i32),
                )
            },
        }
    }
}

/// The scaled content size fits inside the window along both axes.
proof fn lemma_scaled_dims_fit(ratio_w: int, ratio_h: int, win_w: int, win_h: int)
    requires
        ratio_w >= 1,
        ratio_h >= 1,
        win_w >= 1,
        win_h >= 1,
    ensures
        ({
            let dims = scaled_dims(ratio_w, ratio_h, win_w, win_h);
            0 <= dims.0 <= win_w && 0 <= dims.1 <= win_h
        }),
{
    if win_w * ratio_h > ratio_w * win_h {
        lemma_mul_is_commutative(win_w, ratio_h);
        lemma_mul_nonnegative(ratio_w, win_h);
        lemma_multiply_divide_lt(ratio_w * win_h, ratio_h, win_w);
        lemma_div_pos_is_pos(ratio_w * win_h, ratio_h);
    } else if win_w * ratio_h < ratio_w * win_h {
        lemma_mul_nonnegative(win_w, ratio_h);
        lemma_multiply_divide_lt(win_w * ratio_h, ratio_w, win_h);
        lemma_div_pos_is_pos(win_w * ratio_h, ratio_w);
    }
}

/// Centering an extent that fits in a window keeps it inside the window:
/// half the slack is nonnegative, and adding the extent back stays within.
proof fn lemma_center_in_slack(extent: int, window: int)
    requires
        0 <= extent <= window,
    ensures
        0 <= (window - extent) / 2,
        (window - extent) / 2 + extent <= window,
{
    let slack = window - extent;
    lemma_div_pos_is_pos(slack, 2);
    lemma_div_is_ordered_by_denominator(slack, 1, 2);
    lemma_div_basics(slack);
}

/// Fitting is a pure function of its arguments: any two results that both
/// satisfy the resize contract for the same strategy, ratio and window are
/// equal, so calling twice with identical arguments yields identical
/// results.
pub proof fn lemma_resize_deterministic(
    strategy: ResizeStrategy,
    ratio_w: int,
    ratio_h: int,
    win_w: int,
    win_h: int,
    first: ((int, int), (int, int)),
    second: ((int, int), (int, int)),
)
    requires
        first == resize_spec(strategy, ratio_w, ratio_h, win_w, win_h),
        second == resize_spec(strategy, ratio_w, ratio_h, win_w, win_h),
    ensures
        first == second,
{
}

/// Containment: for Letterbox and Stretch the content rectangle lies
/// inside the window: the offset is nonnegative, `offset.x + size.x`
/// does not exceed the window width, and `offset.y + size.y` does not
/// exceed the window height.
pub proof fn lemma_resize_contained(
    strategy: ResizeStrategy,
    ratio_w: int,
    ratio_h: int,
    win_w: int,
    win_h: int,
)
    requires
        ratio_w >= 1,
        ratio_h >= 1,
        win_w >= 1,
        win_h >= 1,
        strategy is Letterbox || strategy is Stretch,
    ensures
        ({
            let (offset, size) = resize_spec(strategy, ratio_w, ratio_h, win_w, win_h);
            0 <= offset.0 && 0 <= offset.1 && offset.0 + size.0 <= win_w && offset.1 + size.1
                <= win_h
        }),
{
    if strategy is Letterbox {
        let dims = scaled_dims(ratio_w, ratio_h, win_w, win_h);
        lemma_scaled_dims_fit(ratio_w, ratio_h, win_w, win_h);
        lemma_center_in_slack(dims.0, win_w);
        lemma_center_in_slack(dims.1, win_h);
    }
}

/// Centering symmetry: along each axis the offset is half the remaining
/// slack, truncated: `offset.x == (win_w - size.x) / 2`, and analogously
/// for y.
pub proof fn lemma_resize_centered(
    strategy: ResizeStrategy,
    ratio_w: int,
    ratio_h: int,
    win_w: int,
    win_h: int,
)
    requires
        ratio_w >= 1,
        ratio_h >= 1,
        win_w >= 1,
        win_h >= 1,
    ensures
        ({
            let (offset, size) = resize_spec(strategy, ratio_w, ratio_h, win_w, win_h);
            offset.0 == (win_w - size.0) / 2 && offset.1 == (win_h - size.1) / 2
        }),
{
    lemma_div_basics(2);
}

/// Aspect preservation for Letterbox: cross-multiplied, the content size
/// matches the target ratio up to the truncation error. Dividing both
/// inequalities by `ratio_h * size.y` (whenever `size.y > 0`) bounds
/// `size.x / size.y - ratio_w / ratio_h` strictly between `-1 / size.y`
/// and `ratio_w / (ratio_h * size.y)`: the aspect ratio of the content
/// equals the target except for the sub-pixel loss that truncation
/// allows.
pub proof fn lemma_letterbox_aspect(ratio_w: int, ratio_h: int, win_w: int, win_h: int)
    requires
        ratio_w >= 1,
        ratio_h >= 1,
        win_w >= 1,
        win_h >= 1,
    ensures
        ({
            let size = resize_spec(ResizeStrategy::Letterbox, ratio_w, ratio_h, win_w, win_h).1;
            ratio_w * size.1 - ratio_h * size.0 < ratio_h && ratio_h * size.0 - ratio_w * size.1
                < ratio_w
        }),
{
    if win_w * ratio_h > ratio_w * win_h {
        lemma_fundamental_div_mod(ratio_w * win_h, ratio_h);
        lemma_mod_bound(ratio_w * win_h, ratio_h);
    } else if win_w * ratio_h < ratio_w * win_h {
        lemma_mul_is_commutative(win_w, ratio_h);
        lemma_fundamental_div_mod(win_w * ratio_h, ratio_w);
        lemma_mod_bound(win_w * ratio_h, ratio_w);
    } else {
        lemma_mul_is_commutative(win_w, ratio_h);
    }
}

/// Exact fit: when the window ratio equals the target ratio exactly
/// (`win_w * ratio_h == ratio_w * win_h`), every strategy returns the
/// full window at offset zero: no bars on either axis.
pub proof fn lemma_resize_exact_fit(
    strategy: ResizeStrategy,
    ratio_w: int,
    ratio_h: int,
    win_w: int,
    win_h: int,
)
    requires
        ratio_w >= 1,
        ratio_h >= 1,
        win_w >= 1,
        win_h >= 1,
        win_w * ratio_h == ratio_w * win_h,
    ensures
        resize_spec(strategy, ratio_w, ratio_h, win_w, win_h) == ((0int, 0int), (win_w, win_h)),
{
    lemma_div_basics(2);
}

} // verus!
