//! The fixed-width concurrency window: contiguous slices of the listing
//! whose detail fetches run together, one window strictly after another.

use vstd::prelude::*;

verus! {

/// Fixed width of the concurrency window: at most this many detail requests
/// are ever in flight at once. A deliberate fire-and-forget cap, not an
/// adaptive one.
pub const WINDOW_SIZE: usize = 30;

/// The bounds of one window over the listing: the summaries at indices
/// `start..end` (half-open).
#[derive(Clone, Copy, PartialEq, Eq, Structural, Debug)]
pub struct Window {
    pub start: usize,
    pub end: usize,
}

/// Where the window that begins at `start` ends, over a listing of `len`
/// summaries with window width `w`: `w` summaries further on, or at the end
/// of the listing, whichever comes first.
pub open spec fn window_end_spec(start: int, len: int, w: int) -> int {
    if start + w <= len {
        start + w
    } else {
        len
    }
}

/// Window bounding: a window over a non-exhausted listing is never empty,
/// never reaches past the listing, and never holds more than `w` summaries —
/// so no more than `w` detail requests are ever issued together.
pub proof fn lemma_window_bounded(start: int, len: int, w: int)
    requires
        0 <= start < len,
        w >= 1,
    ensures
        start < window_end_spec(start, len, w) <= len,
        window_end_spec(start, len, w) - start <= w,
{
}

/// The end of the window that begins at `start`.
pub fn window_end(start: usize, len: usize, w: usize) -> (end: usize)
    requires
        start < len,
        w >= 1,
    ensures
        end == window_end_spec(start as int, len as int, w as int),
        start < end <= len,
        end - start <= w,
{
    if len - start <= w {
        len
    } else {
        start + w
    }
}

} // verus!
