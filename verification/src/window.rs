//! The resize state machine of the window shell.
//!
//! Resize events arrive on the event side and are recorded as a pending
//! request; the render loop applies a pending request exactly once,
//! recomputing the aspect ratio and clearing the flag, so repeating the
//! apply without a new request changes nothing.

use vstd::prelude::*;
use crate::fixed::{SCALE, clip64, tdiv, lemma_tdiv_bound};

verus! {

/// The aspect ratio `width / height` as a fixed-point number.
pub open spec fn aspect_ratio_s(w: u32, h: u32) -> i64
    recommends
        h > 0,
{
    clip64(tdiv((w as int) * (SCALE as int), h as int))
}

pub fn aspect_ratio(w: u32, h: u32) -> (r: i64)
    requires
        h > 0,
    ensures
        r == aspect_ratio_s(w, h),
{
    proof {
        assert((w as int) * (SCALE as int) <= i128::MAX as int) by (nonlinear_arith)
            requires
                0 <= w as int <= u32::MAX as int,
        ;
    }
    let p: i128 = (w as i128) * (SCALE as i128);
    proof {
        lemma_tdiv_bound(p as int, h as int);
    }
    let q: i128 = match p.checked_div(h as i128) {
        Some(v) => v,
        None => 0,
    };
    if q > i64::MAX as i128 {
        i64::MAX
    } else if q < i64::MIN as i128 {
        i64::MIN
    } else {
        q as i64
    }
}

/// The window dimensions, the aspect ratio last applied, and whether a
/// resize request is waiting.
pub struct WindowState {
    pub width: u32,
    pub height: u32,
    pub pending: bool,
    pub aspect: i64,
}

impl WindowState {
    /// Dimensions stay positive in height, so the aspect ratio is
    /// always defined.
    pub open spec fn wf(self) -> bool {
        self.height > 0
    }

    pub fn new(width: u32, height: u32) -> (r: WindowState)
        requires
            height > 0,
        ensures
            r.wf(),
            r.width == width,
            r.height == height,
            !r.pending,
            r.aspect == aspect_ratio_s(width, height),
    {
        let aspect = aspect_ratio(width, height);
        WindowState { width, height, pending: false, aspect }
    }

    /// Records a resize event: the new dimensions are stored and marked
    /// pending; nothing is applied yet.
    pub fn request_resize(&mut self, width: u32, height: u32)
        requires
            old(self).wf(),
            height > 0,
        ensures
            final(self).wf(),
            final(self).width == width,
            final(self).height == height,
            final(self).pending,
            final(self).aspect == old(self).aspect,
    {
        self.width = width;
        self.height = height;
        self.pending = true;
    }

    /// Applies a pending resize exactly once: when a request is waiting,
    /// returns its dimensions for the viewport call, recomputes the
    /// aspect ratio and clears the flag; with no request waiting it
    /// returns nothing and changes nothing, so a second apply after the
    /// flag is cleared produces no further viewport call.
    pub fn apply_resize(&mut self) -> (r: Option<(u32, u32)>)
        requires
            old(self).wf(),
        ensures
            final(self).wf(),
            old(self).pending ==> {
                &&& r == Some((old(self).width, old(self).height))
                &&& !final(self).pending
                &&& final(self).width == old(self).width
                &&& final(self).height == old(self).height
                &&& final(self).aspect == aspect_ratio_s(old(self).width, old(self).height)
            },
            !old(self).pending ==> r == None::<(u32, u32)> && *final(self) == *old(self),
    {
        if self.pending {
            self.pending = false;
            self.aspect = aspect_ratio(self.width, self.height);
            Some((self.width, self.height))
        } else {
            None
        }
    }
}

} // verus!
