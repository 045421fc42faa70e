//! The projection cache of a scene: an aspect ratio and a dirty flag.
//!
//! The aspect ratio is kept as the exact fraction `width / height`, so the
//! tolerance check is integer arithmetic.

use vstd::prelude::*;

verus! {

/// The tolerance of the aspect ratio is one part in this many: two ratios
/// count as different when they lie more than `1 / 8388608` apart.
pub const TOLERANCE_PARTS: u64 = 8388608;

/// An aspect ratio as a fraction of pixel counts.
#[derive(Clone, Copy, Debug, PartialEq, Eq, Structural)]
pub struct AspectRatio {
    pub width: u32,
    pub height: u32,
}

/// Distance between two integers.
pub open spec fn distance(a: int, b: int) -> int {
    if a >= b {
        a - b
    } else {
        b - a
    }
}

impl AspectRatio {
    /// The denominator is not zero.
    pub open spec fn wf(self) -> bool {
        self.height > 0
    }

    /// The ratio of a surface of `width` by `height` pixels; a height of
    /// zero counts as one.
    pub open spec fn of(width: u32, height: u32) -> AspectRatio {
        AspectRatio {
            width,
            height: if height == 0 {
                1
            } else {
                height
            },
        }
    }

    /// Whether two ratios lie more than the tolerance apart:
    /// `|a.width / a.height - b.width / b.height| > 1 / TOLERANCE_PARTS`,
    /// with both sides multiplied by the heights.
    pub open spec fn differs_from(self, other: AspectRatio) -> bool {
        distance(self.width * other.height, other.width * self.height) * TOLERANCE_PARTS
            > self.height * other.height
    }

    /// Whether two ratios are the same number.
    pub open spec fn same_as(self, other: AspectRatio) -> bool {
        self.width * other.height == other.width * self.height
    }
}

/// The projection cache as contracts see it.
pub struct Projection {
    /// The ratio for which the projection was or will be computed.
    pub ratio: AspectRatio,
    /// Whether the projection has to be recomputed before the next render.
    pub dirty: bool,
}

impl Projection {
    /// The cache of a new scene: ratio one, projection not yet computed.
    pub open spec fn initial() -> Projection {
        Projection { ratio: AspectRatio { width: 1, height: 1 }, dirty: true }
    }

    pub open spec fn wf(self) -> bool {
        self.ratio.wf()
    }

    /// A resize: a ratio beyond the tolerance replaces the stored one and
    /// marks the projection dirty; one within it changes nothing.
    pub open spec fn resized(self, width: u32, height: u32) -> Projection {
        let ratio = AspectRatio::of(width, height);
        if ratio.differs_from(self.ratio) {
            Projection { ratio, dirty: true }
        } else {
            self
        }
    }

    /// The cache after the lazy recomputation.
    pub open spec fn refreshed(self) -> Projection {
        Projection { dirty: false, ..self }
    }
}

/// Aspect ratio and dirty flag of a scene's projection.
pub struct ProjectionState {
    ratio: AspectRatio,
    dirty: bool,
}

impl View for ProjectionState {
    type V = Projection;

    closed spec fn view(&self) -> Projection {
        Projection { ratio: self.ratio, dirty: self.dirty }
    }
}

impl ProjectionState {
    #[verifier::type_invariant]
    spec fn ratio_is_defined(self) -> bool {
        self.ratio.wf()
    }

    /// The cache of a new scene.
    pub fn new() -> (state: ProjectionState)
        ensures
            state@ == Projection::initial(),
    {
        ProjectionState { ratio: AspectRatio { width: 1, height: 1 }, dirty: true }
    }

    /// The stored ratio; its height is never zero.
    pub fn aspect_ratio(&self) -> (ratio: AspectRatio)
        ensures
            ratio == self@.ratio,
            ratio.wf(),
    {
        proof {
            use_type_invariant(self);
        }
        self.ratio
    }

    /// Whether the projection is stale.
    pub fn is_dirty(&self) -> (dirty: bool)
        ensures
            dirty == self@.dirty,
    {
        self.dirty
    }

    /// Takes note of a surface of `width` by `height` pixels. The stored
    /// ratio changes, and the projection becomes dirty, only if the new
    /// ratio lies beyond the tolerance of the stored one.
    pub fn set_aspect_ratio(&mut self, width: u32, height: u32)
        ensures
            final(self)@ == old(self)@.resized(width, height),
            final(self)@.wf(),
    {
        proof {
            use_type_invariant(&*self);
        }
        let ratio = AspectRatio {
            width,
            height: if height == 0 {
                1
            } else {
                height
            },
        };
        if differs(ratio, self.ratio) {
            self.ratio = ratio;
            self.dirty = true;
        }
    }

    /// Says whether the projection has to be recomputed now, and clears the
    /// dirty flag: `true` exactly when the cache was dirty.
    pub fn update_projection(&mut self) -> (recompute: bool)
        ensures
            recompute == old(self)@.dirty,
            final(self)@ == old(self)@.refreshed(),
    {
        proof {
            use_type_invariant(&*self);
        }
        let recompute = self.dirty;
        self.dirty = false;
        recompute
    }
}

/// The tolerance check on two ratios.
fn differs(a: AspectRatio, b: AspectRatio) -> (result: bool)
    ensures
        result == a.differs_from(b),
{
    let cross_a: u64 = product(a.width, b.height);
    let cross_b: u64 = product(b.width, a.height);
    let heights: u64 = product(a.height, b.height);
    let gap: u64 = if cross_a >= cross_b {
        cross_a - cross_b
    } else {
        cross_b - cross_a
    };
    assert(gap as u128 * TOLERANCE_PARTS as u128 <= 0xFFFF_FFFF_FFFF_FFFF * 8388608)
        by (nonlinear_arith)
        requires
            gap <= 0xFFFF_FFFF_FFFF_FFFF,
            TOLERANCE_PARTS == 8388608,
    ;
    let scaled: u128 = gap as u128 * TOLERANCE_PARTS as u128;
    scaled > heights as u128
}

/// The product of two pixel counts.
fn product(a: u32, b: u32) -> (p: u64)
    ensures
        p == a * b,
{
    assert(a * b <= 0xFFFF_FFFF * 0xFFFF_FFFF) by (nonlinear_arith)
        requires
            0 <= a <= 0xFFFF_FFFF,
            0 <= b <= 0xFFFF_FFFF,
    ;
    a as u64 * b as u64
}

/// The lazy recomputation is idempotent: right after one, a second finds
/// nothing to do.
pub proof fn lemma_refresh_is_idempotent(cache: Projection)
    ensures
        !cache.refreshed().dirty,
        cache.refreshed().refreshed() == cache.refreshed(),
{
}

/// A resize to the stored ratio, or to one within its tolerance, never makes
/// a clean cache dirty.
pub proof fn lemma_close_ratio_keeps_clean(cache: Projection, width: u32, height: u32)
    requires
        !AspectRatio::of(width, height).differs_from(cache.ratio),
    ensures
        cache.resized(width, height) == cache,
{
}

/// Of two resizes whose ratios lie within the tolerance of each other, with
/// a recomputation after each, at most the first recomputes, as long as the
/// second ratio is not further than the tolerance from a stored ratio that
/// the first one left in place.
pub proof fn lemma_second_resize_does_not_recompute(
    cache: Projection,
    first: (u32, u32),
    second: (u32, u32),
)
    requires
        cache.wf(),
        !AspectRatio::of(second.0, second.1).differs_from(AspectRatio::of(first.0, first.1)),
        AspectRatio::of(first.0, first.1).differs_from(cache.ratio) || !AspectRatio::of(
            second.0,
            second.1,
        ).differs_from(cache.ratio),
    ensures
        ({
            let after_first = cache.resized(first.0, first.1).refreshed();
            let after_second = after_first.resized(second.0, second.1);
            &&& !after_second.dirty
            &&& after_second == after_first
        }),
{
}

/// Two surfaces of the same ratio are equally far from any third ratio.
pub proof fn lemma_same_ratio_same_verdict(a: AspectRatio, b: AspectRatio, stored: AspectRatio)
    requires
        a.wf(),
        b.wf(),
        stored.wf(),
        a.same_as(b),
    ensures
        !a.differs_from(b),
        a.differs_from(stored) == b.differs_from(stored),
{
    let aw = a.width as int;
    let ah = a.height as int;
    let bw = b.width as int;
    let bh = b.height as int;
    let sw = stored.width as int;
    let sh = stored.height as int;
    let k = TOLERANCE_PARTS as int;
    let da = distance(aw * sh, sw * ah);
    let db = distance(bw * sh, sw * bh);
    assert(distance(aw * bh, bw * ah) == 0);
    assert(0 * k == 0);
    assert(ah * bh > 0) by (nonlinear_arith)
        requires
            ah > 0,
            bh > 0,
    ;
    // The two gaps are in proportion to the heights.
    assert(da * bh == db * ah) by (nonlinear_arith)
        requires
            aw * bh == bw * ah,
            da == if aw * sh >= sw * ah {
                aw * sh - sw * ah
            } else {
                sw * ah - aw * sh
            },
            db == if bw * sh >= sw * bh {
                bw * sh - sw * bh
            } else {
                sw * bh - bw * sh
            },
            ah > 0,
            bh > 0,
            sh > 0,
    ;
    assert((da * k > ah * sh) == (db * k > bh * sh)) by (nonlinear_arith)
        requires
            da * bh == db * ah,
            ah > 0,
            bh > 0,
            sh > 0,
            k > 0,
            da >= 0,
            db >= 0,
    ;
}

/// Two resizes of the same ratio, with a recomputation after each: the
/// projection is recomputed at most once.
pub proof fn lemma_repeated_ratio_recomputes_once(
    cache: Projection,
    first: (u32, u32),
    second: (u32, u32),
)
    requires
        cache.wf(),
        AspectRatio::of(first.0, first.1).same_as(AspectRatio::of(second.0, second.1)),
    ensures
        ({
            let after_first = cache.resized(first.0, first.1).refreshed();
            let after_second = after_first.resized(second.0, second.1);
            &&& !after_second.dirty
            &&& after_second == after_first
        }),
{
    let a = AspectRatio::of(first.0, first.1);
    let b = AspectRatio::of(second.0, second.1);
    lemma_same_ratio_same_verdict(a, b, cache.ratio);
    lemma_same_ratio_same_verdict(b, a, a);
    lemma_second_resize_does_not_recompute(cache, first, second);
}

} // verus!
