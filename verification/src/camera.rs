//! The camera: where it stands at the start and the parameters of its
//! projection.
//!
//! Single-precision values are held by their bit patterns, so the clip
//! distances, which are positive and finite, can be compared as integers. The
//! aspect ratio is held as the pair of pixel counts that it is the quotient of,
//! which is exact.

use vstd::prelude::*;
use crate::bits::{positive_finite, twice_times, HALF, ONE, TWO, ZERO};

verus! {

/// The pattern of 45.0, the vertical field of view in degrees.
pub const FOVY: u32 = 0x4234_0000;

/// The pattern of 0.1, the near clip distance.
pub const ZNEAR: u32 = 0x3dcc_cccd;

/// The pattern of 100.0, the far clip distance.
pub const ZFAR: u32 = 0x42c8_0000;

/// The pattern of 0.05, the length of one step of the eye.
pub const MOVE_STEP: u32 = 0x3d4c_cccd;

/// The entry of the depth correction in column `c` and row `r`. The matrix
/// leaves x and y alone, halves z and adds half of w to it, and leaves w alone.
pub open spec fn depth_correction_entry(c: int, r: int) -> u32 {
    if c == r {
        if c == 2 {
            HALF
        } else {
            ONE
        }
    } else if c == 3 && r == 2 {
        HALF
    } else {
        ZERO
    }
}

/// The matrix that follows the projection, by columns: it maps depths from the
/// range -1 to 1 onto the range 0 to 1.
pub fn depth_correction() -> (m: [[u32; 4]; 4])
    ensures
        forall|c: int, r: int|
            0 <= c < 4 && 0 <= r < 4 ==> #[trigger] m[c][r] == depth_correction_entry(c, r),
{
    let c0: [u32; 4] = [ONE, ZERO, ZERO, ZERO];
    let c1: [u32; 4] = [ZERO, ONE, ZERO, ZERO];
    let c2: [u32; 4] = [ZERO, ZERO, HALF, ZERO];
    let c3: [u32; 4] = [ZERO, ZERO, HALF, ONE];
    [c0, c1, c2, c3]
}

/// Twice row `r` of the product of the depth correction and the vector
/// `(x, y, z, w)`.
pub open spec fn twice_corrected(r: int, x: int, y: int, z: int, w: int) -> int {
    twice_times(depth_correction_entry(0, r), x) + twice_times(depth_correction_entry(1, r), y)
        + twice_times(depth_correction_entry(2, r), z) + twice_times(
        depth_correction_entry(3, r),
        w,
    )
}

/// The depth correction maps the point `(x, y, z, w)` to `(x, y, (z + w) / 2, w)`.
/// So a depth between `-w` and `w`, which is between -1 and 1 after the division
/// by `w`, comes to lie between 0 and `w`, which is between 0 and 1 after it; the
/// near plane goes to 0 and the far plane to 1.
pub proof fn lemma_depth_correction(x: int, y: int, z: int, w: int)
    ensures
        twice_corrected(0, x, y, z, w) == 2 * x,
        twice_corrected(1, x, y, z, w) == 2 * y,
        twice_corrected(2, x, y, z, w) == z + w,
        twice_corrected(3, x, y, z, w) == 2 * w,
        -w <= z <= w ==> 0 <= twice_corrected(2, x, y, z, w) <= twice_corrected(3, x, y, z, w),
        z == -w ==> twice_corrected(2, x, y, z, w) == 0,
        z == w ==> twice_corrected(2, x, y, z, w) == twice_corrected(3, x, y, z, w),
{
}

/// An aspect ratio: `width` divided by `height`.
#[derive(Clone, Copy, Debug, PartialEq, Eq, Structural)]
pub struct Aspect {
    pub width: u32,
    pub height: u32,
}

impl Aspect {
    /// The ratio is defined and greater than zero.
    pub open spec fn wf(&self) -> bool {
        self.width > 0 && self.height > 0
    }

    /// The ratio equals `num / den` as a fraction.
    pub open spec fn is_ratio(&self, num: int, den: int) -> bool {
        &&& self.height != 0
        &&& den != 0
        &&& self.width * den == num * self.height
    }
}

/// The camera as it is set up: eye, target and up vector by component, the
/// aspect ratio, the vertical field of view in degrees and the two clip
/// distances.
#[derive(Clone, Copy, Debug, PartialEq, Eq)]
pub struct Camera {
    pub eye: [u32; 3],
    pub target: [u32; 3],
    pub up: [u32; 3],
    pub aspect: Aspect,
    pub fovy: u32,
    pub znear: u32,
    pub zfar: u32,
}

impl Camera {
    /// The clip distances are positive and finite with near below far, the field
    /// of view is positive and finite, and the aspect ratio is greater than zero.
    pub open spec fn wf(&self) -> bool {
        &&& positive_finite(self.znear)
        &&& positive_finite(self.zfar)
        &&& self.znear < self.zfar
        &&& positive_finite(self.fovy)
        &&& self.aspect.wf()
    }

    /// The camera that `new` makes.
    pub open spec fn spec_new(width: u32, height: u32) -> Camera {
        Camera {
            eye: [ZERO, ONE, TWO],
            target: [ZERO, ZERO, ZERO],
            up: [ZERO, ONE, ZERO],
            aspect: Aspect { width, height },
            fovy: FOVY,
            znear: ZNEAR,
            zfar: ZFAR,
        }
    }

    /// The camera at the start: one unit above and two units behind the origin,
    /// looking at the origin, with +Y up, a field of view of 45 degrees, clip
    /// distances 0.1 and 100, and the aspect ratio `width / height`.
    pub fn new(width: u32, height: u32) -> (r: Camera)
        requires
            width > 0,
            height > 0,
        ensures
            r == Camera::spec_new(width, height),
            r.eye@ == seq![ZERO, ONE, TWO],
            r.target@ == seq![ZERO, ZERO, ZERO],
            r.up@ == seq![ZERO, ONE, ZERO],
            r.aspect == (Aspect { width, height }),
            r.fovy == FOVY,
            r.znear == ZNEAR,
            r.zfar == ZFAR,
            r.wf(),
    {
        let r = Camera {
            eye: [ZERO, ONE, TWO],
            target: [ZERO, ZERO, ZERO],
            up: [ZERO, ONE, ZERO],
            aspect: Aspect { width, height },
            fovy: FOVY,
            znear: ZNEAR,
            zfar: ZFAR,
        };
        assert(r.eye@ =~= seq![ZERO, ONE, TWO]);
        assert(r.target@ =~= seq![ZERO, ZERO, ZERO]);
        assert(r.up@ =~= seq![ZERO, ONE, ZERO]);
        r
    }

    /// Sets the aspect ratio to `width / height` and leaves the rest alone.
    pub fn set_aspect(&mut self, width: u32, height: u32)
        requires
            height > 0,
        ensures
            final(self).aspect == (Aspect { width, height }),
            final(self).aspect.is_ratio(width as int, height as int),
            final(self).eye == old(self).eye,
            final(self).target == old(self).target,
            final(self).up == old(self).up,
            final(self).fovy == old(self).fovy,
            final(self).znear == old(self).znear,
            final(self).zfar == old(self).zfar,
            old(self).wf() && width > 0 ==> final(self).wf(),
    {
        self.aspect = Aspect { width, height };
    }
}

} // verus!
