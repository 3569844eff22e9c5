//! The depth a camera's projection assigns to a point, in exact arithmetic.
//!
//! The perspective projection takes a point at view-space depth `z` (the
//! camera looks down `-z`) to clip coordinates with
//! `z_clip = (far + near) / (near - far) * z + 2 * far * near / (near - far)`
//! and `w_clip = -z`, which puts the visible range at `z_clip / w_clip` in
//! `[-1, 1]`. The clip-convention correction then halves that range and
//! shifts it: `z' = z_clip / 2 + w_clip / 2`, so that depth `z' / w_clip`
//! lies in `[0, 1]`.
//!
//! Distances are integers in any common unit: the depth does not change when
//! `near`, `far` and `z` are scaled together.
use vstd::prelude::*;

verus! {

/// `z_clip * (near - far)` for a point at depth `z`.
pub open spec fn clip_z_scaled(near: int, far: int, z: int) -> int {
    (far + near) * z + 2 * far * near
}

/// `w_clip` for a point at depth `z`.
pub open spec fn clip_w(z: int) -> int {
    -z
}

/// The corrected `z' * 2 * (near - far)` for a point at depth `z`.
pub open spec fn corrected_z_scaled(near: int, far: int, z: int) -> int {
    clip_z_scaled(near, far, z) + clip_w(z) * (near - far)
}

/// The corrected depth `z' / w_clip` of a point at depth `z`, as numerator
/// and denominator over a common factor `2 * (near - far)`.
pub open spec fn depth(near: int, far: int, z: int) -> (int, int) {
    (corrected_z_scaled(near, far, z), clip_w(z) * 2 * (near - far))
}

/// For any `0 < near < far`, the corrected projection takes a point on the
/// near plane (`z = -near`) to depth 0 and a point on the far plane
/// (`z = -far`) to depth 1, and points between the planes to depths
/// between 0 and 1.
pub proof fn lemma_depth_range(near: int, far: int)
    requires
        0 < near < far,
    ensures
        depth(near, far, -near).1 != 0,
        depth(near, far, -near).0 == 0,
        depth(near, far, -far).1 != 0,
        depth(near, far, -far).0 == depth(near, far, -far).1,
        forall|z: int|
            -far <= z <= -near ==> {
                let (n, d) = #[trigger] depth(near, far, z);
                d < 0 && d <= n <= 0
            },
{
    assert(corrected_z_scaled(near, far, -near) == 0) by (nonlinear_arith)
        requires
            0 < near < far,
    ;
    assert(corrected_z_scaled(near, far, -far) == clip_w(-far) * 2 * (near - far))
        by (nonlinear_arith)
        requires
            0 < near < far,
    ;
    assert(clip_w(-near) * 2 * (near - far) != 0) by (nonlinear_arith)
        requires
            0 < near < far,
    ;
    assert(clip_w(-far) * 2 * (near - far) != 0) by (nonlinear_arith)
        requires
            0 < near < far,
    ;
    assert forall|z: int| -far <= z <= -near implies {
        let (n, d) = #[trigger] depth(near, far, z);
        d < 0 && d <= n <= 0
    } by {
        let n = corrected_z_scaled(near, far, z);
        let d = clip_w(z) * 2 * (near - far);
        assert(n == 2 * far * (z + near)) by (nonlinear_arith)
            requires
                n == (far + near) * z + 2 * far * near + (-z) * (near - far),
        ;
        assert(d == 2 * z * (far - near)) by (nonlinear_arith)
            requires
                d == (-z) * 2 * (near - far),
        ;
        assert(d < 0) by (nonlinear_arith)
            requires
                d == 2 * z * (far - near),
                z < 0,
                far - near > 0,
        ;
        assert(n <= 0) by (nonlinear_arith)
            requires
                n == 2 * far * (z + near),
                z + near <= 0,
                far > 0,
        ;
        assert(d <= n) by (nonlinear_arith)
            requires
                n == 2 * far * (z + near),
                d == 2 * z * (far - near),
                -far <= z,
                0 < near < far,
        ;
    }
}

} // verus!
