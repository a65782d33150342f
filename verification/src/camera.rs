//! The camera: where the view looks, how it is turned and how far it is
//! zoomed in.

use vstd::prelude::*;
use crate::arith::Vector2;
use crate::scalar::{lemma_only_zeros_have_no_steps, Scalar, ONE_BITS, ZERO_BITS};

verus! {

/// The size in pixels of the rectangle that the scene is drawn into.
#[derive(Clone, Copy, Debug, PartialEq, Eq, Hash, Structural)]
pub struct Viewport {
    pub width: u32,
    pub height: u32,
}

impl Viewport {
    /// No width or no height.
    pub open spec fn spec_is_empty(self) -> bool {
        self.width == 0 || self.height == 0
    }

    /// The viewport of the given size.
    pub fn new(width: u32, height: u32) -> (v: Viewport)
        ensures
            v == (Viewport { width, height }),
    {
        Viewport { width, height }
    }

    /// Whether the viewport holds no pixel.
    #[verifier::when_used_as_spec(spec_is_empty)]
    pub fn is_empty(self) -> (r: bool)
        ensures
            r == self.spec_is_empty(),
    {
        self.width == 0 || self.height == 0
    }
}

/// Why a camera could not give a view-projection.
#[derive(Clone, Copy, Debug, PartialEq, Eq, Hash, Structural)]
pub enum CameraError {
    /// The viewport has no width or no height, so it has no aspect ratio.
    InvalidViewport,
}

/// The factors of a view-projection matrix, first to last.
///
/// The matrix moves the scene by `offset`, turns it about the z axis by
/// `rotation` (in radians), scales it by `scale`, and projects it
/// orthographically onto a viewport of `viewport.width` by
/// `viewport.height` pixels. The host multiplies the factors out.
#[derive(Clone, Copy, Debug, PartialEq, Eq, Hash, Structural)]
pub struct ViewProjection {
    pub offset: Vector2,
    pub rotation: Scalar,
    pub scale: Vector2,
    pub viewport: Viewport,
}

/// A camera over a 2D scene.
///
/// `==` on two cameras asks whether they are bit for bit the same;
/// [`Camera::same_view`] asks whether they hold the same numbers.
///
/// The axes of `scale` are meant to be finite and above zero
/// ([`Camera::has_valid_scale`]). Nothing here enforces it: a caller that
/// writes another scale gets the view that it asked for.
#[derive(Clone, Copy, Debug, PartialEq, Eq, Hash, Structural)]
pub struct Camera {
    pub position: Vector2,
    pub rotation: Scalar,
    pub scale: Vector2,
}

/// Whether the scalar can be the zoom factor on an axis: finite, not zero,
/// not negative.
pub open spec fn valid_zoom(s: Scalar) -> bool {
    s.spec_is_finite() && !s.spec_is_zero() && s.spec_is_sign_positive()
}

/// A scalar can be a zoom factor exactly when it is finite and stands for a
/// value above nought.
pub proof fn law_valid_zoom_is_a_positive_value(s: Scalar)
    ensures
        valid_zoom(s) <==> s.spec_is_finite() && s.value() > 0,
{
    lemma_only_zeros_have_no_steps(s);
}

impl Camera {
    /// The camera at the origin, not turned, at scale one.
    pub open spec fn initial() -> Camera {
        Camera {
            position: Vector2 { x: Scalar { bits: ZERO_BITS }, y: Scalar { bits: ZERO_BITS } },
            rotation: Scalar { bits: ZERO_BITS },
            scale: Vector2 { x: Scalar { bits: ONE_BITS }, y: Scalar { bits: ONE_BITS } },
        }
    }

    /// Both axes of the scale are finite and above zero.
    pub open spec fn spec_has_valid_scale(&self) -> bool {
        valid_zoom(self.scale.x) && valid_zoom(self.scale.y)
    }

    /// The same numbers in position, rotation and scale.
    pub open spec fn spec_same_view(&self, other: &Camera) -> bool {
        &&& self.position.spec_same_number(other.position)
        &&& self.rotation.spec_same_number(other.rotation)
        &&& self.scale.spec_same_number(other.scale)
    }

    /// A NaN in position, rotation or scale.
    pub open spec fn spec_has_nan(&self) -> bool {
        self.position.spec_is_nan() || self.rotation.spec_is_nan() || self.scale.spec_is_nan()
    }

    /// What [`Camera::view_projection`] gives for a viewport that holds a
    /// pixel: the scene moves against the camera's position and turns
    /// against its rotation, then it is scaled.
    pub open spec fn spec_view_projection(self, viewport: Viewport) -> ViewProjection {
        ViewProjection {
            offset: self.position.spec_negated(),
            rotation: self.rotation.spec_negated(),
            scale: self.scale,
            viewport,
        }
    }

    /// Whether both axes of the scale are finite and above zero.
    #[verifier::when_used_as_spec(spec_has_valid_scale)]
    pub fn has_valid_scale(&self) -> (r: bool)
        ensures
            r == self.spec_has_valid_scale(),
    {
        self.scale.x.is_finite() && !self.scale.x.is_zero() && self.scale.x.is_sign_positive()
            && self.scale.y.is_finite() && !self.scale.y.is_zero()
            && self.scale.y.is_sign_positive()
    }

    /// Whether the two cameras hold the same numbers in position, rotation
    /// and scale.
    #[verifier::when_used_as_spec(spec_same_view)]
    pub fn same_view(&self, other: &Camera) -> (r: bool)
        ensures
            r == self.spec_same_view(other),
    {
        self.position.same_number(other.position) && self.rotation.same_number(other.rotation)
            && self.scale.same_number(other.scale)
    }

    /// Whether position, rotation or scale holds a NaN.
    #[verifier::when_used_as_spec(spec_has_nan)]
    pub fn has_nan(&self) -> (r: bool)
        ensures
            r == self.spec_has_nan(),
    {
        self.position.is_nan() || self.rotation.is_nan() || self.scale.is_nan()
    }

    /// The factors of the view-projection matrix for the given viewport.
    ///
    /// A viewport without width or height is refused with
    /// [`CameraError::InvalidViewport`]; every other viewport gives the
    /// factors, which depend on the camera and the viewport alone.
    pub fn view_projection(&self, viewport: Viewport) -> (r: Result<ViewProjection, CameraError>)
        ensures
            viewport.spec_is_empty() ==> r == Err::<ViewProjection, CameraError>(
                CameraError::InvalidViewport,
            ),
            !viewport.spec_is_empty() ==> r == Ok::<ViewProjection, CameraError>(
                self.spec_view_projection(viewport),
            ),
    {
        if viewport.is_empty() {
            Err(CameraError::InvalidViewport)
        } else {
            Ok(
                ViewProjection {
                    offset: self.position.negated(),
                    rotation: self.rotation.negated(),
                    scale: self.scale,
                    viewport,
                },
            )
        }
    }
}

impl Default for Camera {
    fn default() -> (c: Camera)
        ensures
            c == Camera::initial(),
            c.spec_has_valid_scale(),
    {
        Camera {
            position: Vector2::new(Scalar::from_bits(ZERO_BITS), Scalar::from_bits(ZERO_BITS)),
            rotation: Scalar::from_bits(ZERO_BITS),
            scale: Vector2::new(Scalar::from_bits(ONE_BITS), Scalar::from_bits(ONE_BITS)),
        }
    }
}

} // verus!
