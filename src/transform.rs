//! Position / rotation / scale transforms, composed child-then-parent.
use vstd::prelude::*;

verus! {

/// Bit pattern of the single-precision value `1.0`.
pub const ONE_BITS: u32 = 0x3f80_0000;

/// Bit pattern of the single-precision value `0.0`.
pub const ZERO_BITS: u32 = 0;

/// A position (x, y, z), a unit quaternion rotation (x, y, z, w) and a
/// non-uniform scale (x, y, z), each component an IEEE-754 bit pattern.
#[derive(Clone, Copy, Debug)]
pub struct Transform {
    pub position: [u32; 3],
    pub rotation: [u32; 4],
    pub scale: [u32; 3],
}

/// The column-major 4x4 matrix that glam builds from a scale, a rotation
/// and a translation.
pub uninterp spec fn srt_matrix(scale: [u32; 3], rotation: [u32; 4], translation: [u32; 3]) -> [u32; 16];

/// The product `a * b` of two column-major 4x4 matrices, as glam computes it.
pub uninterp spec fn matrix_product(a: [u32; 16], b: [u32; 16]) -> [u32; 16];

/// The (scale, rotation, translation) that glam extracts from a matrix.
pub uninterp spec fn srt_decomposition(m: [u32; 16]) -> ([u32; 3], [u32; 4], [u32; 3]);

/// The matrix of a transform.
pub open spec fn matrix_of(t: Transform) -> [u32; 16] {
    srt_matrix(t.scale, t.rotation, t.position)
}

/// `parent * child`: the child's transform applied in the parent's local
/// space, through the product of their matrices.
pub open spec fn composed(parent: Transform, child: Transform) -> Transform {
    let (scale, rotation, position) = srt_decomposition(
        matrix_product(matrix_of(parent), matrix_of(child)),
    );
    Transform { position, rotation, scale }
}

/// The identity transform: no translation, no rotation, unit scale.
pub open spec fn identity_spec() -> Transform {
    Transform {
        position: [ZERO_BITS, ZERO_BITS, ZERO_BITS],
        rotation: [ZERO_BITS, ZERO_BITS, ZERO_BITS, ONE_BITS],
        scale: [ONE_BITS, ONE_BITS, ONE_BITS],
    }
}

/// Relies on glam's `Mat4::from_scale_rotation_translation` (and
/// `Mat4::to_cols_array`): the matrix depends on its three arguments alone,
/// and without glam's `glam-assert` feature the call does not panic.
#[verifier::external_body]
fn to_matrix(scale: [u32; 3], rotation: [u32; 4], translation: [u32; 3]) -> (r: [u32; 16])
    ensures
        r == srt_matrix(scale, rotation, translation),
{
    let scale = glam::Vec3::from_array(bytemuck::cast(scale));
    let rotation = glam::Quat::from_array(bytemuck::cast(rotation));
    let translation = glam::Vec3::from_array(bytemuck::cast(translation));
    bytemuck::cast(glam::Mat4::from_scale_rotation_translation(scale, rotation, translation).to_cols_array())
}

/// Relies on glam's `Mat4 * Mat4` (with `Mat4::from_cols_array` and
/// `Mat4::to_cols_array`): the product depends on the two matrices alone.
#[verifier::external_body]
fn multiply(a: &[u32; 16], b: &[u32; 16]) -> (r: [u32; 16])
    ensures
        r == matrix_product(*a, *b),
{
    let a = glam::Mat4::from_cols_array(&bytemuck::cast(*a));
    let b = glam::Mat4::from_cols_array(&bytemuck::cast(*b));
    bytemuck::cast((a * b).to_cols_array())
}

/// Relies on glam's `Mat4::to_scale_rotation_translation` (with
/// `Mat4::from_cols_array`): the parts depend on the matrix alone, and
/// without glam's `glam-assert` feature the call does not panic.
#[verifier::external_body]
fn decompose(m: &[u32; 16]) -> (r: ([u32; 3], [u32; 4], [u32; 3]))
    ensures
        r == srt_decomposition(*m),
{
    let (scale, rotation, translation) = glam::Mat4::from_cols_array(&bytemuck::cast(*m))
        .to_scale_rotation_translation();
    (bytemuck::cast(scale.to_array()), bytemuck::cast(rotation.to_array()), bytemuck::cast(translation.to_array()))
}

impl Transform {
    /// The identity transform.
    pub fn identity() -> (r: Transform)
        ensures
            r == identity_spec(),
    {
        Transform {
            position: [ZERO_BITS, ZERO_BITS, ZERO_BITS],
            rotation: [ZERO_BITS, ZERO_BITS, ZERO_BITS, ONE_BITS],
            scale: [ONE_BITS, ONE_BITS, ONE_BITS],
        }
    }

    /// A transform that only translates.
    pub fn from_position(position: [u32; 3]) -> (r: Transform)
        ensures
            r == (Transform { position, ..identity_spec() }),
    {
        let mut r = Transform::identity();
        r.position = position;
        r
    }

    /// `self * child`: `child` applied in the local space of `self`.
    pub fn mul(&self, child: &Transform) -> (r: Transform)
        ensures
            r == composed(*self, *child),
    {
        let parent_matrix = to_matrix(self.scale, self.rotation, self.position);
        let child_matrix = to_matrix(child.scale, child.rotation, child.position);
        let (scale, rotation, position) = decompose(&multiply(&parent_matrix, &child_matrix));
        Transform { position, rotation, scale }
    }

    /// Replaces the position, keeping rotation and scale.
    pub fn set_position(&mut self, position: [u32; 3])
        ensures
            *final(self) == (Transform { position, ..*old(self) }),
    {
        self.position = position;
    }

    /// Replaces the rotation, keeping position and scale.
    pub fn set_rotation(&mut self, rotation: [u32; 4])
        ensures
            *final(self) == (Transform { rotation, ..*old(self) }),
    {
        self.rotation = rotation;
    }

    /// Replaces the scale, keeping position and rotation.
    pub fn set_scale(&mut self, scale: [u32; 3])
        ensures
            *final(self) == (Transform { scale, ..*old(self) }),
    {
        self.scale = scale;
    }
}

} // verus!
