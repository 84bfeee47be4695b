//! Stable-layout encodings of curve points and scalars.
//!
//! The accelerator strides over flat arrays of fixed-width records, so the
//! whole layer rests on a layout contract: the caller's element type must
//! occupy memory exactly as the reference encoding of the active curve family
//! does.  These types spell that encoding out as plain data with an explicit
//! field order and width: a 384-bit base-field element as six 64-bit limbs in
//! little-endian limb order, and a 256-bit scalar as four such limbs.  The
//! layer never interprets the limbs; it only carries them across the
//! boundary.

use vstd::prelude::*;

verus! {

/// Bytes occupied by one affine point in the native encoding:
/// two base-field coordinates of six 64-bit limbs each.
pub const POINT_AFFINE_BYTES: usize = 96;

/// Bytes occupied by one affine point in the extended encoding used by the
/// generic adapter: the two coordinates plus an infinity flag, padded to the
/// next limb boundary.
pub const POINT_AFFINE_EXT_BYTES: usize = 104;

/// Bytes occupied by one scalar: four 64-bit limbs.
pub const SCALAR_BYTES: usize = 32;

/// One 384-bit base-field element, six 64-bit limbs, least significant first.
#[derive(Clone, Copy, Debug, PartialEq, Eq, Structural)]
pub struct FieldElement {
    pub l0: u64,
    pub l1: u64,
    pub l2: u64,
    pub l3: u64,
    pub l4: u64,
    pub l5: u64,
}

/// One 256-bit scalar, four 64-bit limbs, least significant first.
#[derive(Clone, Copy, Debug, PartialEq, Eq, Structural)]
pub struct Scalar {
    pub l0: u64,
    pub l1: u64,
    pub l2: u64,
    pub l3: u64,
}

/// An affine point in the native encoding: coordinates only.  The identity
/// has no unique affine form; callers that need it use the projective type.
#[derive(Clone, Copy, Debug, PartialEq, Eq, Structural)]
pub struct PointAffine {
    pub x: FieldElement,
    pub y: FieldElement,
}

/// An affine point in the extended encoding: coordinates plus an explicit
/// infinity flag, as the generic adapter's callers lay their points out.
#[derive(Clone, Copy, Debug, PartialEq, Eq, Structural)]
pub struct PointAffineExt {
    pub x: FieldElement,
    pub y: FieldElement,
    pub infinity: bool,
}

/// A projective point, the accelerator's accumulation form and the type of
/// every MSM result.  A zero `z` coordinate marks the identity; the all-zero
/// value is the canonical identity and the value every accumulator starts
/// from.
#[derive(Clone, Copy, Debug, PartialEq, Eq, Structural)]
pub struct PointProjective {
    pub x: FieldElement,
    pub y: FieldElement,
    pub z: FieldElement,
}

/// The all-zero base-field element.
pub open spec fn zero_field_element() -> FieldElement {
    FieldElement { l0: 0, l1: 0, l2: 0, l3: 0, l4: 0, l5: 0 }
}

/// The canonical identity point: all three coordinates zero, so `z` is zero
/// and the point is at infinity.
pub open spec fn identity_projective() -> PointProjective {
    PointProjective {
        x: zero_field_element(),
        y: zero_field_element(),
        z: zero_field_element(),
    }
}

/// The layout contract in numbers: an affine point is two coordinates of
/// six 8-byte limbs; the extended encoding adds an infinity flag padded to
/// one more limb; a scalar is four 8-byte limbs.
pub proof fn lemma_reference_layout_consistent()
    ensures
        POINT_AFFINE_BYTES == 2 * 6 * 8,
        POINT_AFFINE_EXT_BYTES == POINT_AFFINE_BYTES + 8,
        SCALAR_BYTES == 4 * 8,
{
}

impl FieldElement {
    /// The all-zero field element.
    pub fn zero() -> (r: FieldElement)
        ensures
            r == zero_field_element(),
    {
        FieldElement { l0: 0, l1: 0, l2: 0, l3: 0, l4: 0, l5: 0 }
    }
}

impl PointProjective {
    /// The canonical identity point.
    pub fn identity() -> (r: PointProjective)
        ensures
            r == identity_projective(),
    {
        PointProjective {
            x: FieldElement::zero(),
            y: FieldElement::zero(),
            z: FieldElement::zero(),
        }
    }

    /// Whether this value is the canonical identity.
    pub fn is_identity(&self) -> (r: bool)
        ensures
            r == (*self == identity_projective()),
    {
        *self == PointProjective::identity()
    }
}

} // verus!
