//! Colours: red, green, blue and alpha, each the bits of a number in `0.0..=1.0`.

use vstd::prelude::*;
use crate::math::{Vector4, ONE, QUARTER, TENTH, ZERO};

verus! {

/// A colour is a four-component vector: red, green, blue, alpha.
pub type Color = Vector4;

/// Opaque black. Objects whose colour comes from a texture or from their own
/// shader carry it in their uniform record.
pub open spec fn spec_opaque_black() -> Color {
    Vector4 { x: ZERO, y: ZERO, z: ZERO, w: ONE }
}

#[verifier::when_used_as_spec(spec_opaque_black)]
pub fn opaque_black() -> (c: Color)
    ensures
        c == spec_opaque_black(),
{
    Vector4 { x: ZERO, y: ZERO, z: ZERO, w: ONE }
}

/// Opaque magenta, the colour of debug lines.
pub open spec fn spec_debug_magenta() -> Color {
    Vector4 { x: ONE, y: ZERO, z: ONE, w: ONE }
}

#[verifier::when_used_as_spec(spec_debug_magenta)]
pub fn debug_magenta() -> (c: Color)
    ensures
        c == spec_debug_magenta(),
{
    Vector4 { x: ONE, y: ZERO, z: ONE, w: ONE }
}

/// The orange of an object that was given no material: `(1.0, 0.25, 0.1, 1.0)`.
pub open spec fn spec_default_color() -> Color {
    Vector4 { x: ONE, y: QUARTER, z: TENTH, w: ONE }
}

#[verifier::when_used_as_spec(spec_default_color)]
pub fn default_color() -> (c: Color)
    ensures
        c == spec_default_color(),
{
    Vector4 { x: ONE, y: QUARTER, z: TENTH, w: ONE }
}

} // verus!
