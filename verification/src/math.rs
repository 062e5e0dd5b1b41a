//! Vectors and matrices as the GPU sees them: every component is a 32-bit word
//! that holds the bit pattern of a single-precision number. Nothing here does
//! arithmetic on the numbers; the words are only arranged and copied.

use vstd::prelude::*;

verus! {

/// One single-precision number, stored as its 32 bits.
pub type Scalar = u32;

/// The bits of `0.0`.
pub const ZERO: Scalar = 0;

/// The bits of `1.0`.
pub const ONE: Scalar = 0x3F80_0000;

/// The bits of `-1.0`.
pub const MINUS_ONE: Scalar = 0xBF80_0000;

/// The bits of `0.25`.
pub const QUARTER: Scalar = 0x3E80_0000;

/// The bits of `0.1`, rounded to nearest.
pub const TENTH: Scalar = 0x3DCC_CCCD;

/// A point of the plane.
#[derive(Clone, Copy, Debug, PartialEq, Eq, Structural)]
pub struct Point2 {
    pub x: Scalar,
    pub y: Scalar,
}

/// A point of space.
#[derive(Clone, Copy, Debug, PartialEq, Eq, Structural)]
pub struct Point3 {
    pub x: Scalar,
    pub y: Scalar,
    pub z: Scalar,
}

/// A direction in space.
#[derive(Clone, Copy, Debug, PartialEq, Eq, Structural)]
pub struct Vector3 {
    pub x: Scalar,
    pub y: Scalar,
    pub z: Scalar,
}

/// Four components; also the shape of a colour (red, green, blue, alpha).
#[derive(Clone, Copy, Debug, PartialEq, Eq, Structural)]
pub struct Vector4 {
    pub x: Scalar,
    pub y: Scalar,
    pub z: Scalar,
    pub w: Scalar,
}

/// A 4x4 matrix held by its four columns.
#[derive(Clone, Copy, Debug, PartialEq, Eq, Structural)]
pub struct Matrix4 {
    pub x: Vector4,
    pub y: Vector4,
    pub z: Vector4,
    pub w: Vector4,
}

impl Point2 {
    pub fn new(x: Scalar, y: Scalar) -> (p: Self)
        ensures
            p == (Point2 { x, y }),
    {
        Point2 { x, y }
    }

    /// The words of the point in buffer order.
    pub open spec fn words(self) -> Seq<u32> {
        seq![self.x, self.y]
    }

    /// Appends the point's words to `out`.
    pub fn push_words(&self, out: &mut Vec<u32>)
        ensures
            final(out)@ == old(out)@ + self.words(),
    {
        out.push(self.x);
        out.push(self.y);
        assert(out@ =~= old(out)@ + self.words());
    }
}

impl Point3 {
    pub fn new(x: Scalar, y: Scalar, z: Scalar) -> (p: Self)
        ensures
            p == (Point3 { x, y, z }),
    {
        Point3 { x, y, z }
    }

    /// The direction from the origin to this point: the same three words.
    pub open spec fn spec_to_vec(self) -> Vector3 {
        Vector3 { x: self.x, y: self.y, z: self.z }
    }

    #[verifier::when_used_as_spec(spec_to_vec)]
    pub fn to_vec(self) -> (v: Vector3)
        ensures
            v == self.spec_to_vec(),
    {
        Vector3 { x: self.x, y: self.y, z: self.z }
    }

    /// The words of the point in buffer order.
    pub open spec fn words(self) -> Seq<u32> {
        seq![self.x, self.y, self.z]
    }

    /// Appends the point's words to `out`.
    pub fn push_words(&self, out: &mut Vec<u32>)
        ensures
            final(out)@ == old(out)@ + self.words(),
    {
        out.push(self.x);
        out.push(self.y);
        out.push(self.z);
        assert(out@ =~= old(out)@ + self.words());
    }
}

impl Vector3 {
    pub fn new(x: Scalar, y: Scalar, z: Scalar) -> (v: Self)
        ensures
            v == (Vector3 { x, y, z }),
    {
        Vector3 { x, y, z }
    }

    /// The words of the vector in buffer order.
    pub open spec fn words(self) -> Seq<u32> {
        seq![self.x, self.y, self.z]
    }

    /// Appends the vector's words to `out`.
    pub fn push_words(&self, out: &mut Vec<u32>)
        ensures
            final(out)@ == old(out)@ + self.words(),
    {
        out.push(self.x);
        out.push(self.y);
        out.push(self.z);
        assert(out@ =~= old(out)@ + self.words());
    }
}

impl Vector4 {
    pub fn new(x: Scalar, y: Scalar, z: Scalar, w: Scalar) -> (v: Self)
        ensures
            v == (Vector4 { x, y, z, w }),
    {
        Vector4 { x, y, z, w }
    }

    /// The words of the vector in buffer order.
    pub open spec fn words(self) -> Seq<u32> {
        seq![self.x, self.y, self.z, self.w]
    }

    /// Appends the vector's words to `out`.
    pub fn push_words(&self, out: &mut Vec<u32>)
        ensures
            final(out)@ == old(out)@ + self.words(),
    {
        out.push(self.x);
        out.push(self.y);
        out.push(self.z);
        out.push(self.w);
        assert(out@ =~= old(out)@ + self.words());
    }
}

impl Matrix4 {
    /// The matrix that leaves every point where it is.
    pub open spec fn spec_identity() -> Matrix4 {
        Matrix4 {
            x: Vector4 { x: ONE, y: ZERO, z: ZERO, w: ZERO },
            y: Vector4 { x: ZERO, y: ONE, z: ZERO, w: ZERO },
            z: Vector4 { x: ZERO, y: ZERO, z: ONE, w: ZERO },
            w: Vector4 { x: ZERO, y: ZERO, z: ZERO, w: ONE },
        }
    }

    #[verifier::when_used_as_spec(spec_identity)]
    pub fn identity() -> (m: Matrix4)
        ensures
            m == Matrix4::spec_identity(),
    {
        Matrix4 {
            x: Vector4 { x: ONE, y: ZERO, z: ZERO, w: ZERO },
            y: Vector4 { x: ZERO, y: ONE, z: ZERO, w: ZERO },
            z: Vector4 { x: ZERO, y: ZERO, z: ONE, w: ZERO },
            w: Vector4 { x: ZERO, y: ZERO, z: ZERO, w: ONE },
        }
    }

    /// The matrix with the given columns.
    pub fn from_cols(x: Vector4, y: Vector4, z: Vector4, w: Vector4) -> (m: Matrix4)
        ensures
            m == (Matrix4 { x, y, z, w }),
    {
        Matrix4 { x, y, z, w }
    }

    /// The sixteen words of the matrix, column after column.
    pub open spec fn words(self) -> Seq<u32> {
        self.x.words() + self.y.words() + self.z.words() + self.w.words()
    }

    /// Appends the matrix's words to `out`, column after column.
    pub fn push_words(&self, out: &mut Vec<u32>)
        ensures
            final(out)@ == old(out)@ + self.words(),
    {
        self.x.push_words(out);
        self.y.push_words(out);
        self.z.push_words(out);
        self.w.push_words(out);
        assert(out@ =~= old(out)@ + self.words());
    }
}

} // verus!
