//! Where each object's uniform record lies in the shared buffers.
//!
//! The per-object buffer holds a fixed number of slots. A slot is addressed
//! by `index * alignment`, where the alignment is the least distance that the
//! backend allows between two dynamic offsets into a uniform buffer. The
//! alignment is asked of the backend once, and is never taken to be the size
//! of a record.

use vstd::prelude::*;
use crate::texture::{TextureID, DEFAULT_TEXTURE};

verus! {

/// How many objects the per-object uniform buffer has room for.
pub const MAX_OBJECTS: u64 = 2048;

/// The bytes of a camera record: two matrices.
pub const CAMERA_UNIFORM_SIZE: u64 = 128;

/// The bytes of a per-object record: a colour and a matrix.
pub const ACTOR_UNIFORM_SIZE: u64 = 80;

/// The bytes of a texture-enabled flag.
pub const FLAG_SIZE: u64 = 4;

/// Why an alignment cannot be used.
#[derive(Clone, Copy, Debug, PartialEq, Eq, Structural)]
pub enum LayoutError {
    /// A slot of this size would not hold the largest record.
    TooSmall,
    /// Slots would not start at a multiple of four bytes.
    Unaligned,
    /// The last slot would start beyond what a dynamic offset can name.
    TooLarge,
}

/// An alignment that the buffers can be laid out with: a slot holds the
/// largest record, every slot starts at a multiple of four bytes, and every
/// slot's start fits a dynamic offset.
pub open spec fn usable(alignment: u32) -> bool {
    &&& CAMERA_UNIFORM_SIZE <= alignment
    &&& alignment % 4 == 0
    &&& MAX_OBJECTS * alignment <= u32::MAX
}

/// Where the slot of the given index starts, with the given alignment.
pub open spec fn slot_offset(alignment: u32, index: u64) -> int {
    index * alignment
}

/// Distinct slots start at distinct offsets, each a multiple of the
/// alignment, and a record written at the start of a slot ends before the
/// next slot starts and within the buffer.
pub proof fn lemma_slots_disjoint(alignment: u32, i: u64, j: u64)
    requires
        usable(alignment),
        i < MAX_OBJECTS,
        j < MAX_OBJECTS,
        i != j,
    ensures
        slot_offset(alignment, i) != slot_offset(alignment, j),
        slot_offset(alignment, i) % (alignment as int) == 0,
        slot_offset(alignment, j) % (alignment as int) == 0,
        i < j ==> slot_offset(alignment, i) + ACTOR_UNIFORM_SIZE <= slot_offset(alignment, j),
        slot_offset(alignment, i) + ACTOR_UNIFORM_SIZE <= MAX_OBJECTS * alignment,
        0 <= slot_offset(alignment, i) <= u32::MAX,
{
    let a = alignment as int;
    assert(i * a != j * a) by (nonlinear_arith)
        requires
            i != j,
            a > 0,
    ;
    assert((i * a) % a == 0 && (j * a) % a == 0) by (nonlinear_arith)
        requires
            a > 0,
    ;
    assert(i < j ==> i * a + a <= j * a) by (nonlinear_arith)
        requires
            a > 0,
    ;
    assert(0 <= i * a && i * a + a <= MAX_OBJECTS * a) by (nonlinear_arith)
        requires
            a > 0,
            0 <= i < MAX_OBJECTS,
    ;
}

/// The layout of the shared uniform buffers for one alignment.
#[derive(Clone, Copy, Debug)]
pub struct UniformLayout {
    alignment: u32,
}

impl UniformLayout {
    #[verifier::type_invariant]
    pub closed spec fn inv(self) -> bool {
        usable(self.alignment)
    }

    /// The alignment that the layout was made for.
    pub closed spec fn spec_alignment(self) -> u32 {
        self.alignment
    }

    /// A layout for the alignment that the backend reports, if it can be used.
    pub fn new(alignment: u32) -> (r: Result<UniformLayout, LayoutError>)
        ensures
            match r {
                Ok(layout) => usable(alignment) && layout.spec_alignment() == alignment,
                Err(LayoutError::TooSmall) => alignment < CAMERA_UNIFORM_SIZE,
                Err(LayoutError::Unaligned) => alignment >= CAMERA_UNIFORM_SIZE && alignment % 4
                    != 0,
                Err(LayoutError::TooLarge) => alignment >= CAMERA_UNIFORM_SIZE && alignment % 4
                    == 0 && MAX_OBJECTS * alignment > u32::MAX,
            },
    {
        if (alignment as u64) < CAMERA_UNIFORM_SIZE {
            Err(LayoutError::TooSmall)
        } else if alignment % 4 != 0 {
            Err(LayoutError::Unaligned)
        } else if alignment as u64 > (u32::MAX as u64) / MAX_OBJECTS {
            Err(LayoutError::TooLarge)
        } else {
            Ok(UniformLayout { alignment })
        }
    }

    /// The alignment that the layout was made for; it is usable.
    pub fn alignment(&self) -> (a: u32)
        ensures
            a == self.spec_alignment(),
            usable(a),
    {
        proof {
            use_type_invariant(self);
        }
        self.alignment
    }

    /// The size of the camera buffer: one slot.
    pub open spec fn spec_camera_buffer_size(&self) -> u64 {
        self.spec_alignment() as u64
    }

    /// The size of the per-object buffer: a slot for each object.
    pub open spec fn spec_actor_buffer_size(&self) -> u64 {
        (MAX_OBJECTS * self.spec_alignment()) as u64
    }

    /// The size of the texture-enabled buffer: one slot for "off", one for "on".
    pub open spec fn spec_enabled_buffer_size(&self) -> u64 {
        (2 * self.spec_alignment()) as u64
    }

    /// The dynamic offset of the slot of the given index, if there is such a slot.
    pub open spec fn spec_actor_offset(&self, index: u64) -> Option<u32> {
        if index < MAX_OBJECTS {
            Some(slot_offset(self.spec_alignment(), index) as u32)
        } else {
            None
        }
    }

    /// The dynamic offset of the flag that goes with a texture: "off" for the
    /// placeholder, "on" for every other.
    pub open spec fn spec_enabled_offset(&self, texture: TextureID) -> u32 {
        if texture == DEFAULT_TEXTURE {
            0
        } else {
            self.spec_alignment()
        }
    }

    /// The size of the camera buffer: one slot.
    #[verifier::when_used_as_spec(spec_camera_buffer_size)]
    pub fn camera_buffer_size(&self) -> (size: u64)
        ensures
            size == self.spec_camera_buffer_size(),
    {
        self.alignment as u64
    }

    /// The size of the per-object buffer: a slot for each object.
    #[verifier::when_used_as_spec(spec_actor_buffer_size)]
    pub fn actor_buffer_size(&self) -> (size: u64)
        ensures
            size == self.spec_actor_buffer_size(),
            size == MAX_OBJECTS * self.spec_alignment(),
    {
        proof {
            use_type_invariant(self);
        }
        MAX_OBJECTS * (self.alignment as u64)
    }

    /// The size of the texture-enabled buffer: one slot for "off", one for "on".
    #[verifier::when_used_as_spec(spec_enabled_buffer_size)]
    pub fn enabled_buffer_size(&self) -> (size: u64)
        ensures
            size == self.spec_enabled_buffer_size(),
            size == 2 * self.spec_alignment(),
    {
        2 * (self.alignment as u64)
    }

    /// The dynamic offset of the slot of the given index: `index * alignment`;
    /// `None` where the buffer has no such slot.
    #[verifier::when_used_as_spec(spec_actor_offset)]
    pub fn actor_offset(&self, index: u64) -> (offset: Option<u32>)
        ensures
            offset == self.spec_actor_offset(index),
            index < MAX_OBJECTS ==> offset == Some(slot_offset(self.spec_alignment(), index) as u32)
                && slot_offset(self.spec_alignment(), index) <= u32::MAX,
    {
        proof {
            use_type_invariant(self);
        }
        if index < MAX_OBJECTS {
            assert(index * self.alignment <= MAX_OBJECTS * self.alignment) by (nonlinear_arith)
                requires
                    index < MAX_OBJECTS,
            ;
            let offset: u64 = index * (self.alignment as u64);
            Some(offset as u32)
        } else {
            None
        }
    }

    /// The dynamic offset of the flag that goes with a texture.
    #[verifier::when_used_as_spec(spec_enabled_offset)]
    pub fn enabled_offset(&self, texture: TextureID) -> (offset: u32)
        ensures
            offset == self.spec_enabled_offset(texture),
    {
        if texture == DEFAULT_TEXTURE {
            0
        } else {
            self.alignment
        }
    }
}

} // verus!
