//! Textures: pixels on the CPU side and the record of their GPU twin.

use vstd::prelude::*;

verus! {

/// The identity of a texture: handed out once, never again.
pub type TextureID = usize;

/// The id of the built-in 1x1 placeholder, which every scene holds.
pub const DEFAULT_TEXTURE: TextureID = 0;

/// Why a texture could not be made.
#[derive(Debug)]
pub enum TextureError {
    /// The bytes are no image that can be decoded; the text says why.
    Decode(String),
    /// There are not four bytes for each pixel.
    SizeMismatch,
    /// A row of pixels is longer than a copy to the GPU can name.
    TooWide,
}

/// Makes `image::ImageError` known as a type. Nothing is claimed of its
/// values: they are carried from the decoder to `describe` and no further.
#[verifier::external_type_specification]
#[verifier::external_body]
pub struct ExImageError(image::ImageError);

/// Calls `image::load_from_memory`, which guesses the format from the first
/// bytes and decodes, then `DynamicImage::to_rgba8`, and takes the copy apart.
/// Trusted: where the call succeeds, the copy holds exactly four bytes for
/// each pixel. Nothing is claimed of which bytes decode, nor of the pixels
/// they decode to: a decoder may round differently from machine to machine.
#[verifier::external_body]
fn decode_rgba8(bytes: &[u8]) -> (r: Result<(u32, u32, Vec<u8>), image::ImageError>)
    ensures
        r matches Ok((width, height, pixels)) ==> pixels@.len() == 4 * width * height,
{
    let img = image::load_from_memory(bytes)?.to_rgba8();
    Ok((img.width(), img.height(), img.into_raw()))
}

/// Formats an `image::ImageError` with its `Display` impl. Nothing is claimed
/// of the text.
#[verifier::external_body]
fn describe(error: &image::ImageError) -> (text: String) {
    format!("{}", error)
}

/// The record of a texture on the GPU: the texture itself, a view of it and a
/// sampler, all of the size it was created with.
#[derive(Clone, Copy, Debug, PartialEq, Eq, Structural)]
pub struct TextureBuffer {
    pub width: u32,
    pub height: u32,
}

/// How the rows of an image lie in the bytes that are copied to the GPU.
#[derive(Clone, Copy, Debug, PartialEq, Eq, Structural)]
pub struct ImageDataLayout {
    /// Where the first row starts.
    pub offset: u64,
    /// The bytes from one row to the next; `None` for an image without columns.
    pub bytes_per_row: Option<u32>,
    /// The rows of the image; `None` for an image without rows.
    pub rows_per_image: Option<u32>,
}

impl TextureBuffer {
    /// The layout of tightly packed RGBA rows.
    pub open spec fn spec_data_layout(width: u32, height: u32) -> ImageDataLayout {
        ImageDataLayout {
            offset: 0,
            bytes_per_row: if width == 0 {
                None
            } else {
                Some((4 * width) as u32)
            },
            rows_per_image: if height == 0 {
                None
            } else {
                Some(height)
            },
        }
    }

    /// The layout of tightly packed RGBA rows: four bytes to the pixel.
    pub fn data_layout(width: u32, height: u32) -> (layout: ImageDataLayout)
        requires
            4 * width <= u32::MAX,
        ensures
            layout == Self::spec_data_layout(width, height),
    {
        ImageDataLayout {
            offset: 0,
            bytes_per_row: if width == 0 {
                None
            } else {
                Some(4 * width)
            },
            rows_per_image: if height == 0 {
                None
            } else {
                Some(height)
            },
        }
    }
}

/// An image of RGBA pixels, and the record of its GPU twin.
pub struct Texture {
    width: u32,
    height: u32,
    pixels: Vec<u8>,
    buffer: Option<TextureBuffer>,
}

/// Whether pixels of these dimensions make a texture: four bytes for each
/// pixel, and a row that a copy to the GPU can name.
pub open spec fn well_sized(width: u32, height: u32, len: nat) -> bool {
    &&& len == 4 * width * height
    &&& 4 * width <= u32::MAX
}

impl Texture {
    #[verifier::type_invariant]
    pub closed spec fn inv(self) -> bool {
        &&& well_sized(self.width, self.height, self.pixels@.len())
        &&& self.buffer matches Some(b) ==> b.width == self.width && b.height == self.height
    }

    pub closed spec fn spec_width(&self) -> u32 {
        self.width
    }

    pub closed spec fn spec_height(&self) -> u32 {
        self.height
    }

    /// The pixels row by row, four bytes to the pixel.
    pub closed spec fn spec_pixels(&self) -> Seq<u8> {
        self.pixels@
    }

    /// The record of the GPU twin, if there is one.
    pub closed spec fn spec_buffer(&self) -> Option<TextureBuffer> {
        self.buffer
    }

    /// The texture with the same pixels and a twin of its size.
    pub closed spec fn spec_allocated(self) -> Self {
        Texture {
            width: self.width,
            height: self.height,
            pixels: self.pixels,
            buffer: Some(TextureBuffer { width: self.width, height: self.height }),
        }
    }

    /// The texture with the same pixels and no twin.
    pub closed spec fn spec_destroyed(self) -> Self {
        Texture { width: self.width, height: self.height, pixels: self.pixels, buffer: None }
    }

    /// What `spec_allocated` keeps and what it sets.
    pub proof fn lemma_allocated(self)
        ensures
            self.spec_allocated().spec_width() == self.spec_width(),
            self.spec_allocated().spec_height() == self.spec_height(),
            self.spec_allocated().spec_pixels() == self.spec_pixels(),
            self.spec_allocated().spec_buffer() == Some(
                TextureBuffer { width: self.spec_width(), height: self.spec_height() },
            ),
            self.spec_allocated().spec_allocated() == self.spec_allocated(),
    {
    }

    /// What `spec_destroyed` keeps and what it sets.
    pub proof fn lemma_destroyed(self)
        ensures
            self.spec_destroyed().spec_width() == self.spec_width(),
            self.spec_destroyed().spec_height() == self.spec_height(),
            self.spec_destroyed().spec_pixels() == self.spec_pixels(),
            self.spec_destroyed().spec_buffer() is None,
    {
    }

    /// A texture of the given size, every byte zero, without a twin.
    pub fn new(width: u32, height: u32) -> (texture: Self)
        requires
            4 * width * height <= usize::MAX,
            4 * width <= u32::MAX,
        ensures
            texture.spec_width() == width,
            texture.spec_height() == height,
            texture.spec_pixels() == Seq::new((4 * width * height) as nat, |i: int| 0u8),
            texture.spec_buffer() is None,
    {
        assert(4 * width * height == 4 * (width * height)) by (nonlinear_arith);
        assert(width * height <= usize::MAX) by (nonlinear_arith)
            requires
                4 * (width * height) <= usize::MAX,
        ;
        let area: usize = (width as usize) * (height as usize);
        let len: usize = 4 * area;
        let pixels: Vec<u8> = vec![0u8; len];
        assert(pixels@ =~= Seq::new((4 * width * height) as nat, |i: int| 0u8));
        Texture { width, height, pixels, buffer: None }
    }

    /// A texture of the given pixels, row by row and four bytes to the pixel,
    /// without a twin.
    pub fn from_rgba8(width: u32, height: u32, pixels: Vec<u8>) -> (r: Result<Self, TextureError>)
        ensures
            match r {
                Ok(texture) => well_sized(width, height, pixels@.len()) && texture.spec_width()
                    == width && texture.spec_height() == height && texture.spec_pixels()
                    == pixels@ && texture.spec_buffer() is None,
                Err(TextureError::SizeMismatch) => pixels@.len() != 4 * width * height,
                Err(TextureError::TooWide) => pixels@.len() == 4 * width * height && 4 * width
                    > u32::MAX,
                Err(TextureError::Decode(_)) => false,
            },
    {
        assert(0 <= 4 * width * height <= 4 * 0xffff_ffff * 0xffff_ffff) by (nonlinear_arith)
            requires
                0 <= width <= 0xffff_ffff,
                0 <= height <= 0xffff_ffff,
        ;
        let expected: u128 = 4u128 * (width as u128) * (height as u128);
        if pixels.len() as u128 != expected {
            Err(TextureError::SizeMismatch)
        } else if width > u32::MAX / 4 {
            Err(TextureError::TooWide)
        } else {
            Ok(Texture { width, height, pixels, buffer: None })
        }
    }

    /// The texture that the given bytes of an image file decode to. Which
    /// bytes decode, and to which pixels, is the decoder's to say, and nothing
    /// is stated of it here. What is made of the decoded pixels is stated at
    /// `from_rgba8`: whatever the decoder hands out, a texture that comes of
    /// it is well sized and has no twin, and the pixels never fail to come
    /// four bytes to the pixel.
    pub fn from_image_bytes(bytes: &[u8]) -> (r: Result<Self, TextureError>)
        ensures
            match r {
                Ok(texture) => well_sized(
                    texture.spec_width(),
                    texture.spec_height(),
                    texture.spec_pixels().len(),
                ) && texture.spec_buffer() is None,
                Err(TextureError::SizeMismatch) => false,
                Err(_) => true,
            },
    {
        match decode_rgba8(bytes) {
            Ok((width, height, pixels)) => Self::from_rgba8(width, height, pixels),
            Err(error) => Err(TextureError::Decode(describe(&error))),
        }
    }

    /// The 1x1 opaque white placeholder.
    pub fn placeholder() -> (texture: Self)
        ensures
            texture.spec_width() == 1,
            texture.spec_height() == 1,
            texture.spec_pixels() == seq![255u8, 255u8, 255u8, 255u8],
            texture.spec_buffer() is None,
    {
        let mut pixels: Vec<u8> = Vec::new();
        pixels.push(255);
        pixels.push(255);
        pixels.push(255);
        pixels.push(255);
        assert(pixels@ =~= seq![255u8, 255u8, 255u8, 255u8]);
        Texture { width: 1, height: 1, pixels, buffer: None }
    }

    #[verifier::when_used_as_spec(spec_width)]
    pub fn width(&self) -> (w: u32)
        ensures
            w == self.spec_width(),
            4 * w <= u32::MAX,
    {
        proof {
            use_type_invariant(self);
        }
        self.width
    }

    #[verifier::when_used_as_spec(spec_height)]
    pub fn height(&self) -> (h: u32)
        ensures
            h == self.spec_height(),
    {
        self.height
    }

    /// The pixels row by row, four bytes to the pixel.
    pub fn pixels(&self) -> (p: &[u8])
        ensures
            p@ == self.spec_pixels(),
            p@.len() == 4 * self.spec_width() * self.spec_height(),
    {
        proof {
            use_type_invariant(self);
        }
        self.pixels.as_slice()
    }

    /// Whether the texture has a twin on the GPU.
    pub fn is_allocated(&self) -> (b: bool)
        ensures
            b == (self.spec_buffer() is Some),
    {
        self.buffer.is_some()
    }

    /// Drops the twin, if any, and records a new one of the texture's size.
    pub fn allocate(&mut self)
        ensures
            *final(self) == old(self).spec_allocated(),
            final(self).spec_width() == old(self).spec_width(),
            final(self).spec_height() == old(self).spec_height(),
            final(self).spec_pixels() == old(self).spec_pixels(),
            final(self).spec_buffer() == Some(
                TextureBuffer { width: old(self).spec_width(), height: old(self).spec_height() },
            ),
    {
        proof {
            use_type_invariant(&*self);
            old(self).lemma_allocated();
        }
        self.destroy();
        self.buffer = Some(TextureBuffer { width: self.width, height: self.height });
    }

    /// Drops the twin, if any.
    pub fn destroy(&mut self)
        ensures
            *final(self) == old(self).spec_destroyed(),
            final(self).spec_width() == old(self).spec_width(),
            final(self).spec_height() == old(self).spec_height(),
            final(self).spec_pixels() == old(self).spec_pixels(),
            final(self).spec_buffer() is None,
    {
        proof {
            use_type_invariant(&*self);
            old(self).lemma_destroyed();
        }
        self.buffer = None;
    }

    /// The record of the GPU twin, if there is one; it has the texture's size.
    #[verifier::when_used_as_spec(spec_buffer)]
    pub fn buffer(&self) -> (b: Option<TextureBuffer>)
        ensures
            b == self.spec_buffer(),
            b matches Some(twin) ==> twin.width == self.spec_width() && twin.height
                == self.spec_height(),
    {
        proof {
            use_type_invariant(self);
        }
        self.buffer
    }

    /// How the pixels are laid out for the copy to the GPU: tightly packed rows.
    pub fn upload_layout(&self) -> (layout: ImageDataLayout)
        ensures
            layout == TextureBuffer::spec_data_layout(self.spec_width(), self.spec_height()),
    {
        proof {
            use_type_invariant(self);
        }
        TextureBuffer::data_layout(self.width, self.height)
    }
}

} // verus!
