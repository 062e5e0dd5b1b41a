//! Output to a terminal: a frame is read back into a buffer, and each cell of
//! the terminal takes the colour of one pixel.

use vstd::prelude::*;

verus! {

/// How many frames are shown in a second.
pub const FPS: u64 = 30;

/// The width and the height of the frame that is read back, in pixels.
pub const CANVAS_SIZE: usize = 128;

/// The bytes of the buffer that a frame is read back into: four for each pixel.
pub const OUTPUT_BUFFER_SIZE: u64 = 65536;

/// The nanoseconds that a frame lasts: the whole milliseconds of one second
/// divided by the frame rate.
pub const FRAME_NANOS: u128 = 33_000_000;

/// The nanoseconds that a frame may be waited for while it is read back: one
/// second.
pub const READBACK_WAIT_NANOS: u128 = 1_000_000_000;

/// Whether a frame that has been waited for so long is given up: the wait is
/// bounded, and a frame whose wait has run out is skipped.
pub fn readback_expired(waited_nanos: u128) -> (expired: bool)
    ensures
        expired == (waited_nanos >= READBACK_WAIT_NANOS),
{
    waited_nanos >= READBACK_WAIT_NANOS
}

/// Where the pixel of the given column and row starts in the buffer.
pub open spec fn pixel_offset(x: int, y: int) -> int {
    (x + y * CANVAS_SIZE) * 4
}

/// The red, green, blue and alpha of the pixel of the given column and row;
/// `None` for a cell beyond the frame, and where the buffer ends too early.
pub open spec fn spec_pixel_at(data: Seq<u8>, x: int, y: int) -> Option<(u8, u8, u8, u8)> {
    if 0 <= x < CANVAS_SIZE && 0 <= y < CANVAS_SIZE && pixel_offset(x, y) + 3 < data.len() {
        let i = pixel_offset(x, y);
        Some((data[i], data[i + 1], data[i + 2], data[i + 3]))
    } else {
        None
    }
}

/// The colour of the cell of the given column and row.
pub fn pixel_at(data: &[u8], x: usize, y: usize) -> (pixel: Option<(u8, u8, u8, u8)>)
    ensures
        pixel == spec_pixel_at(data@, x as int, y as int),
{
    if x >= CANVAS_SIZE || y >= CANVAS_SIZE {
        return None;
    }
    let i = (x + y * CANVAS_SIZE) * 4;
    if i + 3 >= data.len() {
        return None;
    }
    Some((data[i], data[i + 1], data[i + 2], data[i + 3]))
}

/// How long to sleep after a frame that took the given time, so that frames
/// come at the frame rate: what is left of the frame's time, if anything.
pub fn frame_wait(elapsed_nanos: u128) -> (wait: u128)
    ensures
        wait == (if elapsed_nanos < FRAME_NANOS {
            FRAME_NANOS - elapsed_nanos
        } else {
            0
        }),
{
    if elapsed_nanos < FRAME_NANOS {
        FRAME_NANOS - elapsed_nanos
    } else {
        0
    }
}

} // verus!
