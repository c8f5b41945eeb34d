//! What is asked of the rasterizer's make-current entry point, and what its
//! answer means. The entry point takes a context, a pixel buffer, a pixel
//! format and the buffer's width and height, and answers with a success
//! flag.

use crate::buffer::storage_len;
use crate::error::Abort;
use vstd::prelude::*;

verus! {

/// The pixel format of a buffer: one unsigned byte for each of red, green,
/// blue and alpha.
pub const GL_UNSIGNED_BYTE: u32 = 0x1401;

/// The handle that names no context.
pub const NO_CONTEXT: usize = 0;

/// The arguments of one call of the make-current entry point.
#[derive(Debug, Clone, Copy, PartialEq, Eq, Structural)]
pub struct MakeCurrentArgs {
    /// The context's handle, `NO_CONTEXT` for the null handle.
    pub context: usize,
    /// The number of bytes in the storage that is handed over, `None` for
    /// the null pointer.
    pub buffer: Option<usize>,
    /// The pixel format.
    pub format: u32,
    /// The buffer's width.
    pub width: i32,
    /// The buffer's height.
    pub height: i32,
}

/// A dimension as the rasterizer's signed integer: the same bits, so that a
/// dimension above the signed range comes out negative.
pub open spec fn c_int(dimension: u32) -> i32 {
    if dimension <= i32::MAX {
        dimension as i32
    } else {
        (dimension - 0x1_0000_0000) as i32
    }
}

/// The arguments that bind the context `handle` to a buffer of the given
/// dimensions, whose storage holds four bytes for each pixel.
pub open spec fn bind_args(handle: usize, width: u32, height: u32) -> MakeCurrentArgs {
    MakeCurrentArgs {
        context: handle,
        buffer: Some(storage_len(width, height) as usize),
        format: GL_UNSIGNED_BYTE,
        width: c_int(width),
        height: c_int(height),
    }
}

/// The arguments that clear the calling thread's current context: null and
/// zero throughout.
pub open spec fn clear_args() -> MakeCurrentArgs {
    MakeCurrentArgs { context: NO_CONTEXT, buffer: None, format: 0, width: 0, height: 0 }
}

/// Computes `c_int`.
pub fn to_c_int(dimension: u32) -> (signed: i32)
    ensures
        signed == c_int(dimension),
{
    if dimension <= 0x7fff_ffff {
        dimension as i32
    } else {
        let low: u32 = dimension - 0x8000_0000;
        low as i32 + i32::MIN
    }
}

impl MakeCurrentArgs {
    /// The context that the calling thread has as its current one after the
    /// rasterizer has answered this call with success: the one that the
    /// call names, none after a call that clears.
    pub open spec fn current_after_success(self) -> usize {
        self.context
    }

    /// What the answer `ret` to this call means: zero says that the
    /// rasterizer refused.
    pub open spec fn outcome_of(self, ret: u8) -> Result<(), Abort> {
        if ret != 0 {
            Ok(())
        } else if self.context == NO_CONTEXT {
            Err(Abort::ClearCurrentUnsupported)
        } else {
            Err(Abort::MakeCurrentFailed)
        }
    }

    /// Reads the rasterizer's answer to this call. A refusal is never an
    /// error to hand back: a refused binding shows a defect in what was
    /// asked, a refused clearing a driver that cannot clear.
    pub fn outcome(&self, ret: u8) -> (outcome: Result<(), Abort>)
        ensures
            outcome == self.outcome_of(ret),
    {
        if ret != 0 {
            Ok(())
        } else if self.context == NO_CONTEXT {
            Err(Abort::ClearCurrentUnsupported)
        } else {
            Err(Abort::MakeCurrentFailed)
        }
    }
}

/// The storage handed over with a binding call is exactly as large as the
/// rasterizer takes it to be from the call's width and height, which it
/// reads as signed integers: four bytes for each pixel, wherever both
/// dimensions are in the signed range and the storage is one that memory
/// can hold.
pub proof fn lemma_bound_storage_matches_dimensions(handle: usize, width: u32, height: u32)
    requires
        width <= i32::MAX,
        height <= i32::MAX,
        storage_len(width, height) <= usize::MAX,
    ensures
        ({
            let call = bind_args(handle, width, height);
            call.buffer == Some((call.width * call.height * 4) as usize)
        }),
{
}

} // verus!
