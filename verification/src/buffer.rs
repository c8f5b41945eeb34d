//! The pixel buffer a context renders into.

use crate::dpi::PhysicalSize;
use crate::error::Error;
use std::mem::MaybeUninit;
use vstd::prelude::*;

verus! {

/// A buffer of RGBA pixels, one byte for each of the four channels, in host
/// memory. Its dimensions never change, and it holds four bytes for each
/// pixel.
#[derive(Debug)]
pub struct OsMesaBuffer {
    buffer: Vec<MaybeUninit<u8>>,
    width: u32,
    height: u32,
}

/// A buffer as plain values. A byte of the storage that holds no value yet
/// is `None`.
pub struct BufferView {
    pub width: u32,
    pub height: u32,
    pub storage: Seq<Option<u8>>,
}

/// The number of bytes that a buffer of the given dimensions holds.
pub open spec fn storage_len(width: u32, height: u32) -> int {
    width * height * 4
}

impl View for OsMesaBuffer {
    type V = BufferView;

    closed spec fn view(&self) -> BufferView {
        BufferView {
            width: self.width,
            height: self.height,
            storage: self.buffer@.map_values(|byte: MaybeUninit<u8>| byte.as_option()),
        }
    }
}

impl OsMesaBuffer {
    #[verifier::type_invariant]
    spec fn well_formed(&self) -> bool {
        self.buffer@.len() == storage_len(self.width, self.height)
    }

    /// Whether a buffer of this size can be allocated at all: no allocation
    /// holds more than `isize::MAX` bytes.
    pub fn fits_in_memory(size: PhysicalSize<u32>) -> (fits: bool)
        ensures
            fits == (storage_len(size.width, size.height) <= isize::MAX),
    {
        assert(size.width * size.height <= 0xffff_ffff * 0xffff_ffff) by (nonlinear_arith)
            requires
                size.width <= 0xffff_ffff,
                size.height <= 0xffff_ffff,
        ;
        let pixels: u64 = size.width as u64 * size.height as u64;
        pixels <= isize::MAX as u64 / 4
    }

    /// Allocates the buffer for a size, and writes nothing to it. Nothing
    /// of the rasterizer is involved.
    pub fn new(size: PhysicalSize<u32>) -> (created: Result<OsMesaBuffer, Error>)
        requires
            storage_len(size.width, size.height) <= isize::MAX,
        ensures
            created matches Ok(buffer) && buffer@ == (BufferView {
                width: size.width,
                height: size.height,
                storage: Seq::new(
                    storage_len(size.width, size.height) as nat,
                    |i: int| None::<u8>,
                ),
            }),
    {
        let pixels: usize = size.width as usize * size.height as usize;
        let len: usize = pixels * 4;
        let mut buffer: Vec<MaybeUninit<u8>> = Vec::with_capacity(len);
        while buffer.len() < len
            invariant
                buffer@.len() <= len,
                forall|i: int| 0 <= i < buffer@.len() ==> buffer@[i].as_option() is None,
            decreases len - buffer@.len(),
        {
            buffer.push(MaybeUninit::uninit());
        }
        let created = OsMesaBuffer { buffer, width: size.width, height: size.height };
        assert(created@.storage =~= Seq::new(len as nat, |i: int| None::<u8>));
        Ok(created)
    }

    /// The width in pixels.
    pub fn width(&self) -> (width: u32)
        ensures
            width == self@.width,
    {
        self.width
    }

    /// The height in pixels.
    pub fn height(&self) -> (height: u32)
        ensures
            height == self@.height,
    {
        self.height
    }

    /// The storage, four bytes for each pixel.
    pub fn storage(&self) -> (storage: &Vec<MaybeUninit<u8>>)
        ensures
            storage@.len() == storage_len(self@.width, self@.height),
            storage@.map_values(|byte: MaybeUninit<u8>| byte.as_option()) == self@.storage,
    {
        proof {
            use_type_invariant(self);
        }
        &self.buffer
    }
}

} // verus!
