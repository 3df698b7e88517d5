//! The device-context adapter: each frame is copied onto the window's
//! device context in one call, described by a bitmap header.
//!
//! Nothing native outlives a present, so there is nothing to configure on a
//! resize and nothing to give up at the end.
use crate::error::{PlatformFailure, SoftBufferError};
use crate::native::{check_frame, present_outcome, BitmapHeader, Frame, NativeCall, Size};
use crate::pixel::{encode, encoded, PixelLayout};
use vstd::prelude::*;

verus! {

/// The size in bytes of the bitmap header itself.
pub const HEADER_SIZE: u32 = 40;

/// Header value: the pixels are stored uncompressed.
pub const UNCOMPRESSED: u32 = 0;

/// What a device-context adapter holds: the address of the window, and
/// the size of the frames it was last configured for.
#[derive(Debug, Clone, Copy, PartialEq, Eq, Structural)]
pub struct DeviceTarget {
    pub window: usize,
    pub size: Option<Size>,
}

impl DeviceTarget {
    /// The window address is not null.
    pub open spec fn wf(self) -> bool {
        self.window != 0
    }

    /// Whether the adapter was last configured for frames of this size.
    pub open spec fn ready_for(self, width: u16, height: u16) -> bool {
        self.size == Some(Size { width, height })
    }

    /// The adapter after a change of the frame size.
    pub open spec fn configured(self, width: u16, height: u16) -> DeviceTarget {
        DeviceTarget { window: self.window, size: Some(Size { width, height }) }
    }

    /// The adapter after a change of the frame size that failed.
    pub open spec fn unconfigured(self) -> DeviceTarget {
        DeviceTarget { window: self.window, size: None }
    }

    /// The calls that show one frame.
    pub open spec fn present_script(self, width: u16, height: u16) -> Seq<NativeCall> {
        seq![NativeCall::StretchBits { window: self.window, header: bitmap_header(width, height) }]
    }
}

/// The header of a frame: one plane of 32-bit pixels, uncompressed, rows
/// from the top down.
pub open spec fn bitmap_header(width: u16, height: u16) -> BitmapHeader {
    BitmapHeader {
        header_size: HEADER_SIZE,
        width: width as i32,
        height: (-(height as int)) as i32,
        planes: 1,
        bit_count: 32,
        compression: UNCOMPRESSED,
    }
}

/// Computes `bitmap_header`.
pub fn header_for(width: u16, height: u16) -> (header: BitmapHeader)
    ensures
        header == bitmap_header(width, height),
{
    BitmapHeader {
        header_size: HEADER_SIZE,
        width: width as i32,
        height: -(height as i32),
        planes: 1,
        bit_count: 32,
        compression: UNCOMPRESSED,
    }
}

/// The device-context adapter of one window.
pub struct DibImpl {
    target: DeviceTarget,
}

impl View for DibImpl {
    type V = DeviceTarget;

    closed spec fn view(&self) -> DeviceTarget {
        self.target
    }
}

impl DibImpl {
    /// Builds the adapter for a window given by address.
    pub fn new(window: usize) -> (result: Result<Self, SoftBufferError>)
        ensures
            result is Ok <==> window != 0,
            match result {
                Ok(adapter) => adapter@ == (DeviceTarget { window, size: None }),
                Err(e) => e == SoftBufferError::Platform(PlatformFailure::InvalidHandle),
            },
    {
        if window == 0 {
            Err(SoftBufferError::Platform(PlatformFailure::InvalidHandle))
        } else {
            Ok(DibImpl { target: DeviceTarget { window, size: None } })
        }
    }

    /// What the adapter holds.
    pub fn target(&self) -> (target: DeviceTarget)
        ensures
            target == self@,
    {
        self.target
    }

    /// Declares the size of the frames to come.
    pub fn configure(&mut self, width: u16, height: u16) -> (calls: Vec<NativeCall>)
        ensures
            final(self)@ == old(self)@.configured(width, height),
            calls@ == Seq::<NativeCall>::empty(),
    {
        self.target = DeviceTarget { window: self.target.window, size: Some(Size { width, height }) };
        Vec::new()
    }

    /// Forgets the declared size.
    pub fn unconfigure(&mut self)
        ensures
            final(self)@ == old(self)@.unconfigured(),
    {
        self.target = DeviceTarget { window: self.target.window, size: None };
    }

    /// Checks a buffer against the declared size and, if it is one frame
    /// of exactly that size, turns it into the bytes to copy and
    /// the call that copies them.
    /// Anything else is refused: a usage error where no size was declared,
    /// a size mismatch otherwise. The adapter itself never changes.
    pub fn set_buffer(&mut self, buffer: &[u32], width: u16, height: u16) -> (result: Result<
        Frame,
        SoftBufferError,
    >)
        ensures
            final(self)@ == old(self)@,
            match result {
                Ok(frame) => {
                    &&& present_outcome(old(self)@.size, buffer@.len(), width, height) is Ok
                    &&& frame.bytes@ == encoded(buffer@, PixelLayout::Bgrx)
                    &&& frame.calls@ == old(self)@.present_script(width, height)
                },
                Err(e) => present_outcome(old(self)@.size, buffer@.len(), width, height) == Err::<
                    (),
                    SoftBufferError,
                >(e),
            },
    {
        match check_frame(self.target.size, buffer.len(), width, height) {
            Err(e) => Err(e),
            Ok(()) => {
                let bytes = encode(buffer, PixelLayout::Bgrx);
                let calls = vec![
                    NativeCall::StretchBits {
                        window: self.target.window,
                        header: header_for(width, height),
                    },
                ];
                assert(calls@ =~= self@.present_script(width, height));
                Ok(Frame { bytes, calls })
            },
        }
    }
}

} // verus!
