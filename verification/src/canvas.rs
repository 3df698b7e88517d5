//! The canvas adapter, for environments that offer only a 2-D drawing
//! surface: each frame is written into an image-data object and drawn.
use crate::error::{PlatformFailure, SoftBufferError};
use crate::native::{check_frame, present_outcome, Frame, NativeCall, Size};
use crate::pixel::{encode, encoded, PixelLayout};
use vstd::prelude::*;

verus! {

/// What a canvas adapter holds: the canvas's identifier and the size of
/// its backing store, once it was set.
#[derive(Debug, Clone, Copy, PartialEq, Eq, Structural)]
pub struct CanvasTarget {
    pub canvas: u32,
    pub size: Option<Size>,
}

impl CanvasTarget {
    /// The identifier is not zero, which is kept for "no canvas".
    pub open spec fn wf(self) -> bool {
        self.canvas != 0
    }

    /// Whether the backing store has exactly this size.
    pub open spec fn ready_for(self, width: u16, height: u16) -> bool {
        self.size == Some(Size { width, height })
    }

    /// The adapter after a change of the frame size.
    pub open spec fn configured(self, width: u16, height: u16) -> CanvasTarget {
        CanvasTarget { canvas: self.canvas, size: Some(Size { width, height }) }
    }

    /// The adapter after a change of the frame size that failed: the size
    /// of the backing store counts as unknown.
    pub open spec fn unconfigured(self) -> CanvasTarget {
        CanvasTarget { canvas: self.canvas, size: None }
    }

    /// The calls of a change of the frame size: none where the backing
    /// store has that size already.
    pub open spec fn configure_script(self, width: u16, height: u16) -> Seq<NativeCall> {
        if self.ready_for(width, height) {
            seq![]
        } else {
            seq![NativeCall::ResizeCanvas { canvas: self.canvas, width, height }]
        }
    }

    /// The calls that show one frame: it is drawn at the origin.
    pub open spec fn present_script(self, width: u16, height: u16) -> Seq<NativeCall> {
        seq![NativeCall::PutImageData { canvas: self.canvas, width, height, x: 0, y: 0 }]
    }
}

/// The canvas adapter of one canvas.
pub struct CanvasImpl {
    target: CanvasTarget,
}

impl View for CanvasImpl {
    type V = CanvasTarget;

    closed spec fn view(&self) -> CanvasTarget {
        self.target
    }
}

impl CanvasImpl {
    /// Builds the adapter for a canvas, whose backing store keeps the size
    /// it has until the first resize.
    pub fn new(canvas: u32) -> (result: Result<Self, SoftBufferError>)
        ensures
            result is Ok <==> canvas != 0,
            match result {
                Ok(adapter) => adapter@ == (CanvasTarget { canvas, size: None }),
                Err(e) => e == SoftBufferError::Platform(PlatformFailure::InvalidHandle),
            },
    {
        if canvas == 0 {
            Err(SoftBufferError::Platform(PlatformFailure::InvalidHandle))
        } else {
            Ok(CanvasImpl { target: CanvasTarget { canvas, size: None } })
        }
    }

    /// What the adapter holds.
    pub fn target(&self) -> (target: CanvasTarget)
        ensures
            target == self@,
    {
        self.target
    }

    /// Gives the backing store the size of the frames to come.
    pub fn configure(&mut self, width: u16, height: u16) -> (calls: Vec<NativeCall>)
        ensures
            final(self)@ == old(self)@.configured(width, height),
            calls@ == old(self)@.configure_script(width, height),
    {
        let size = Size { width, height };
        if self.target.size == Some(size) {
            return Vec::new();
        }
        let calls = vec![NativeCall::ResizeCanvas { canvas: self.target.canvas, width, height }];
        assert(calls@ =~= self@.configure_script(width, height));
        self.target = CanvasTarget { canvas: self.target.canvas, size: Some(size) };
        calls
    }

    /// Forgets the size of the backing store.
    pub fn unconfigure(&mut self)
        ensures
            final(self)@ == old(self)@.unconfigured(),
    {
        self.target = CanvasTarget { canvas: self.target.canvas, size: None };
    }

    /// Checks a buffer against the declared size and, if it is one frame
    /// of exactly that size, turns it into the bytes of the
    /// image data and the call that draws it.
    /// Anything else is refused: a usage error where no size was declared,
    /// a size mismatch otherwise. The adapter itself never changes.
    pub fn set_buffer(&mut self, buffer: &[u32], width: u16, height: u16) -> (result: Result<
        Frame,
        SoftBufferError,
    >)
        ensures
            final(self)@ == old(self)@,
            match result {
                Ok(frame) => {
                    &&& present_outcome(old(self)@.size, buffer@.len(), width, height) is Ok
                    &&& frame.bytes@ == encoded(buffer@, PixelLayout::Rgba)
                    &&& frame.calls@ == old(self)@.present_script(width, height)
                },
                Err(e) => present_outcome(old(self)@.size, buffer@.len(), width, height) == Err::<
                    (),
                    SoftBufferError,
                >(e),
            },
    {
        match check_frame(self.target.size, buffer.len(), width, height) {
            Err(e) => Err(e),
            Ok(()) => {
                let bytes = encode(buffer, PixelLayout::Rgba);
                let calls = vec![
                    NativeCall::PutImageData {
                        canvas: self.target.canvas,
                        width,
                        height,
                        x: 0,
                        y: 0,
                    },
                ];
                assert(calls@ =~= self@.present_script(width, height));
                Ok(Frame { bytes, calls })
            },
        }
    }
}

} // verus!
