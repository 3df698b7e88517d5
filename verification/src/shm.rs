//! The shared-memory adapter: frames reach the window through a memory
//! segment shared with the display server.
//!
//! A segment has the size it was negotiated with, so every change of the
//! frame size gives up the old segment and negotiates a new one.
use crate::error::{PlatformFailure, SoftBufferError};
use crate::native::{
    byte_count, check_frame, frame_bytes, present_outcome, Frame, NativeCall, Size,
};
use crate::pixel::{encode, encoded, PixelLayout};
use vstd::prelude::*;

verus! {

/// What a shared-memory adapter holds: the window's identifier and the
/// frame size that its segment was negotiated for, if it has a segment.
#[derive(Debug, Clone, Copy, PartialEq, Eq, Structural)]
pub struct SegmentTarget {
    pub window: u64,
    pub size: Option<Size>,
}

impl SegmentTarget {
    /// The window identifier is not zero.
    pub open spec fn wf(self) -> bool {
        self.window != 0
    }

    /// The size of the segment in bytes, if there is one: exactly one
    /// frame.
    pub open spec fn segment_bytes(self) -> Option<u64> {
        match self.size {
            Some(size) => Some(frame_bytes(size.width, size.height) as u64),
            None => None,
        }
    }

    /// Whether the segment was negotiated for frames of this size.
    pub open spec fn ready_for(self, width: u16, height: u16) -> bool {
        self.size == Some(Size { width, height })
    }

    /// The adapter after a change of the frame size.
    pub open spec fn configured(self, width: u16, height: u16) -> SegmentTarget {
        SegmentTarget { window: self.window, size: Some(Size { width, height }) }
    }

    /// The adapter after a change of the frame size that failed: it counts
    /// as having no segment.
    pub open spec fn unconfigured(self) -> SegmentTarget {
        SegmentTarget { window: self.window, size: None }
    }

    /// The calls of a change of the frame size: the old segment goes, if
    /// there is one, and a segment for the new size comes. Where the size
    /// stays, the segment stays.
    pub open spec fn configure_script(self, width: u16, height: u16) -> Seq<NativeCall> {
        if self.ready_for(width, height) {
            seq![]
        } else {
            self.release_script().push(
                NativeCall::CreateSegment { bytes: frame_bytes(width, height) as u64 },
            )
        }
    }

    /// The calls that show one frame: fill the segment, then draw it.
    pub open spec fn present_script(self, width: u16, height: u16) -> Seq<NativeCall> {
        seq![
            NativeCall::CopyToSegment { bytes: frame_bytes(width, height) as u64 },
            NativeCall::PutImage { drawable: self.window, width, height },
        ]
    }

    /// The calls that give up what the adapter holds.
    pub open spec fn release_script(self) -> Seq<NativeCall> {
        match self.segment_bytes() {
            Some(bytes) => seq![NativeCall::DestroySegment { bytes }],
            None => seq![],
        }
    }
}

/// The shared-memory adapter of one window.
pub struct ShmImpl {
    target: SegmentTarget,
}

impl View for ShmImpl {
    type V = SegmentTarget;

    closed spec fn view(&self) -> SegmentTarget {
        self.target
    }
}

impl ShmImpl {
    /// Builds the adapter for a window, with no segment yet.
    pub fn new(window: u64) -> (result: Result<Self, SoftBufferError>)
        ensures
            result is Ok <==> window != 0,
            match result {
                Ok(adapter) => adapter@ == (SegmentTarget { window, size: None }),
                Err(e) => e == SoftBufferError::Platform(PlatformFailure::InvalidHandle),
            },
    {
        if window == 0 {
            Err(SoftBufferError::Platform(PlatformFailure::InvalidHandle))
        } else {
            Ok(ShmImpl { target: SegmentTarget { window, size: None } })
        }
    }

    /// What the adapter holds.
    pub fn target(&self) -> (target: SegmentTarget)
        ensures
            target == self@,
    {
        self.target
    }

    /// The calls that give up the segment, if there is one.
    fn segment_calls(&self) -> (calls: Vec<NativeCall>)
        ensures
            calls@ == self@.release_script(),
    {
        let mut calls: Vec<NativeCall> = Vec::new();
        match self.target.size {
            Some(size) => {
                calls.push(NativeCall::DestroySegment { bytes: byte_count(size.width, size.height) });
            },
            None => {},
        }
        assert(calls@ =~= self@.release_script());
        calls
    }

    /// Replaces the segment by one that holds a frame of the new size.
    pub fn configure(&mut self, width: u16, height: u16) -> (calls: Vec<NativeCall>)
        ensures
            final(self)@ == old(self)@.configured(width, height),
            calls@ == old(self)@.configure_script(width, height),
    {
        let size = Size { width, height };
        if self.target.size == Some(size) {
            return Vec::new();
        }
        let mut calls = self.segment_calls();
        calls.push(NativeCall::CreateSegment { bytes: byte_count(width, height) });
        self.target = SegmentTarget { window: self.target.window, size: Some(size) };
        calls
    }

    /// Forgets the segment.
    pub fn unconfigure(&mut self)
        ensures
            final(self)@ == old(self)@.unconfigured(),
    {
        self.target = SegmentTarget { window: self.target.window, size: None };
    }

    /// Checks a buffer against the declared size and, if it is one frame
    /// of exactly that size, turns it into the bytes that fill the
    /// segment exactly and the calls that draw it.
    /// Anything else is refused: a usage error where no size was declared,
    /// a size mismatch otherwise. The adapter itself never changes.
    pub fn set_buffer(&mut self, buffer: &[u32], width: u16, height: u16) -> (result: Result<
        Frame,
        SoftBufferError,
    >)
        ensures
            final(self)@ == old(self)@,
            match result {
                Ok(frame) => {
                    &&& present_outcome(old(self)@.size, buffer@.len(), width, height) is Ok
                    &&& frame.bytes@ == encoded(buffer@, PixelLayout::Bgrx)
                    &&& frame.calls@ == old(self)@.present_script(width, height)
                    &&& Some(frame.bytes@.len() as u64) == old(self)@.segment_bytes()
                },
                Err(e) => present_outcome(old(self)@.size, buffer@.len(), width, height) == Err::<
                    (),
                    SoftBufferError,
                >(e),
            },
    {
        match check_frame(self.target.size, buffer.len(), width, height) {
            Err(e) => Err(e),
            Ok(()) => {
                let bytes = encode(buffer, PixelLayout::Bgrx);
                let calls = vec![
                    NativeCall::CopyToSegment { bytes: byte_count(width, height) },
                    NativeCall::PutImage { drawable: self.target.window, width, height },
                ];
                assert(calls@ =~= self@.present_script(width, height));
                Ok(Frame { bytes, calls })
            },
        }
    }

    /// Ends the adapter and returns the calls that give up its segment.
    pub fn release(self) -> (calls: Vec<NativeCall>)
        ensures
            calls@ == self@.release_script(),
    {
        self.segment_calls()
    }
}

} // verus!
