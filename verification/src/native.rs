//! The native calls that an adapter asks for, as plain data.
//!
//! A call names one request to the windowing system. Whoever drives a
//! surface performs the calls of a script in order, on the thread that owns
//! the window, and stops at the first that fails.
use crate::error::{PlatformFailure, SoftBufferError};
use vstd::prelude::*;

verus! {

/// The size of a frame, in pixels.
#[derive(Debug, Clone, Copy, PartialEq, Eq, Structural)]
pub struct Size {
    pub width: u16,
    pub height: u16,
}

/// How the compositor reads the bytes of an image: the arguments of the
/// native image constructor that describe memory, in its own units.
#[derive(Debug, Clone, Copy, PartialEq, Eq, Structural)]
pub struct ImageLayout {
    pub width: usize,
    pub height: usize,
    pub bits_per_component: usize,
    pub bits_per_pixel: usize,
    pub bytes_per_row: usize,
    pub bitmap_info: u32,
    pub should_interpolate: bool,
    pub rendering_intent: u32,
}

/// The header of a device-independent bitmap. A negative height says that
/// the first row in memory is the top row.
#[derive(Debug, Clone, Copy, PartialEq, Eq, Structural)]
pub struct BitmapHeader {
    pub header_size: u32,
    pub width: i32,
    pub height: i32,
    pub planes: u16,
    pub bit_count: u16,
    pub compression: u32,
}

/// Where a layer puts contents that do not fill it.
#[derive(Debug, Clone, Copy, PartialEq, Eq, Structural)]
pub enum Gravity {
    Center,
    Top,
    Bottom,
    Left,
    Right,
    TopLeft,
    TopRight,
    BottomLeft,
    BottomRight,
    Resize,
    ResizeAspect,
    ResizeAspectFill,
}

/// One request to the windowing system.
#[derive(Debug, Clone, Copy, PartialEq, Eq, Structural)]
pub enum NativeCall {
    /// Take one more reference to the display connection.
    RetainDisplay { display: usize },
    /// Give back the reference taken by `RetainDisplay`.
    ReleaseDisplay { display: usize },
    /// Take one more reference to the window object.
    RetainWindow { window: usize },
    /// Give back the reference taken by `RetainWindow`.
    ReleaseWindow { window: usize },
    /// Create the layer, with no contents.
    CreateLayer,
    /// Allocate a subview with the frame that the view has now. The caller
    /// holds the one reference to it.
    CreateSubview { view: usize },
    /// Say where the layer puts contents that do not fill it.
    SetContentsGravity { gravity: Gravity },
    /// Say whether the layer redraws when its bounds change.
    SetNeedsDisplayOnBoundsChange { flag: bool },
    /// Make the layer the layer of the subview.
    SetSubviewLayer,
    /// Say which sides of the subview follow the size of the view.
    SetAutoresizingMask { mask: u64 },
    /// Add the subview to the view, which takes a reference to it.
    AddSubview { view: usize },
    /// Give back the caller's reference to the subview.
    ReleaseSubview,
    /// Give up the layer.
    ReleaseLayer,
    /// Wrap the frame's bytes in an image object.
    CreateImage { layout: ImageLayout },
    /// Open a compositor transaction.
    BeginTransaction,
    /// Switch off the implicit animations of the open transaction.
    DisableActions,
    /// Read the window's device scale factor and set it on the layer.
    SetContentsScale { window: usize },
    /// Make the image created last the contents of the layer.
    SetContents,
    /// Close the transaction opened last.
    CommitTransaction,
    /// Negotiate a shared memory segment of this many bytes.
    CreateSegment { bytes: u64 },
    /// Give up the segment negotiated last.
    DestroySegment { bytes: u64 },
    /// Copy the frame's bytes to the start of the segment.
    CopyToSegment { bytes: u64 },
    /// Ask the server to draw the segment's image onto the window, at the
    /// origin.
    PutImage { drawable: u64, width: u16, height: u16 },
    /// Create the buffer object of a pool slot.
    CreateBuffer { slot: usize, width: u16, height: u16, stride: u32 },
    /// Give up the buffer object of a pool slot.
    DestroyBuffer { slot: usize },
    /// Copy the frame's bytes into the buffer of a pool slot.
    CopyToBuffer { slot: usize },
    /// Attach the buffer of a pool slot to the window's surface.
    AttachBuffer { slot: usize },
    /// Mark the whole area of the surface as changed.
    DamageAll { width: u16, height: u16 },
    /// Hand the attached buffer and the damage to the compositor.
    CommitSurface,
    /// Copy the frame's bytes, described by the header, onto the whole
    /// client area of the window in one call.
    StretchBits { window: usize, header: BitmapHeader },
    /// Set the size of the canvas's backing store.
    ResizeCanvas { canvas: u32, width: u16, height: u16 },
    /// Write the frame's bytes into an image-data object of this size and
    /// draw it at `(x, y)`.
    PutImageData { canvas: u32, width: u16, height: u16, x: u16, y: u16 },
}

/// What a present hands to the native layer: the pixels as bytes, and the
/// calls that show them.
pub struct Frame {
    pub bytes: Vec<u8>,
    pub calls: Vec<NativeCall>,
}

/// How the run of a script ended: every call was made, or the call after
/// the first `completed` calls failed and none was made after it.
#[derive(Debug, Clone, Copy, PartialEq, Eq, Structural)]
pub enum RunOutcome {
    Done,
    Failed { completed: usize, failure: PlatformFailure },
}

/// What is left to do after a run: the result for the caller, and the
/// calls that close what a failed run left open.
pub struct Settled {
    pub result: Result<(), SoftBufferError>,
    pub cleanup: Vec<NativeCall>,
}

/// The number of bytes a frame of `width` by `height` pixels occupies.
pub open spec fn frame_bytes(width: u16, height: u16) -> int {
    4 * (width as int * height as int)
}

/// Computes `frame_bytes`. The product of two 16-bit sizes, times four,
/// always fits in 64 bits.
pub fn byte_count(width: u16, height: u16) -> (bytes: u64)
    ensures
        bytes == frame_bytes(width, height),
{
    assert(width as int * height as int <= 0xffff * 0xffff) by (nonlinear_arith)
        requires
            0 <= width as int <= 0xffff,
            0 <= height as int <= 0xffff,
    ;
    assert(0 <= width as int * height as int) by (nonlinear_arith)
        requires
            0 <= width as int,
            0 <= height as int,
    ;
    4 * (width as u64 * height as u64)
}

/// Whether a buffer of `len` pixels is exactly one frame of `width` by
/// `height`.
pub open spec fn fills(len: nat, width: u16, height: u16) -> bool {
    len as int == width as int * height as int
}

/// Decides `fills` without overflow on any machine.
pub fn buffer_fills(len: usize, width: u16, height: u16) -> (yes: bool)
    ensures
        yes == fills(len as nat, width, height),
{
    assert(width as int * height as int <= 0xffff * 0xffff) by (nonlinear_arith)
        requires
            0 <= width as int <= 0xffff,
            0 <= height as int <= 0xffff,
    ;
    assert(0 <= width as int * height as int) by (nonlinear_arith)
        requires
            0 <= width as int,
            0 <= height as int,
    ;
    len as u64 == width as u64 * height as u64
}

/// What a present of `len` pixels as a frame of `width` by `height` comes
/// to on a target with this declared size. The declared size is looked at
/// first: where none was declared, no size is right.
pub open spec fn present_outcome(declared: Option<Size>, len: nat, width: u16, height: u16) -> Result<
    (),
    SoftBufferError,
> {
    match declared {
        None => Err(SoftBufferError::UnsizedSurface),
        Some(size) => if size == (Size { width, height }) && fills(len, width, height) {
            Ok(())
        } else {
            Err(SoftBufferError::SizeMismatch)
        },
    }
}

/// Decides `present_outcome`.
pub fn check_frame(declared: Option<Size>, len: usize, width: u16, height: u16) -> (result: Result<
    (),
    SoftBufferError,
>)
    ensures
        result == present_outcome(declared, len as nat, width, height),
{
    match declared {
        None => Err(SoftBufferError::UnsizedSurface),
        Some(size) => if size == (Size { width, height }) && buffer_fills(len, width, height) {
            Ok(())
        } else {
            Err(SoftBufferError::SizeMismatch)
        },
    }
}

/// What the caller of an operation gets after the run of its script.
pub open spec fn run_result(outcome: RunOutcome) -> Result<(), SoftBufferError> {
    match outcome {
        RunOutcome::Done => Ok(()),
        RunOutcome::Failed { failure, .. } => Err(SoftBufferError::Platform(failure)),
    }
}

} // verus!
