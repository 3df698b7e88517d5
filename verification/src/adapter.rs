//! The closed set of platform adapters behind one interface.
//!
//! An adapter is picked once, when a surface is made, by the kind of the
//! window handle. From then on the surface speaks to it through the same
//! few operations, whatever the windowing system.
use crate::canvas::{CanvasImpl, CanvasTarget};
use crate::cg::{CGImpl, LayerTarget};
use crate::dib::{DeviceTarget, DibImpl};
use crate::error::{PlatformFailure, SoftBufferError};
use crate::handle::{Platform, WindowHandle};
use crate::native::{present_outcome, Frame, NativeCall, Size};
use crate::pixel::{encoded, PixelLayout};
use crate::pool::{PoolImpl, PoolTarget};
use crate::shm::{SegmentTarget, ShmImpl};
use vstd::prelude::*;

verus! {

/// What an adapter holds, whichever it is.
pub enum Target {
    CompositorLayer(LayerTarget),
    SharedMemory(SegmentTarget),
    BufferProtocol(PoolTarget),
    DeviceContext(DeviceTarget),
    Canvas(CanvasTarget),
}

impl Target {
    /// The native object that the adapter is bound to exists.
    pub open spec fn wf(self) -> bool {
        match self {
            Target::CompositorLayer(t) => t.wf(),
            Target::SharedMemory(t) => t.wf(),
            Target::BufferProtocol(t) => t.wf(),
            Target::DeviceContext(t) => t.wf(),
            Target::Canvas(t) => t.wf(),
        }
    }

    /// The kind of the adapter.
    pub open spec fn platform(self) -> Platform {
        match self {
            Target::CompositorLayer(_) => Platform::CompositorLayer,
            Target::SharedMemory(_) => Platform::SharedMemory,
            Target::BufferProtocol(_) => Platform::BufferProtocol,
            Target::DeviceContext(_) => Platform::DeviceContext,
            Target::Canvas(_) => Platform::Canvas,
        }
    }

    /// The byte layout that the native target reads.
    pub open spec fn layout(self) -> PixelLayout {
        match self {
            Target::Canvas(_) => PixelLayout::Rgba,
            _ => PixelLayout::Bgrx,
        }
    }

    /// The calls that bind a new adapter to its window.
    pub open spec fn attach_script(self) -> Seq<NativeCall> {
        match self {
            Target::CompositorLayer(t) => t.attach_script(),
            _ => seq![],
        }
    }

    /// The size of the frames that the adapter was last configured for.
    pub open spec fn size(self) -> Option<Size> {
        match self {
            Target::CompositorLayer(t) => t.size,
            Target::SharedMemory(t) => t.size,
            Target::BufferProtocol(t) => t.size,
            Target::DeviceContext(t) => t.size,
            Target::Canvas(t) => t.size,
        }
    }

    /// Whether the adapter was last configured for frames of this size.
    pub open spec fn ready_for(self, width: u16, height: u16) -> bool {
        self.size() == Some(Size { width, height })
    }

    /// The adapter after a change of the frame size. A change to the size
    /// it has leaves every adapter as it is.
    pub open spec fn configured(self, width: u16, height: u16) -> Target {
        match self {
            Target::CompositorLayer(t) => Target::CompositorLayer(t.configured(width, height)),
            Target::SharedMemory(t) => Target::SharedMemory(t.configured(width, height)),
            Target::BufferProtocol(t) => Target::BufferProtocol(t.configured(width, height)),
            Target::DeviceContext(t) => Target::DeviceContext(t.configured(width, height)),
            Target::Canvas(t) => Target::Canvas(t.configured(width, height)),
        }
    }

    /// The calls of a change of the frame size: none where the size stays,
    /// and none for adapters that make their native image anew for each
    /// frame.
    pub open spec fn configure_script(self, width: u16, height: u16) -> Seq<NativeCall> {
        match self {
            Target::CompositorLayer(_) => seq![],
            Target::SharedMemory(t) => t.configure_script(width, height),
            Target::BufferProtocol(t) => t.configure_script(width, height),
            Target::DeviceContext(_) => seq![],
            Target::Canvas(t) => t.configure_script(width, height),
        }
    }

    /// The adapter after a change of the frame size that failed: it is
    /// configured for no size.
    pub open spec fn unconfigured(self) -> Target {
        match self {
            Target::CompositorLayer(t) => Target::CompositorLayer(t.unconfigured()),
            Target::SharedMemory(t) => Target::SharedMemory(t.unconfigured()),
            Target::BufferProtocol(t) => Target::BufferProtocol(t.unconfigured()),
            Target::DeviceContext(t) => Target::DeviceContext(t.unconfigured()),
            Target::Canvas(t) => Target::Canvas(t.unconfigured()),
        }
    }

    /// The adapter after a frame reached the native layer. Only the
    /// buffer-protocol adapter keeps track of it.
    pub open spec fn presented(self) -> Target {
        match self {
            Target::BufferProtocol(t) => Target::BufferProtocol(t.presented()),
            _ => self,
        }
    }

    /// The calls to make after the run of a present failed with `completed`
    /// calls made.
    pub open spec fn recovery_script(self, completed: usize) -> Seq<NativeCall> {
        match self {
            Target::CompositorLayer(t) => t.recovery_script(completed),
            Target::BufferProtocol(t) => t.recovery_script(completed),
            _ => seq![],
        }
    }

    /// The calls that show one frame.
    pub open spec fn present_script(self, width: u16, height: u16) -> Seq<NativeCall> {
        match self {
            Target::CompositorLayer(t) => t.present_script(width, height),
            Target::SharedMemory(t) => t.present_script(width, height),
            Target::BufferProtocol(t) => t.present_script(width, height),
            Target::DeviceContext(t) => t.present_script(width, height),
            Target::Canvas(t) => t.present_script(width, height),
        }
    }

    /// The adapter after the compositor gave a buffer back. Only the
    /// buffer-protocol adapter has buffers that travel.
    pub open spec fn released(self, slot: usize) -> Target {
        match self {
            Target::BufferProtocol(t) => Target::BufferProtocol(t.released(slot)),
            _ => self,
        }
    }

    /// The calls that follow the return of a buffer.
    pub open spec fn released_script(self, slot: usize) -> Seq<NativeCall> {
        match self {
            Target::BufferProtocol(t) => t.released_script(slot),
            _ => seq![],
        }
    }

    /// The calls that give up everything the adapter holds.
    pub open spec fn release_script(self) -> Seq<NativeCall> {
        match self {
            Target::CompositorLayer(t) => t.release_script(),
            Target::SharedMemory(t) => t.release_script(),
            Target::BufferProtocol(t) => t.release_script(),
            Target::DeviceContext(_) => seq![],
            Target::Canvas(_) => seq![],
        }
    }
}

/// The adapter for a window on a context of the given kind: none where the
/// window belongs to another windowing system than the context or to one
/// without an adapter, none where the handle names nothing.
pub open spec fn target_for(platform: Platform, handle: WindowHandle) -> Result<
    Target,
    SoftBufferError,
> {
    let invalid = Err(SoftBufferError::Platform(PlatformFailure::InvalidHandle));
    if handle.platform() != Some(platform) {
        Err(SoftBufferError::Platform(PlatformFailure::UnsupportedPlatform))
    } else {
        match handle {
            WindowHandle::AppKit { ns_window, ns_view } => if ns_window == 0 || ns_view == 0 {
                invalid
            } else {
                Ok(
                    Target::CompositorLayer(
                        LayerTarget { window: ns_window, view: ns_view, size: None },
                    ),
                )
            },
            WindowHandle::Xlib { window } => if window == 0 {
                invalid
            } else {
                Ok(Target::SharedMemory(SegmentTarget { window, size: None }))
            },
            WindowHandle::Xcb { window } => if window == 0 {
                invalid
            } else {
                Ok(Target::SharedMemory(SegmentTarget { window, size: None }))
            },
            WindowHandle::Wayland { surface } => if surface == 0 {
                invalid
            } else {
                Ok(Target::BufferProtocol(PoolTarget { surface, size: None, slots: seq![] }))
            },
            WindowHandle::Win32 { hwnd } => if hwnd == 0 {
                invalid
            } else {
                Ok(Target::DeviceContext(DeviceTarget { window: hwnd, size: None }))
            },
            WindowHandle::Web { id } => if id == 0 {
                invalid
            } else {
                Ok(Target::Canvas(CanvasTarget { canvas: id, size: None }))
            },
            WindowHandle::Other => Err(
                SoftBufferError::Platform(PlatformFailure::UnsupportedPlatform),
            ),
        }
    }
}

/// The adapter of one window.
pub enum PlatformAdapter {
    CompositorLayer(CGImpl),
    SharedMemory(ShmImpl),
    BufferProtocol(PoolImpl),
    DeviceContext(DibImpl),
    Canvas(CanvasImpl),
}

impl View for PlatformAdapter {
    type V = Target;

    open spec fn view(&self) -> Target {
        match self {
            PlatformAdapter::CompositorLayer(a) => Target::CompositorLayer(a@),
            PlatformAdapter::SharedMemory(a) => Target::SharedMemory(a@),
            PlatformAdapter::BufferProtocol(a) => Target::BufferProtocol(a@),
            PlatformAdapter::DeviceContext(a) => Target::DeviceContext(a@),
            PlatformAdapter::Canvas(a) => Target::Canvas(a@),
        }
    }
}

/// The outcome of picking an adapter, with the adapter seen as what it
/// holds.
pub open spec fn picked(result: Result<PlatformAdapter, SoftBufferError>) -> Result<
    Target,
    SoftBufferError,
> {
    match result {
        Ok(adapter) => Ok(adapter@),
        Err(e) => Err(e),
    }
}

impl PlatformAdapter {
    /// Picks and builds the adapter for a window.
    pub fn select(platform: Platform, handle: WindowHandle) -> (result: Result<
        Self,
        SoftBufferError,
    >)
        ensures
            picked(result) == target_for(platform, handle),
    {
        if handle.kind() != Some(platform) {
            return Err(SoftBufferError::Platform(PlatformFailure::UnsupportedPlatform));
        }
        match handle {
            WindowHandle::AppKit { ns_window, ns_view } => {
                match CGImpl::from_addresses(ns_window, ns_view) {
                    Ok(adapter) => Ok(PlatformAdapter::CompositorLayer(adapter)),
                    Err(e) => Err(e),
                }
            },
            WindowHandle::Xlib { window } => {
                match ShmImpl::new(window) {
                    Ok(adapter) => Ok(PlatformAdapter::SharedMemory(adapter)),
                    Err(e) => Err(e),
                }
            },
            WindowHandle::Xcb { window } => {
                match ShmImpl::new(window) {
                    Ok(adapter) => Ok(PlatformAdapter::SharedMemory(adapter)),
                    Err(e) => Err(e),
                }
            },
            WindowHandle::Wayland { surface } => {
                match PoolImpl::new(surface) {
                    Ok(adapter) => Ok(PlatformAdapter::BufferProtocol(adapter)),
                    Err(e) => Err(e),
                }
            },
            WindowHandle::Win32 { hwnd } => {
                match DibImpl::new(hwnd) {
                    Ok(adapter) => Ok(PlatformAdapter::DeviceContext(adapter)),
                    Err(e) => Err(e),
                }
            },
            WindowHandle::Web { id } => {
                match CanvasImpl::new(id) {
                    Ok(adapter) => Ok(PlatformAdapter::Canvas(adapter)),
                    Err(e) => Err(e),
                }
            },
            WindowHandle::Other => Err(
                SoftBufferError::Platform(PlatformFailure::UnsupportedPlatform),
            ),
        }
    }

    /// The calls that bind the adapter to its window. They are made once,
    /// before any frame is shown.
    pub fn attach_calls(&self) -> (calls: Vec<NativeCall>)
        ensures
            calls@ == self@.attach_script(),
    {
        match self {
            PlatformAdapter::CompositorLayer(adapter) => adapter.attach_calls(),
            _ => Vec::new(),
        }
    }

    /// The size of the frames that the adapter was last configured for.
    pub fn size(&self) -> (size: Option<Size>)
        ensures
            size == self@.size(),
    {
        match self {
            PlatformAdapter::CompositorLayer(adapter) => adapter.target().size,
            PlatformAdapter::SharedMemory(adapter) => adapter.target().size,
            PlatformAdapter::BufferProtocol(adapter) => adapter.size(),
            PlatformAdapter::DeviceContext(adapter) => adapter.target().size,
            PlatformAdapter::Canvas(adapter) => adapter.target().size,
        }
    }

    /// Makes the native target fit frames of a new size.
    pub fn configure(&mut self, width: u16, height: u16) -> (calls: Vec<NativeCall>)
        ensures
            final(self)@ == old(self)@.configured(width, height),
            calls@ == old(self)@.configure_script(width, height),
    {
        match self {
            PlatformAdapter::CompositorLayer(adapter) => adapter.configure(width, height),
            PlatformAdapter::SharedMemory(adapter) => adapter.configure(width, height),
            PlatformAdapter::BufferProtocol(adapter) => adapter.configure(width, height),
            PlatformAdapter::DeviceContext(adapter) => adapter.configure(width, height),
            PlatformAdapter::Canvas(adapter) => adapter.configure(width, height),
        }
    }

    /// Forgets the size that the adapter is configured for.
    pub fn unconfigure(&mut self)
        ensures
            final(self)@ == old(self)@.unconfigured(),
    {
        match self {
            PlatformAdapter::CompositorLayer(adapter) => adapter.unconfigure(),
            PlatformAdapter::SharedMemory(adapter) => adapter.unconfigure(),
            PlatformAdapter::BufferProtocol(adapter) => adapter.unconfigure(),
            PlatformAdapter::DeviceContext(adapter) => adapter.unconfigure(),
            PlatformAdapter::Canvas(adapter) => adapter.unconfigure(),
        }
    }

    /// Checks a buffer against the size that the adapter is configured for
    /// and, if it is one frame of exactly that size, turns it into the
    /// bytes the native target reads and the calls that show them. Anything
    /// else is refused, and the adapter itself never changes.
    pub fn blit(&mut self, buffer: &[u32], width: u16, height: u16) -> (result: Result<
        Frame,
        SoftBufferError,
    >)
        ensures
            final(self)@ == old(self)@,
            match result {
                Ok(frame) => {
                    &&& present_outcome(old(self)@.size(), buffer@.len(), width, height) is Ok
                    &&& frame.bytes@ == encoded(buffer@, old(self)@.layout())
                    &&& frame.calls@ == old(self)@.present_script(width, height)
                },
                Err(e) => present_outcome(old(self)@.size(), buffer@.len(), width, height)
                    == Err::<(), SoftBufferError>(e),
            },
    {
        match self {
            PlatformAdapter::CompositorLayer(adapter) => adapter.set_buffer(buffer, width, height),
            PlatformAdapter::SharedMemory(adapter) => adapter.set_buffer(buffer, width, height),
            PlatformAdapter::BufferProtocol(adapter) => adapter.set_buffer(buffer, width, height),
            PlatformAdapter::DeviceContext(adapter) => adapter.set_buffer(buffer, width, height),
            PlatformAdapter::Canvas(adapter) => adapter.set_buffer(buffer, width, height),
        }
    }

    /// Takes note that the frame reached the native layer.
    pub fn frame_shown(&mut self)
        ensures
            final(self)@ == old(self)@.presented(),
    {
        match self {
            PlatformAdapter::BufferProtocol(adapter) => adapter.frame_shown(),
            _ => {},
        }
    }

    /// The calls to make after the run of a present failed with
    /// `completed` calls made.
    pub fn recover(&self, completed: usize) -> (calls: Vec<NativeCall>)
        ensures
            calls@ == self@.recovery_script(completed),
    {
        match self {
            PlatformAdapter::CompositorLayer(adapter) => adapter.recover(completed),
            PlatformAdapter::BufferProtocol(adapter) => adapter.recover(completed),
            _ => Vec::new(),
        }
    }

    /// Takes the compositor's word that it is done with a buffer.
    pub fn buffer_released(&mut self, slot: usize) -> (calls: Vec<NativeCall>)
        ensures
            final(self)@ == old(self)@.released(slot),
            calls@ == old(self)@.released_script(slot),
    {
        match self {
            PlatformAdapter::BufferProtocol(adapter) => adapter.buffer_released(slot),
            _ => Vec::new(),
        }
    }

    /// Ends the adapter and returns the calls that give up what it held.
    /// The adapter is consumed: nothing can use or release it again.
    pub fn release(self) -> (calls: Vec<NativeCall>)
        ensures
            calls@ == self@.release_script(),
    {
        match self {
            PlatformAdapter::CompositorLayer(adapter) => adapter.release(),
            PlatformAdapter::SharedMemory(adapter) => adapter.release(),
            PlatformAdapter::BufferProtocol(adapter) => adapter.release(),
            PlatformAdapter::DeviceContext(_) => Vec::new(),
            PlatformAdapter::Canvas(_) => Vec::new(),
        }
    }
}

/// A change of the frame size leaves the adapter configured for exactly
/// that size, and a second change to the same size changes nothing and
/// asks for no call.
pub proof fn lemma_configure_is_idempotent(target: Target, width: u16, height: u16)
    ensures
        target.configured(width, height).size() == Some(Size { width, height }),
        target.configured(width, height).configured(width, height) == target.configured(
            width,
            height,
        ),
        target.configured(width, height).configure_script(width, height) == Seq::<
            NativeCall,
        >::empty(),
{
}

/// Only a change of the frame size changes the size that an adapter is
/// configured for: a frame that was shown and the return of a buffer keep
/// it.
pub proof fn lemma_size_is_kept(target: Target, slot: usize)
    ensures
        target.presented().size() == target.size(),
        target.released(slot).size() == target.size(),
        target.unconfigured().size() is None,
{
}

/// No operation unbinds an adapter from its native object or moves it to
/// another windowing system.
pub proof fn lemma_binding_is_kept(target: Target, width: u16, height: u16, slot: usize)
    requires
        target.wf(),
    ensures
        target.configured(width, height).wf(),
        target.unconfigured().wf(),
        target.presented().wf(),
        target.released(slot).wf(),
        target.configured(width, height).platform() == target.platform(),
        target.unconfigured().platform() == target.platform(),
        target.presented().platform() == target.platform(),
        target.released(slot).platform() == target.platform(),
{
}

/// An adapter is only ever picked for a window of the context's own
/// windowing system, is bound to an existing native object and is not yet
/// configured for any size.
pub proof fn lemma_target_for(platform: Platform, handle: WindowHandle)
    ensures
        match target_for(platform, handle) {
            Ok(target) => target.wf() && target.platform() == platform && handle.platform()
                == Some(platform) && target.size() is None,
            Err(e) => e is Platform,
        },
{
}

} // verus!
