//! Native handles as plain values.
//!
//! A windowing toolkit hands out raw handles: addresses and identifiers of
//! native objects. The crate never follows an address. It keeps what a
//! handle holds as numbers, tells the windowing systems apart, and refuses
//! a handle that names nothing.
use raw_window_handle::{AppKitWindowHandle, RawDisplayHandle, RawWindowHandle};
use vstd::prelude::*;

verus! {

/// The kinds of native presentation target, one per adapter.
#[derive(Debug, Clone, Copy, PartialEq, Eq, Structural)]
pub enum Platform {
    CompositorLayer,
    SharedMemory,
    BufferProtocol,
    DeviceContext,
    Canvas,
}

/// What a display handle holds. Some windowing systems have no connection
/// object: their handle is a mere marker.
#[derive(Debug, Clone, Copy, PartialEq, Eq, Structural)]
pub enum DisplayHandle {
    AppKit,
    Xlib { display: usize },
    Xcb { connection: usize },
    Wayland { display: usize },
    Windows,
    Web,
    /// A windowing system that no adapter serves.
    Other,
}

/// What a window handle holds.
#[derive(Debug, Clone, Copy, PartialEq, Eq, Structural)]
pub enum WindowHandle {
    AppKit { ns_window: usize, ns_view: usize },
    Xlib { window: u64 },
    Xcb { window: u64 },
    Wayland { surface: usize },
    Win32 { hwnd: usize },
    Web { id: u32 },
    /// A windowing system that no adapter serves.
    Other,
}

/// `raw_window_handle::AppKitWindowHandle`, carried through as it is.
#[verifier::external_type_specification]
#[verifier::external_body]
pub struct ExAppKitWindowHandle(AppKitWindowHandle);

/// `raw_window_handle::RawWindowHandle`, carried through as it is.
#[verifier::external_type_specification]
#[verifier::external_body]
pub struct ExRawWindowHandle(RawWindowHandle);

/// `raw_window_handle::RawDisplayHandle`, carried through as it is.
#[verifier::external_type_specification]
#[verifier::external_body]
pub struct ExRawDisplayHandle(RawDisplayHandle);

/// The field `ns_window` of an AppKit window handle, as an address.
pub uninterp spec fn appkit_window(handle: AppKitWindowHandle) -> usize;

/// The field `ns_view` of an AppKit window handle, as an address.
pub uninterp spec fn appkit_view(handle: AppKitWindowHandle) -> usize;

/// What a raw window handle holds: its variant and the fields that the
/// adapters use, addresses and identifiers as numbers.
pub uninterp spec fn window_handle_of(raw: RawWindowHandle) -> WindowHandle;

/// What a raw display handle holds: its variant and the address of its
/// connection object, where it has one.
pub uninterp spec fn display_handle_of(raw: RawDisplayHandle) -> DisplayHandle;

/// Reads the field `ns_window` of a
/// `raw_window_handle::AppKitWindowHandle` as an address. The result is
/// the value of that field and depends on nothing else.
#[verifier::external_body]
pub(crate) fn appkit_window_address(handle: &AppKitWindowHandle) -> (address: usize)
    ensures
        address == appkit_window(*handle),
{
    handle.ns_window as usize
}

/// Reads the field `ns_view` of a `raw_window_handle::AppKitWindowHandle`
/// as an address. The result is the value of that field and depends on
/// nothing else.
#[verifier::external_body]
pub(crate) fn appkit_view_address(handle: &AppKitWindowHandle) -> (address: usize)
    ensures
        address == appkit_view(*handle),
{
    handle.ns_view as usize
}

/// Copies the fields of a `raw_window_handle::RawWindowHandle` that the
/// adapters use, variant by variant, addresses as numbers. The result
/// depends on the handle alone; a variant that no adapter serves gives
/// `Other`.
#[verifier::external_body]
pub(crate) fn window_parts(raw: &RawWindowHandle) -> (handle: WindowHandle)
    ensures
        handle == window_handle_of(*raw),
{
    match raw {
        RawWindowHandle::AppKit(h) => WindowHandle::AppKit {
            ns_window: h.ns_window as usize,
            ns_view: h.ns_view as usize,
        },
        RawWindowHandle::Xlib(h) => WindowHandle::Xlib { window: h.window as u64 },
        RawWindowHandle::Xcb(h) => WindowHandle::Xcb { window: h.window as u64 },
        RawWindowHandle::Wayland(h) => WindowHandle::Wayland { surface: h.surface as usize },
        RawWindowHandle::Win32(h) => WindowHandle::Win32 { hwnd: h.hwnd as usize },
        RawWindowHandle::Web(h) => WindowHandle::Web { id: h.id },
        _ => WindowHandle::Other,
    }
}

/// Copies the fields of a `raw_window_handle::RawDisplayHandle` that a
/// context uses, variant by variant, addresses as numbers. The result
/// depends on the handle alone; a variant that no adapter serves gives
/// `Other`.
#[verifier::external_body]
pub(crate) fn display_parts(raw: &RawDisplayHandle) -> (handle: DisplayHandle)
    ensures
        handle == display_handle_of(*raw),
{
    match raw {
        RawDisplayHandle::AppKit(_) => DisplayHandle::AppKit,
        RawDisplayHandle::Xlib(h) => DisplayHandle::Xlib { display: h.display as usize },
        RawDisplayHandle::Xcb(h) => DisplayHandle::Xcb { connection: h.connection as usize },
        RawDisplayHandle::Wayland(h) => DisplayHandle::Wayland { display: h.display as usize },
        RawDisplayHandle::Windows(_) => DisplayHandle::Windows,
        RawDisplayHandle::Web(_) => DisplayHandle::Web,
        _ => DisplayHandle::Other,
    }
}

impl DisplayHandle {
    /// The kind of target that windows of this display are shown on.
    pub open spec fn platform(self) -> Option<Platform> {
        match self {
            DisplayHandle::AppKit => Some(Platform::CompositorLayer),
            DisplayHandle::Xlib { .. } => Some(Platform::SharedMemory),
            DisplayHandle::Xcb { .. } => Some(Platform::SharedMemory),
            DisplayHandle::Wayland { .. } => Some(Platform::BufferProtocol),
            DisplayHandle::Windows => Some(Platform::DeviceContext),
            DisplayHandle::Web => Some(Platform::Canvas),
            DisplayHandle::Other => None,
        }
    }

    /// The address of the connection object, or zero for a marker.
    pub open spec fn address(self) -> usize {
        match self {
            DisplayHandle::Xlib { display } => display,
            DisplayHandle::Xcb { connection } => connection,
            DisplayHandle::Wayland { display } => display,
            _ => 0,
        }
    }

    /// Whether the handle stands for a connection object rather than being
    /// a marker.
    pub open spec fn has_connection(self) -> bool {
        self is Xlib || self is Xcb || self is Wayland
    }
}

impl WindowHandle {
    /// The kind of target that this window is shown on.
    pub open spec fn platform(self) -> Option<Platform> {
        match self {
            WindowHandle::AppKit { .. } => Some(Platform::CompositorLayer),
            WindowHandle::Xlib { .. } => Some(Platform::SharedMemory),
            WindowHandle::Xcb { .. } => Some(Platform::SharedMemory),
            WindowHandle::Wayland { .. } => Some(Platform::BufferProtocol),
            WindowHandle::Win32 { .. } => Some(Platform::DeviceContext),
            WindowHandle::Web { .. } => Some(Platform::Canvas),
            WindowHandle::Other => None,
        }
    }

    /// Computes `platform`.
    pub fn kind(&self) -> (platform: Option<Platform>)
        ensures
            platform == self.platform(),
    {
        match self {
            WindowHandle::AppKit { .. } => Some(Platform::CompositorLayer),
            WindowHandle::Xlib { .. } => Some(Platform::SharedMemory),
            WindowHandle::Xcb { .. } => Some(Platform::SharedMemory),
            WindowHandle::Wayland { .. } => Some(Platform::BufferProtocol),
            WindowHandle::Win32 { .. } => Some(Platform::DeviceContext),
            WindowHandle::Web { .. } => Some(Platform::Canvas),
            WindowHandle::Other => None,
        }
    }
}

} // verus!
