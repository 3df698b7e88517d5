//! The context: one connection to the windowing system, shared by every
//! surface made from it.
use crate::error::{PlatformFailure, SoftBufferError};
use crate::handle::{display_handle_of, display_parts, DisplayHandle, Platform};
use crate::native::NativeCall;
use raw_window_handle::RawDisplayHandle;
use vstd::prelude::*;

verus! {

/// What a context holds: the kind of target its windows are shown on, and
/// the address of the connection object, zero where the windowing system
/// has none.
#[derive(Debug, Clone, Copy, PartialEq, Eq, Structural)]
pub struct Connection {
    pub platform: Platform,
    pub display: usize,
}

impl Connection {
    /// The calls that a new context asks for: it keeps a reference to the
    /// connection object, where there is one.
    pub open spec fn connect_script(self) -> Seq<NativeCall> {
        if self.display != 0 {
            seq![NativeCall::RetainDisplay { display: self.display }]
        } else {
            seq![]
        }
    }

    /// The calls that give that reference back.
    pub open spec fn release_script(self) -> Seq<NativeCall> {
        if self.display != 0 {
            seq![NativeCall::ReleaseDisplay { display: self.display }]
        } else {
            seq![]
        }
    }
}

/// The context that a display handle gives: none for a windowing system
/// without an adapter, none for a null connection object.
pub open spec fn connection_for(handle: DisplayHandle) -> Result<Connection, SoftBufferError> {
    match handle.platform() {
        None => Err(SoftBufferError::Platform(PlatformFailure::UnsupportedPlatform)),
        Some(platform) => if handle.has_connection() && handle.address() == 0 {
            Err(SoftBufferError::Platform(PlatformFailure::InvalidHandle))
        } else {
            Ok(Connection { platform, display: handle.address() })
        },
    }
}

/// One connection to the windowing system.
pub struct Context {
    connection: Connection,
}

impl View for Context {
    type V = Connection;

    closed spec fn view(&self) -> Connection {
        self.connection
    }
}

/// The outcome of making a context, with the context seen as what it holds.
pub open spec fn made(result: Result<Context, SoftBufferError>) -> Result<
    Connection,
    SoftBufferError,
> {
    match result {
        Ok(context) => Ok(context@),
        Err(e) => Err(e),
    }
}

impl Context {
    /// Makes a context from the display handle of a windowing toolkit: the
    /// one that `from_handle` gives for what the handle holds.
    pub fn create(display_handle: &RawDisplayHandle) -> (result: Result<Self, SoftBufferError>)
        ensures
            made(result) == connection_for(display_handle_of(*display_handle)),
    {
        Self::from_handle(display_parts(display_handle))
    }

    /// Makes a context from what a display handle holds.
    pub fn from_handle(handle: DisplayHandle) -> (result: Result<Self, SoftBufferError>)
        ensures
            made(result) == connection_for(handle),
    {
        let (platform, display, needed) = match handle {
            DisplayHandle::AppKit => (Platform::CompositorLayer, 0, false),
            DisplayHandle::Xlib { display } => (Platform::SharedMemory, display, true),
            DisplayHandle::Xcb { connection } => (Platform::SharedMemory, connection, true),
            DisplayHandle::Wayland { display } => (Platform::BufferProtocol, display, true),
            DisplayHandle::Windows => (Platform::DeviceContext, 0, false),
            DisplayHandle::Web => (Platform::Canvas, 0, false),
            DisplayHandle::Other => {
                return Err(SoftBufferError::Platform(PlatformFailure::UnsupportedPlatform));
            },
        };
        if needed && display == 0 {
            Err(SoftBufferError::Platform(PlatformFailure::InvalidHandle))
        } else {
            Ok(Context { connection: Connection { platform, display } })
        }
    }

    /// What the context holds.
    pub fn connection(&self) -> (connection: Connection)
        ensures
            connection == self@,
    {
        self.connection
    }

    /// The calls that a new context asks for. They are made once, before
    /// any surface is made from the context.
    pub fn connect_calls(&self) -> (calls: Vec<NativeCall>)
        ensures
            calls@ == self@.connect_script(),
    {
        let mut calls: Vec<NativeCall> = Vec::new();
        if self.connection.display != 0 {
            calls.push(NativeCall::RetainDisplay { display: self.connection.display });
        }
        assert(calls@ =~= self@.connect_script());
        calls
    }

    /// Ends the context and returns the calls that give up what it held.
    /// A surface borrows its context, so every surface is gone by now, and
    /// the context is consumed: nothing can use or release it again.
    pub fn destroy(self) -> (calls: Vec<NativeCall>)
        ensures
            calls@ == self@.release_script(),
    {
        let mut calls: Vec<NativeCall> = Vec::new();
        if self.connection.display != 0 {
            calls.push(NativeCall::ReleaseDisplay { display: self.connection.display });
        }
        assert(calls@ =~= self@.release_script());
        calls
    }
}

} // verus!
