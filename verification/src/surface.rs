//! The surface: one window's presentation target and the size it was last
//! resized to.
//!
//! A surface is made for a window, resized whenever the window's size in
//! pixels changes, and presented to with a buffer of exactly that size. It
//! checks every buffer against the declared size before anything native
//! happens.
use crate::adapter::{lemma_target_for, target_for, PlatformAdapter, Target};
use crate::context::{Connection, Context};
use crate::error::{PlatformFailure, SoftBufferError};
use crate::handle::{window_handle_of, window_parts, WindowHandle};
use crate::native::{
    present_outcome, run_result, Frame, NativeCall, RunOutcome, Settled, Size,
};
use crate::pixel::encoded;
use raw_window_handle::RawWindowHandle;
use vstd::prelude::*;

verus! {

/// Where a surface stands in its life.
#[derive(Debug, Clone, Copy, PartialEq, Eq, Structural)]
pub enum SurfaceState {
    /// Made, and never resized.
    Created,
    /// Resized, and not presented to since.
    Sized { size: Size },
    /// Presented to since the last resize.
    Presented { size: Size },
}

impl SurfaceState {
    /// The size that the surface was last resized to.
    pub open spec fn declared(self) -> Option<Size> {
        match self {
            SurfaceState::Created => None,
            SurfaceState::Sized { size } => Some(size),
            SurfaceState::Presented { size } => Some(size),
        }
    }
}

/// What a surface is: the connection it was made on, what its adapter
/// holds, and whether it was presented to since the last resize.
pub struct SurfaceModel {
    pub connection: Connection,
    pub target: Target,
    pub shown: bool,
}

impl SurfaceModel {
    /// Where the surface stands in its life. The declared size is the one
    /// that the adapter is configured for.
    pub open spec fn state(self) -> SurfaceState {
        match self.target.size() {
            None => SurfaceState::Created,
            Some(size) => if self.shown {
                SurfaceState::Presented { size }
            } else {
                SurfaceState::Sized { size }
            },
        }
    }

    /// The adapter is bound to a window of the connection's windowing
    /// system, and the declared size has no zero side.
    pub open spec fn wf(self) -> bool {
        &&& self.target.wf()
        &&& self.target.platform() == self.connection.platform
        &&& match self.state().declared() {
            None => true,
            Some(size) => size.width > 0 && size.height > 0,
        }
    }

    /// The surface after a resize to a size without a zero side.
    pub open spec fn resized(self, width: u16, height: u16) -> SurfaceModel {
        SurfaceModel {
            connection: self.connection,
            target: self.target.configured(width, height),
            shown: false,
        }
    }

    /// The calls of that resize: none where the size stays.
    pub open spec fn resize_script(self, width: u16, height: u16) -> Seq<NativeCall> {
        self.target.configure_script(width, height)
    }

    /// The surface after the run of a resize's script: a run that failed
    /// leaves the surface unsized, so that nothing is presented to a
    /// target that may not fit.
    pub open spec fn resize_settled(self, outcome: RunOutcome) -> SurfaceModel {
        match outcome {
            RunOutcome::Done => self,
            RunOutcome::Failed { .. } => SurfaceModel {
                connection: self.connection,
                target: self.target.unconfigured(),
                shown: false,
            },
        }
    }

    /// The surface after the run of a present's script: only a run that
    /// made every call counts as a present. A run that failed leaves the
    /// surface as it was, with the frame shown before.
    pub open spec fn present_settled(self, outcome: RunOutcome) -> SurfaceModel {
        match outcome {
            RunOutcome::Done => if self.target.size() is Some {
                SurfaceModel {
                    connection: self.connection,
                    target: self.target.presented(),
                    shown: true,
                }
            } else {
                self
            },
            RunOutcome::Failed { .. } => self,
        }
    }

    /// What the caller of a present gets after the run of its script.
    pub open spec fn present_result(self, outcome: RunOutcome) -> Result<(), SoftBufferError> {
        if self.target.size() is None {
            Err(SoftBufferError::UnsizedSurface)
        } else {
            run_result(outcome)
        }
    }

    /// The calls that close what the failed run of a present left open.
    pub open spec fn present_cleanup(self, outcome: RunOutcome) -> Seq<NativeCall> {
        match outcome {
            RunOutcome::Failed { completed, .. } if self.target.size() is Some =>
                self.target.recovery_script(completed),
            _ => seq![],
        }
    }

    /// The surface after the compositor gave a buffer back.
    pub open spec fn released(self, slot: usize) -> SurfaceModel {
        SurfaceModel {
            connection: self.connection,
            target: self.target.released(slot),
            shown: self.shown,
        }
    }
}

/// One window's presentation target. It borrows the context it was made
/// from, so the context outlives it.
pub struct Surface<'a> {
    context: &'a Context,
    adapter: PlatformAdapter,
    shown: bool,
}

impl<'a> View for Surface<'a> {
    type V = SurfaceModel;

    closed spec fn view(&self) -> SurfaceModel {
        SurfaceModel { connection: self.context@, target: self.adapter@, shown: self.shown }
    }
}

/// The outcome of making a surface, with the surface seen as what it is.
pub open spec fn made<'a>(result: Result<Surface<'a>, SoftBufferError>) -> Result<
    SurfaceModel,
    SoftBufferError,
> {
    match result {
        Ok(surface) => Ok(surface@),
        Err(e) => Err(e),
    }
}

/// The surface that a window handle gives on a connection: the adapter
/// picked for the handle, never resized.
pub open spec fn surface_for(connection: Connection, handle: WindowHandle) -> Result<
    SurfaceModel,
    SoftBufferError,
> {
    match target_for(connection.platform, handle) {
        Ok(target) => Ok(SurfaceModel { connection, target, shown: false }),
        Err(e) => Err(e),
    }
}

impl<'a> Surface<'a> {
    /// Makes a surface for the window handle of a windowing toolkit: the
    /// one that `from_handle` gives for what the handle holds.
    pub fn create(context: &'a Context, window_handle: &RawWindowHandle) -> (result: Result<
        Self,
        SoftBufferError,
    >)
        ensures
            made(result) == surface_for(context@, window_handle_of(*window_handle)),
    {
        Self::from_handle(context, window_parts(window_handle))
    }

    /// Makes a surface for what a window handle holds: picks the adapter
    /// by the kind of the handle, and leaves the native target unsized.
    pub fn from_handle(context: &'a Context, handle: WindowHandle) -> (result: Result<
        Self,
        SoftBufferError,
    >)
        ensures
            made(result) == surface_for(context@, handle),
    {
        match PlatformAdapter::select(context.connection().platform, handle) {
            Ok(adapter) => Ok(Surface { context, adapter, shown: false }),
            Err(e) => Err(e),
        }
    }

    /// Where the surface stands in its life.
    pub fn state(&self) -> (state: SurfaceState)
        ensures
            state == self@.state(),
    {
        match self.adapter.size() {
            None => SurfaceState::Created,
            Some(size) => if self.shown {
                SurfaceState::Presented { size }
            } else {
                SurfaceState::Sized { size }
            },
        }
    }

    /// The size that the surface was last resized to.
    pub fn size(&self) -> (size: Option<Size>)
        ensures
            size == self@.state().declared(),
    {
        self.adapter.size()
    }

    /// The calls that bind the surface's adapter to its window. They are
    /// made once, before the first resize.
    pub fn attach_calls(&self) -> (calls: Vec<NativeCall>)
        ensures
            calls@ == self@.target.attach_script(),
    {
        self.adapter.attach_calls()
    }

    /// Declares the size of the frames to come and returns the calls that
    /// make the native target fit it. A zero width or height is refused and
    /// changes nothing. A resize to the size that the surface has asks for
    /// no call.
    pub fn resize(&mut self, width: u16, height: u16) -> (result: Result<
        Vec<NativeCall>,
        SoftBufferError,
    >)
        ensures
            result is Err <==> width == 0 || height == 0,
            match result {
                Ok(calls) => final(self)@ == old(self)@.resized(width, height) && calls@ == old(
                    self,
                )@.resize_script(width, height),
                Err(e) => e == SoftBufferError::InvalidSize && final(self)@ == old(self)@,
            },
    {
        if width == 0 || height == 0 {
            return Err(SoftBufferError::InvalidSize);
        }
        let calls = self.adapter.configure(width, height);
        self.shown = false;
        Ok(calls)
    }

    /// Takes the outcome of the run of a resize's script. A run that
    /// failed leaves the surface unsized and is handed on as a platform
    /// error.
    pub fn finish_resize(&mut self, outcome: RunOutcome) -> (settled: Settled)
        ensures
            final(self)@ == old(self)@.resize_settled(outcome),
            settled.result == run_result(outcome),
            settled.cleanup@ == Seq::<NativeCall>::empty(),
    {
        match outcome {
            RunOutcome::Done => Settled { result: Ok(()), cleanup: Vec::new() },
            RunOutcome::Failed { failure, .. } => {
                self.adapter.unconfigure();
                self.shown = false;
                Settled { result: Err(SoftBufferError::Platform(failure)), cleanup: Vec::new() }
            },
        }
    }

    /// Checks a buffer against the declared size and, if it is one frame of
    /// exactly that size, returns the bytes and the calls that show it.
    /// Anything else is refused before anything native happens. The
    /// surface stays as it is either way: a frame counts as presented only
    /// once `finish_present` has taken the outcome of the run.
    pub fn present(&mut self, buffer: &[u32], width: u16, height: u16) -> (result: Result<
        Frame,
        SoftBufferError,
    >)
        ensures
            final(self)@ == old(self)@,
            match result {
                Ok(frame) => {
                    &&& present_outcome(
                        old(self)@.state().declared(),
                        buffer@.len(),
                        width,
                        height,
                    ) is Ok
                    &&& frame.bytes@ == encoded(buffer@, old(self)@.target.layout())
                    &&& frame.calls@ == old(self)@.target.present_script(width, height)
                },
                Err(e) => present_outcome(
                    old(self)@.state().declared(),
                    buffer@.len(),
                    width,
                    height,
                ) == Err::<(), SoftBufferError>(e),
            },
    {
        self.adapter.blit(buffer, width, height)
    }

    /// Takes the outcome of the run of a present's script. After a run
    /// that made every call the surface is presented. After a run that
    /// failed the surface is as before the present, the failure is handed
    /// on as a platform error, and the calls returned close what the run
    /// left open.
    pub fn finish_present(&mut self, outcome: RunOutcome) -> (settled: Settled)
        ensures
            final(self)@ == old(self)@.present_settled(outcome),
            settled.result == old(self)@.present_result(outcome),
            settled.cleanup@ == old(self)@.present_cleanup(outcome),
    {
        if self.adapter.size().is_none() {
            return Settled { result: Err(SoftBufferError::UnsizedSurface), cleanup: Vec::new() };
        }
        match outcome {
            RunOutcome::Done => {
                self.adapter.frame_shown();
                self.shown = true;
                Settled { result: Ok(()), cleanup: Vec::new() }
            },
            RunOutcome::Failed { completed, failure } => Settled {
                result: Err(SoftBufferError::Platform(failure)),
                cleanup: self.adapter.recover(completed),
            },
        }
    }

    /// Takes the compositor's word that it is done with the buffer of a
    /// pool slot, and returns the calls that follow. On adapters without a
    /// pool, and for a slot that is not in flight, nothing happens.
    pub fn buffer_released(&mut self, slot: usize) -> (calls: Vec<NativeCall>)
        ensures
            final(self)@ == old(self)@.released(slot),
            calls@ == old(self)@.target.released_script(slot),
    {
        self.adapter.buffer_released(slot)
    }

    /// Ends the surface and returns the calls that give up its native
    /// target. The surface is consumed: nothing can use or release it
    /// again, and its context is free to go.
    pub fn destroy(self) -> (calls: Vec<NativeCall>)
        ensures
            calls@ == self@.target.release_script(),
    {
        self.adapter.release()
    }
}

/// A new surface is bound to a window of its context's windowing system
/// and was never resized.
pub proof fn lemma_new_surface(connection: Connection, handle: WindowHandle)
    ensures
        surface_for(connection, handle) matches Ok(surface) ==> surface.wf() && surface.state()
            == SurfaceState::Created,
{
    lemma_target_for(connection.platform, handle);
}

/// After a resize to a size without a zero side, a present of a buffer of
/// exactly that size, passed with that size, is accepted, and once its
/// calls were made the surface is presented at that size.
pub proof fn lemma_resize_then_present(
    surface: SurfaceModel,
    buffer: Seq<u32>,
    width: u16,
    height: u16,
)
    requires
        width > 0,
        height > 0,
        buffer.len() == width * height,
    ensures
        surface.resized(width, height).state() == (SurfaceState::Sized {
            size: Size { width, height },
        }),
        present_outcome(
            surface.resized(width, height).state().declared(),
            buffer.len(),
            width,
            height,
        ) is Ok,
        surface.resized(width, height).present_settled(RunOutcome::Done).state() == (
        SurfaceState::Presented { size: Size { width, height } }),
        surface.resized(width, height).present_result(RunOutcome::Done) is Ok,
{
}

/// A buffer whose length is not the product of the declared size is
/// refused as a size mismatch, whatever size is passed along with it.
pub proof fn lemma_wrong_length_is_refused(
    declared: Option<Size>,
    len: nat,
    width: u16,
    height: u16,
)
    requires
        declared matches Some(size) && len != size.width * size.height,
    ensures
        present_outcome(declared, len, width, height) == Err::<(), SoftBufferError>(
            SoftBufferError::SizeMismatch,
        ),
{
}

/// A second resize to the same size changes nothing and asks for no call,
/// so whatever follows goes as after a single resize.
pub proof fn lemma_resize_twice(surface: SurfaceModel, width: u16, height: u16)
    ensures
        surface.resized(width, height).resized(width, height) == surface.resized(width, height),
        surface.resized(width, height).resize_script(width, height) == Seq::<NativeCall>::empty(),
{
}

/// A present on a surface that was never resized is a usage error,
/// whatever is passed.
pub proof fn lemma_present_before_resize(
    surface: SurfaceModel,
    len: nat,
    width: u16,
    height: u16,
)
    requires
        surface.state() == SurfaceState::Created,
    ensures
        present_outcome(surface.state().declared(), len, width, height) == Err::<
            (),
            SoftBufferError,
        >(SoftBufferError::UnsizedSurface),
{
}

/// Only a resize changes the declared size: a present, whether its calls
/// were made or failed, and the return of a buffer keep it.
pub proof fn lemma_declared_size_is_kept(surface: SurfaceModel, outcome: RunOutcome, slot: usize)
    ensures
        surface.present_settled(outcome).state().declared() == surface.state().declared(),
        surface.released(slot).state() == surface.state(),
{
}

/// A present whose calls failed is no present: the surface, and with it
/// the frame that counts as shown, is as before, and the caller gets the
/// failure as a platform error.
pub proof fn lemma_failed_present_changes_nothing(
    surface: SurfaceModel,
    completed: usize,
    failure: PlatformFailure,
)
    requires
        surface.state().declared() is Some,
    ensures
        surface.present_settled(RunOutcome::Failed { completed, failure }) == surface,
        surface.present_result(RunOutcome::Failed { completed, failure }) == Err::<
            (),
            SoftBufferError,
        >(SoftBufferError::Platform(failure)),
{
}

/// No operation breaks a surface: it stays bound to its window, and its
/// declared size never has a zero side.
pub proof fn lemma_wf_is_kept(
    surface: SurfaceModel,
    width: u16,
    height: u16,
    outcome: RunOutcome,
    slot: usize,
)
    requires
        surface.wf(),
    ensures
        width > 0 && height > 0 ==> surface.resized(width, height).wf(),
        surface.resize_settled(outcome).wf(),
        surface.present_settled(outcome).wf(),
        surface.released(slot).wf(),
{
}

} // verus!
