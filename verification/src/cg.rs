//! The compositor-layer adapter: a window shows what its layer holds.
//!
//! Each frame becomes an image object that is made the contents of a layer
//! inside the window's view. The adapter keeps one reference to the window
//! object from its creation until it is released.
use crate::error::{PlatformFailure, SoftBufferError};
use crate::handle::{appkit_view, appkit_view_address, appkit_window, appkit_window_address};
use crate::native::{
    check_frame, present_outcome, Frame, Gravity, ImageLayout, NativeCall, Size,
};
use crate::pixel::{encode, encoded, PixelLayout};
use raw_window_handle::AppKitWindowHandle;
use vstd::prelude::*;

verus! {

/// Bitmap flag: each pixel is a 32-bit word stored little-endian.
pub const BYTE_ORDER_32_LITTLE: u32 = 0x2000;

/// Bitmap flag: no alpha; the byte above the colour is skipped.
pub const ALPHA_NONE_SKIP_FIRST: u32 = 6;

/// The compositor's default rendering intent.
pub const RENDERING_INTENT_DEFAULT: u32 = 0;

/// Autoresizing flag: the width of a subview follows its view.
pub const VIEW_WIDTH_SIZABLE: u64 = 2;

/// Autoresizing flag: the height of a subview follows its view.
pub const VIEW_HEIGHT_SIZABLE: u64 = 16;

/// What a compositor-layer adapter holds: the addresses of the window
/// object it keeps a reference to and of the view its layer lives in, and
/// the size of the frames it was last configured for.
#[derive(Debug, Clone, Copy, PartialEq, Eq, Structural)]
pub struct LayerTarget {
    pub window: usize,
    pub view: usize,
    pub size: Option<Size>,
}

impl LayerTarget {
    /// Neither address is null.
    pub open spec fn wf(self) -> bool {
        self.window != 0 && self.view != 0
    }

    /// The calls that bind a new adapter to its window. The reference to
    /// the window is taken first. Then the layer is made and put into the
    /// view, inside a subview that has the view's frame and follows its
    /// width and height; the layer pins its contents to the top left and
    /// does not redraw when its bounds change. In the end the view alone
    /// holds the subview.
    pub open spec fn attach_script(self) -> Seq<NativeCall> {
        seq![
            NativeCall::RetainWindow { window: self.window },
            NativeCall::CreateLayer,
            NativeCall::CreateSubview { view: self.view },
            NativeCall::SetContentsGravity { gravity: Gravity::TopLeft },
            NativeCall::SetNeedsDisplayOnBoundsChange { flag: false },
            NativeCall::SetSubviewLayer,
            NativeCall::SetAutoresizingMask { mask: VIEW_WIDTH_SIZABLE | VIEW_HEIGHT_SIZABLE },
            NativeCall::AddSubview { view: self.view },
            NativeCall::ReleaseSubview,
        ]
    }

    /// Whether the adapter was last configured for frames of this size.
    pub open spec fn ready_for(self, width: u16, height: u16) -> bool {
        self.size == Some(Size { width, height })
    }

    /// The adapter after a change of the frame size. The image is made
    /// anew for each frame, so no native call goes with it.
    pub open spec fn configured(self, width: u16, height: u16) -> LayerTarget {
        LayerTarget { window: self.window, view: self.view, size: Some(Size { width, height }) }
    }

    /// The adapter after a change of the frame size that failed.
    pub open spec fn unconfigured(self) -> LayerTarget {
        LayerTarget { window: self.window, view: self.view, size: None }
    }

    /// The calls that show one frame. The contents are replaced inside a
    /// transaction whose animations are switched off.
    pub open spec fn present_script(self, width: u16, height: u16) -> Seq<NativeCall> {
        seq![
            NativeCall::CreateImage { layout: image_layout(width, height) },
            NativeCall::BeginTransaction,
            NativeCall::DisableActions,
            NativeCall::SetContentsScale { window: self.window },
            NativeCall::SetContents,
            NativeCall::CommitTransaction,
        ]
    }

    /// The calls to make after the run of a present failed with `completed`
    /// calls made: a transaction that was opened is closed.
    pub open spec fn recovery_script(self, completed: usize) -> Seq<NativeCall> {
        if 2 <= completed < 6 {
            seq![NativeCall::CommitTransaction]
        } else {
            seq![]
        }
    }

    /// The calls that give up what the adapter holds: its one reference to
    /// the window, then the layer.
    pub open spec fn release_script(self) -> Seq<NativeCall> {
        seq![NativeCall::ReleaseWindow { window: self.window }, NativeCall::ReleaseLayer]
    }
}

/// The image of a frame: eight bits per channel, four bytes per pixel, rows
/// without padding, little-endian words whose top byte is skipped.
pub open spec fn image_layout(width: u16, height: u16) -> ImageLayout {
    ImageLayout {
        width: width as usize,
        height: height as usize,
        bits_per_component: 8,
        bits_per_pixel: 32,
        bytes_per_row: (4 * width) as usize,
        bitmap_info: BYTE_ORDER_32_LITTLE | ALPHA_NONE_SKIP_FIRST,
        should_interpolate: false,
        rendering_intent: RENDERING_INTENT_DEFAULT,
    }
}

/// Computes `image_layout`.
pub fn layout_for(width: u16, height: u16) -> (layout: ImageLayout)
    ensures
        layout == image_layout(width, height),
{
    ImageLayout {
        width: width as usize,
        height: height as usize,
        bits_per_component: 8,
        bits_per_pixel: 32,
        bytes_per_row: 4 * (width as usize),
        bitmap_info: BYTE_ORDER_32_LITTLE | ALPHA_NONE_SKIP_FIRST,
        should_interpolate: false,
        rendering_intent: RENDERING_INTENT_DEFAULT,
    }
}

/// Whether `calls[i]` stands in an open transaction whose animations are
/// switched off: a `BeginTransaction` and then a `DisableActions` come
/// before it with no commit in between, and a `CommitTransaction` follows.
pub open spec fn in_quiet_transaction(calls: Seq<NativeCall>, i: int) -> bool {
    exists|b: int, d: int, c: int|
        0 <= b < d < i < c < calls.len() && calls[b] == NativeCall::BeginTransaction
            && calls[d] == NativeCall::DisableActions && calls[c]
            == NativeCall::CommitTransaction && no_commit_between(calls, b, i)
}

/// No `CommitTransaction` stands strictly between `from` and `to`.
pub open spec fn no_commit_between(calls: Seq<NativeCall>, from: int, to: int) -> bool {
    forall|k: int|
        from < k < to && 0 <= k < calls.len() ==> calls[k] != NativeCall::CommitTransaction
}

/// Every replacement of the layer's contents in the script is
/// instantaneous: none can cross-fade.
pub open spec fn contents_never_animate(calls: Seq<NativeCall>) -> bool {
    forall|i: int|
        0 <= i < calls.len() && calls[i] == NativeCall::SetContents ==> in_quiet_transaction(
            calls,
            i,
        )
}

/// The compositor-layer adapter of one window.
pub struct CGImpl {
    target: LayerTarget,
}

impl View for CGImpl {
    type V = LayerTarget;

    closed spec fn view(&self) -> LayerTarget {
        self.target
    }
}

impl CGImpl {
    /// Builds the adapter for the window and view of an AppKit handle.
    /// Fails only where one of the handle's two fields is null.
    pub fn new(handle: AppKitWindowHandle) -> (result: Result<Self, SoftBufferError>)
        ensures
            result is Ok <==> appkit_window(handle) != 0 && appkit_view(handle) != 0,
            match result {
                Ok(adapter) => adapter@ == (LayerTarget {
                    window: appkit_window(handle),
                    view: appkit_view(handle),
                    size: None,
                }),
                Err(e) => e == SoftBufferError::Platform(PlatformFailure::InvalidHandle),
            },
    {
        let ns_window = appkit_window_address(&handle);
        let ns_view = appkit_view_address(&handle);
        Self::from_addresses(ns_window, ns_view)
    }

    /// Builds the adapter for a window object and a view given by address.
    /// Fails only where one of them is null.
    pub fn from_addresses(ns_window: usize, ns_view: usize) -> (result: Result<
        Self,
        SoftBufferError,
    >)
        ensures
            result is Ok <==> ns_window != 0 && ns_view != 0,
            match result {
                Ok(adapter) => adapter@ == (LayerTarget {
                    window: ns_window,
                    view: ns_view,
                    size: None,
                }),
                Err(e) => e == SoftBufferError::Platform(PlatformFailure::InvalidHandle),
            },
    {
        if ns_window == 0 || ns_view == 0 {
            Err(SoftBufferError::Platform(PlatformFailure::InvalidHandle))
        } else {
            Ok(CGImpl { target: LayerTarget { window: ns_window, view: ns_view, size: None } })
        }
    }

    /// What the adapter holds.
    pub fn target(&self) -> (target: LayerTarget)
        ensures
            target == self@,
    {
        self.target
    }

    /// The calls that bind the adapter to its window. They are made once,
    /// before any frame is shown.
    pub fn attach_calls(&self) -> (calls: Vec<NativeCall>)
        ensures
            calls@ == self@.attach_script(),
    {
        let calls = vec![
            NativeCall::RetainWindow { window: self.target.window },
            NativeCall::CreateLayer,
            NativeCall::CreateSubview { view: self.target.view },
            NativeCall::SetContentsGravity { gravity: Gravity::TopLeft },
            NativeCall::SetNeedsDisplayOnBoundsChange { flag: false },
            NativeCall::SetSubviewLayer,
            NativeCall::SetAutoresizingMask { mask: VIEW_WIDTH_SIZABLE | VIEW_HEIGHT_SIZABLE },
            NativeCall::AddSubview { view: self.target.view },
            NativeCall::ReleaseSubview,
        ];
        assert(calls@ =~= self@.attach_script());
        calls
    }

    /// Declares the size of the frames to come.
    pub fn configure(&mut self, width: u16, height: u16) -> (calls: Vec<NativeCall>)
        ensures
            final(self)@ == old(self)@.configured(width, height),
            calls@ == Seq::<NativeCall>::empty(),
    {
        self.target = LayerTarget {
            window: self.target.window,
            view: self.target.view,
            size: Some(Size { width, height }),
        };
        Vec::new()
    }

    /// Forgets the declared size.
    pub fn unconfigure(&mut self)
        ensures
            final(self)@ == old(self)@.unconfigured(),
    {
        self.target = LayerTarget {
            window: self.target.window,
            view: self.target.view,
            size: None,
        };
    }

    /// Checks a buffer against the declared size and, if it is one frame
    /// of exactly that size, turns it into the bytes the compositor reads
    /// and the calls that show them. Anything else is refused: a usage
    /// error where no size was declared, a size mismatch otherwise. The
    /// adapter itself never changes.
    pub fn set_buffer(&mut self, buffer: &[u32], width: u16, height: u16) -> (result: Result<
        Frame,
        SoftBufferError,
    >)
        ensures
            final(self)@ == old(self)@,
            match result {
                Ok(frame) => {
                    &&& present_outcome(old(self)@.size, buffer@.len(), width, height) is Ok
                    &&& frame.bytes@ == encoded(buffer@, PixelLayout::Bgrx)
                    &&& frame.calls@ == old(self)@.present_script(width, height)
                    &&& frame.bytes@.len() == image_layout(width, height).bytes_per_row * height
                },
                Err(e) => present_outcome(old(self)@.size, buffer@.len(), width, height) == Err::<
                    (),
                    SoftBufferError,
                >(e),
            },
    {
        match check_frame(self.target.size, buffer.len(), width, height) {
            Err(e) => Err(e),
            Ok(()) => {
                let bytes = encode(buffer, PixelLayout::Bgrx);
                let calls = vec![
                    NativeCall::CreateImage { layout: layout_for(width, height) },
                    NativeCall::BeginTransaction,
                    NativeCall::DisableActions,
                    NativeCall::SetContentsScale { window: self.target.window },
                    NativeCall::SetContents,
                    NativeCall::CommitTransaction,
                ];
                assert(calls@ =~= self@.present_script(width, height));
                assert(4 * (width as int * height as int) == (4 * width) * height)
                    by (nonlinear_arith);
                Ok(Frame { bytes, calls })
            },
        }
    }

    /// The calls to make after the run of a present failed with
    /// `completed` calls made.
    pub fn recover(&self, completed: usize) -> (calls: Vec<NativeCall>)
        ensures
            calls@ == self@.recovery_script(completed),
    {
        let mut calls: Vec<NativeCall> = Vec::new();
        if 2 <= completed && completed < 6 {
            calls.push(NativeCall::CommitTransaction);
        }
        assert(calls@ =~= self@.recovery_script(completed));
        calls
    }

    /// Ends the adapter and returns the calls that give up what it held.
    /// The adapter is consumed: nothing can use or release it again.
    pub fn release(self) -> (calls: Vec<NativeCall>)
        ensures
            calls@ == self@.release_script(),
    {
        let calls = vec![
            NativeCall::ReleaseWindow { window: self.target.window },
            NativeCall::ReleaseLayer,
        ];
        assert(calls@ =~= self@.release_script());
        calls
    }
}

/// In the script of a present, the contents are replaced exactly once, and
/// inside a transaction whose animations are switched off.
pub proof fn lemma_present_never_animates(target: LayerTarget, width: u16, height: u16)
    ensures
        contents_never_animate(target.present_script(width, height)),
        forall|i: int|
            0 <= i < target.present_script(width, height).len() ==> (target.present_script(
                width,
                height,
            )[i] == NativeCall::SetContents <==> i == 4),
{
    let calls = target.present_script(width, height);
    assert(calls[1] == NativeCall::BeginTransaction);
    assert(calls[2] == NativeCall::DisableActions);
    assert(calls[5] == NativeCall::CommitTransaction);
    assert(no_commit_between(calls, 1, 4));
    assert(in_quiet_transaction(calls, 4));
}

/// After a present that failed part of the way, the calls made and the
/// calls of the recovery together leave no transaction open: the recovery
/// commits exactly where a transaction was begun and not committed.
pub proof fn lemma_recovery_closes_transaction(
    target: LayerTarget,
    width: u16,
    height: u16,
    completed: usize,
)
    requires
        completed < target.present_script(width, height).len(),
    ensures
        target.recovery_script(completed) == (if exists|b: int|
            0 <= b < completed && target.present_script(width, height)[b]
                == NativeCall::BeginTransaction {
            seq![NativeCall::CommitTransaction]
        } else {
            Seq::<NativeCall>::empty()
        }),
        forall|c: int|
            0 <= c < completed ==> target.present_script(width, height)[c]
                != NativeCall::CommitTransaction,
{
    let calls = target.present_script(width, height);
    if completed >= 2 {
        assert(calls[1] == NativeCall::BeginTransaction);
    }
}

/// The script that binds an adapter makes one subview for the view it was
/// built for, adds it once and gives the caller's reference back once
/// after that, so that the view alone holds it. It sets the layer's
/// gravity and redraw flag once each and assigns no contents.
pub proof fn lemma_attach_script(target: LayerTarget)
    ensures
        forall|i: int|
            0 <= i < target.attach_script().len() ==> {
                let call = #[trigger] target.attach_script()[i];
                &&& call is CreateSubview <==> i == 2
                &&& call is SetContentsGravity <==> i == 3
                &&& call is SetNeedsDisplayOnBoundsChange <==> i == 4
                &&& call is SetSubviewLayer <==> i == 5
                &&& call is SetAutoresizingMask <==> i == 6
                &&& call is AddSubview <==> i == 7
                &&& call is ReleaseSubview <==> i == 8
                &&& call != NativeCall::SetContents
            },
        target.attach_script()[2] == (NativeCall::CreateSubview { view: target.view }),
        target.attach_script()[7] == (NativeCall::AddSubview { view: target.view }),
{
}

/// The scripts of one adapter take the reference to the window once and
/// give it back once.
pub proof fn lemma_window_released_once(target: LayerTarget)
    ensures
        target.attach_script()[0] == (NativeCall::RetainWindow { window: target.window }),
        target.release_script()[0] == (NativeCall::ReleaseWindow { window: target.window }),
        forall|i: int|
            0 < i < target.attach_script().len() ==> !(target.attach_script()[i]
                is RetainWindow),
        forall|i: int|
            0 < i < target.release_script().len() ==> !(target.release_script()[i]
                is ReleaseWindow),
{
}

} // verus!
