//! The buffer-protocol adapter: frames reach the compositor in buffers
//! taken from a small pool.
//!
//! The compositor reads a buffer for as long as it likes and says when it
//! is done. Until then the buffer is in flight and is neither written nor
//! given up. A buffer that comes back with another size than the current
//! one is given up instead of being kept.
use crate::error::{PlatformFailure, SoftBufferError};
use crate::native::{check_frame, present_outcome, Frame, NativeCall, Size};
use crate::pixel::{encode, encoded, PixelLayout};
use vstd::prelude::*;

verus! {

/// The state of one slot of the pool.
#[derive(Debug, Clone, Copy, PartialEq, Eq, Structural)]
pub enum Slot {
    /// The slot has no buffer.
    Vacant,
    /// The slot's buffer has the current frame size and is not with the
    /// compositor.
    Free,
    /// The slot's buffer, of this size, is with the compositor.
    InFlight { size: Size },
}

/// What a buffer-protocol adapter holds: the address of the window's
/// surface, the current frame size and its slots.
pub struct PoolTarget {
    pub surface: usize,
    pub size: Option<Size>,
    pub slots: Seq<Slot>,
}

/// The least index from `from` on whose slot is `want`, or the number of
/// slots where there is none.
pub open spec fn first_index(slots: Seq<Slot>, want: Slot, from: nat) -> nat
    decreases slots.len() - from,
{
    if from >= slots.len() {
        slots.len()
    } else if slots[from as int] == want {
        from
    } else {
        first_index(slots, want, from + 1)
    }
}

/// The slots after a change of the frame size: the free buffers have the
/// old size and go.
pub open spec fn retire_free(slots: Seq<Slot>) -> Seq<Slot> {
    Seq::new(
        slots.len(),
        |i: int|
            if slots[i] == Slot::Free {
                Slot::Vacant
            } else {
                slots[i]
            },
    )
}

/// Whether giving up buffers takes the buffer of this slot: a free one
/// always, one in flight only if `all` are to go.
pub open spec fn goes(slot: Slot, all: bool) -> bool {
    slot == Slot::Free || (all && slot is InFlight)
}

/// One `DestroyBuffer` for each of the first `upto` slots whose buffer
/// goes, in the order of the slots.
pub open spec fn destroy_calls(slots: Seq<Slot>, upto: nat, all: bool) -> Seq<NativeCall>
    decreases upto,
{
    if upto == 0 || upto > slots.len() {
        seq![]
    } else {
        let before = destroy_calls(slots, (upto - 1) as nat, all);
        if goes(slots[upto - 1], all) {
            before.push(NativeCall::DestroyBuffer { slot: (upto - 1) as usize })
        } else {
            before
        }
    }
}

impl PoolTarget {
    /// The surface address is not null.
    pub open spec fn wf(self) -> bool {
        self.surface != 0
    }

    /// Whether the pool hands out buffers of exactly this size.
    pub open spec fn ready_for(self, width: u16, height: u16) -> bool {
        self.size == Some(Size { width, height })
    }

    /// The adapter after a change of the frame size. A change to the size
    /// it has leaves it as it is.
    pub open spec fn configured(self, width: u16, height: u16) -> PoolTarget {
        if self.ready_for(width, height) {
            self
        } else {
            PoolTarget {
                surface: self.surface,
                size: Some(Size { width, height }),
                slots: retire_free(self.slots),
            }
        }
    }

    /// The calls of a change of the frame size.
    pub open spec fn configure_script(self, width: u16, height: u16) -> Seq<NativeCall> {
        if self.ready_for(width, height) {
            seq![]
        } else {
            destroy_calls(self.slots, self.slots.len(), false)
        }
    }

    /// The slot that takes the next frame: the first free one; where none
    /// is free, the first vacant one; where none is vacant, a new slot at
    /// the end.
    pub open spec fn next_slot(self) -> nat {
        let free = first_index(self.slots, Slot::Free, 0);
        if free < self.slots.len() {
            free
        } else {
            first_index(self.slots, Slot::Vacant, 0)
        }
    }

    /// The adapter after a change of the frame size that failed: it has no
    /// current size, so that the buffers it still holds go at the next
    /// change.
    pub open spec fn unconfigured(self) -> PoolTarget {
        PoolTarget { surface: self.surface, size: None, slots: self.slots }
    }

    /// The adapter after a frame went to the compositor: the buffer of the
    /// slot that took it is in flight. Without a current size there was
    /// no frame.
    pub open spec fn presented(self) -> PoolTarget {
        match self.size {
            None => self,
            Some(size) => {
                let slot = self.next_slot();
                let busy = Slot::InFlight { size };
                PoolTarget {
                    surface: self.surface,
                    size: self.size,
                    slots: if slot < self.slots.len() {
                        self.slots.update(slot as int, busy)
                    } else {
                        self.slots.push(busy)
                    },
                }
            },
        }
    }

    /// Whether the next frame needs a new buffer: the slot that takes it
    /// holds no free one.
    pub open spec fn creates_buffer(self) -> bool {
        !(self.next_slot() < self.slots.len() && self.slots[self.next_slot() as int]
            == Slot::Free)
    }

    /// The calls that show one frame: the slot's buffer is created unless
    /// it was free, filled, attached, and committed with the whole area
    /// marked as changed.
    pub open spec fn present_script(self, width: u16, height: u16) -> Seq<NativeCall> {
        let slot = self.next_slot();
        let show = seq![
            NativeCall::CopyToBuffer { slot: slot as usize },
            NativeCall::AttachBuffer { slot: slot as usize },
            NativeCall::DamageAll { width, height },
            NativeCall::CommitSurface,
        ];
        if !self.creates_buffer() {
            show
        } else {
            seq![
                NativeCall::CreateBuffer {
                    slot: slot as usize,
                    width,
                    height,
                    stride: (4 * width) as u32,
                },
            ] + show
        }
    }

    /// The calls to make after the run of a present failed with `completed`
    /// calls made: a buffer that was created for the frame is given up.
    pub open spec fn recovery_script(self, completed: usize) -> Seq<NativeCall> {
        if self.creates_buffer() && completed >= 1 {
            seq![NativeCall::DestroyBuffer { slot: self.next_slot() as usize }]
        } else {
            seq![]
        }
    }

    /// Whether the compositor holds the buffer of this slot.
    pub open spec fn in_flight(self, slot: usize) -> bool {
        slot < self.slots.len() && self.slots[slot as int] is InFlight
    }

    /// Whether the buffer of a slot in flight has the current frame size.
    pub open spec fn still_fits(self, slot: usize) -> bool {
        self.size == Some(self.slots[slot as int]->size)
    }

    /// The adapter after the compositor said that it is done with the
    /// buffer of a slot. Word of a slot that is not in flight changes
    /// nothing.
    pub open spec fn released(self, slot: usize) -> PoolTarget {
        if self.in_flight(slot) {
            PoolTarget {
                surface: self.surface,
                size: self.size,
                slots: self.slots.update(
                    slot as int,
                    if self.still_fits(slot) {
                        Slot::Free
                    } else {
                        Slot::Vacant
                    },
                ),
            }
        } else {
            self
        }
    }

    /// The calls that follow that word: a buffer of another size than the
    /// current one is given up.
    pub open spec fn released_script(self, slot: usize) -> Seq<NativeCall> {
        if self.in_flight(slot) && !self.still_fits(slot) {
            seq![NativeCall::DestroyBuffer { slot }]
        } else {
            seq![]
        }
    }

    /// The calls that give up every buffer of the pool.
    pub open spec fn release_script(self) -> Seq<NativeCall> {
        destroy_calls(self.slots, self.slots.len(), true)
    }
}

/// The buffer-protocol adapter of one window.
pub struct PoolImpl {
    surface: usize,
    size: Option<Size>,
    slots: Vec<Slot>,
}

impl View for PoolImpl {
    type V = PoolTarget;

    closed spec fn view(&self) -> PoolTarget {
        PoolTarget { surface: self.surface, size: self.size, slots: self.slots@ }
    }
}

/// Finds the first slot in a given state.
fn find_first(slots: &Vec<Slot>, want: Slot) -> (index: usize)
    ensures
        index == first_index(slots@, want, 0),
{
    let mut i: usize = 0;
    while i < slots.len()
        invariant
            i <= slots.len(),
            first_index(slots@, want, 0) == first_index(slots@, want, i as nat),
        decreases slots.len() - i,
    {
        if slots[i] == want {
            return i;
        }
        i += 1;
    }
    i
}

/// Collects the calls that give up buffers, slot by slot.
fn collect_destroy_calls(slots: &Vec<Slot>, all: bool) -> (calls: Vec<NativeCall>)
    ensures
        calls@ == destroy_calls(slots@, slots@.len(), all),
{
    let mut calls: Vec<NativeCall> = Vec::new();
    let mut i: usize = 0;
    while i < slots.len()
        invariant
            i <= slots.len(),
            calls@ == destroy_calls(slots@, i as nat, all),
        decreases slots.len() - i,
    {
        let goes = match slots[i] {
            Slot::Vacant => false,
            Slot::Free => true,
            Slot::InFlight { .. } => all,
        };
        if goes {
            calls.push(NativeCall::DestroyBuffer { slot: i });
        }
        i += 1;
    }
    calls
}

impl PoolImpl {
    /// Builds the adapter for a window surface given by address, with an
    /// empty pool and no frame size yet.
    pub fn new(surface: usize) -> (result: Result<Self, SoftBufferError>)
        ensures
            result is Ok <==> surface != 0,
            match result {
                Ok(adapter) => adapter@ == (PoolTarget { surface, size: None, slots: seq![] }),
                Err(e) => e == SoftBufferError::Platform(PlatformFailure::InvalidHandle),
            },
    {
        if surface == 0 {
            Err(SoftBufferError::Platform(PlatformFailure::InvalidHandle))
        } else {
            let adapter = PoolImpl { surface, size: None, slots: Vec::new() };
            assert(adapter@.slots =~= seq![]);
            Ok(adapter)
        }
    }

    /// The address of the window's surface.
    pub fn surface(&self) -> (surface: usize)
        ensures
            surface == self@.surface,
    {
        self.surface
    }

    /// The current frame size.
    pub fn size(&self) -> (size: Option<Size>)
        ensures
            size == self@.size,
    {
        self.size
    }

    /// The state of every slot, in order.
    pub fn slots(&self) -> (slots: Vec<Slot>)
        ensures
            slots@ == self@.slots,
    {
        self.slots.clone()
    }

    /// Changes the size of the buffers that the pool hands out. The free
    /// buffers have the old size and are given up; those in flight stay
    /// until the compositor is done with them.
    pub fn configure(&mut self, width: u16, height: u16) -> (calls: Vec<NativeCall>)
        ensures
            final(self)@ == old(self)@.configured(width, height),
            calls@ == old(self)@.configure_script(width, height),
    {
        let size = Size { width, height };
        if self.size == Some(size) {
            return Vec::new();
        }
        let calls = collect_destroy_calls(&self.slots, false);
        let mut i: usize = 0;
        while i < self.slots.len()
            invariant
                i <= self.slots.len(),
                self.surface == old(self).surface,
                self.size == old(self).size,
                self.slots@.len() == old(self).slots@.len(),
                forall|j: int| 0 <= j < i ==> self.slots@[j] == retire_free(old(self).slots@)[j],
                forall|j: int| i <= j < self.slots@.len() ==> self.slots@[j] == old(self).slots@[j],
            decreases self.slots.len() - i,
        {
            if self.slots[i] == Slot::Free {
                self.slots.set(i, Slot::Vacant);
            }
            i += 1;
        }
        self.size = Some(size);
        assert(self.slots@ =~= retire_free(old(self).slots@));
        calls
    }

    /// Forgets the current frame size.
    pub fn unconfigure(&mut self)
        ensures
            final(self)@ == old(self)@.unconfigured(),
    {
        self.size = None;
    }

    /// The slot that takes the next frame.
    fn pick_slot(&self) -> (slot: usize)
        ensures
            slot == self@.next_slot(),
    {
        let free = find_first(&self.slots, Slot::Free);
        if free < self.slots.len() {
            free
        } else {
            find_first(&self.slots, Slot::Vacant)
        }
    }

    /// Checks a buffer against the declared size and, if it is one frame
    /// of exactly that size, turns it into the bytes that fill a
    /// buffer and the calls that hand it to the compositor. The buffer
    /// is one that the compositor does not hold.
    /// Anything else is refused: a usage error where no size was declared,
    /// a size mismatch otherwise. The adapter itself never changes.
    pub fn set_buffer(&mut self, buffer: &[u32], width: u16, height: u16) -> (result: Result<
        Frame,
        SoftBufferError,
    >)
        ensures
            final(self)@ == old(self)@,
            match result {
                Ok(frame) => {
                    &&& present_outcome(old(self)@.size, buffer@.len(), width, height) is Ok
                    &&& frame.bytes@ == encoded(buffer@, PixelLayout::Bgrx)
                    &&& frame.calls@ == old(self)@.present_script(width, height)
                },
                Err(e) => present_outcome(old(self)@.size, buffer@.len(), width, height) == Err::<
                    (),
                    SoftBufferError,
                >(e),
            },
    {
        match check_frame(self.size, buffer.len(), width, height) {
            Err(e) => Err(e),
            Ok(()) => {
                let bytes = encode(buffer, PixelLayout::Bgrx);
                let slot = self.pick_slot();
                let mut calls: Vec<NativeCall> = Vec::new();
                if !(slot < self.slots.len() && self.slots[slot] == Slot::Free) {
                    calls.push(
                        NativeCall::CreateBuffer {
                            slot,
                            width,
                            height,
                            stride: 4 * (width as u32),
                        },
                    );
                }
                calls.push(NativeCall::CopyToBuffer { slot });
                calls.push(NativeCall::AttachBuffer { slot });
                calls.push(NativeCall::DamageAll { width, height });
                calls.push(NativeCall::CommitSurface);
                assert(calls@ =~= self@.present_script(width, height));
                Ok(Frame { bytes, calls })
            },
        }
    }

    /// Takes note that the frame went to the compositor: the buffer that
    /// took it is in flight from now on.
    pub fn frame_shown(&mut self)
        ensures
            final(self)@ == old(self)@.presented(),
    {
        match self.size {
            None => {},
            Some(size) => {
                let slot = self.pick_slot();
                let busy = Slot::InFlight { size };
                if slot < self.slots.len() {
                    self.slots.set(slot, busy);
                } else {
                    self.slots.push(busy);
                }
                assert(self@.slots =~= old(self)@.presented().slots);
            },
        }
    }

    /// The calls to make after the run of a present failed with
    /// `completed` calls made.
    pub fn recover(&self, completed: usize) -> (calls: Vec<NativeCall>)
        ensures
            calls@ == self@.recovery_script(completed),
    {
        let slot = self.pick_slot();
        let mut calls: Vec<NativeCall> = Vec::new();
        if !(slot < self.slots.len() && self.slots[slot] == Slot::Free) && completed >= 1 {
            calls.push(NativeCall::DestroyBuffer { slot });
        }
        assert(calls@ =~= self@.recovery_script(completed));
        calls
    }

    /// Takes the compositor's word that it is done with the buffer of a
    /// slot. A buffer of the current size is free again; one of another
    /// size is given up.
    pub fn buffer_released(&mut self, slot: usize) -> (calls: Vec<NativeCall>)
        ensures
            final(self)@ == old(self)@.released(slot),
            calls@ == old(self)@.released_script(slot),
    {
        let mut calls: Vec<NativeCall> = Vec::new();
        if slot < self.slots.len() {
            match self.slots[slot] {
                Slot::InFlight { size } => {
                    if self.size == Some(size) {
                        self.slots.set(slot, Slot::Free);
                    } else {
                        self.slots.set(slot, Slot::Vacant);
                        calls.push(NativeCall::DestroyBuffer { slot });
                    }
                },
                _ => {},
            }
        }
        assert(self@.slots =~= old(self)@.released(slot).slots);
        assert(calls@ =~= old(self)@.released_script(slot));
        calls
    }

    /// Ends the adapter and returns the calls that give up every buffer.
    pub fn release(self) -> (calls: Vec<NativeCall>)
        ensures
            calls@ == self@.release_script(),
    {
        collect_destroy_calls(&self.slots, true)
    }
}

/// The calls that give up buffers name exactly the slots whose buffer
/// goes: each of them once, and no other slot.
pub proof fn lemma_destroy_calls(slots: Seq<Slot>, upto: nat, all: bool)
    requires
        upto <= slots.len() <= usize::MAX,
    ensures
        forall|i: int|
            0 <= i < upto && goes(slots[i], all) ==> destroy_calls(slots, upto, all).contains(
                NativeCall::DestroyBuffer { slot: i as usize },
            ),
        forall|k: int|
            0 <= k < destroy_calls(slots, upto, all).len() ==> {
                let call = #[trigger] destroy_calls(slots, upto, all)[k];
                call is DestroyBuffer && call->DestroyBuffer_slot < upto && goes(
                    slots[call->DestroyBuffer_slot as int],
                    all,
                )
            },
        forall|j: int, k: int|
            0 <= j < k < destroy_calls(slots, upto, all).len() ==> destroy_calls(
                slots,
                upto,
                all,
            )[j]->DestroyBuffer_slot < destroy_calls(slots, upto, all)[k]->DestroyBuffer_slot,
    decreases upto,
{
    if upto > 0 {
        let before = destroy_calls(slots, (upto - 1) as nat, all);
        let now = destroy_calls(slots, upto, all);
        lemma_destroy_calls(slots, (upto - 1) as nat, all);
        assert forall|i: int| 0 <= i < upto && goes(slots[i], all) implies now.contains(
            NativeCall::DestroyBuffer { slot: i as usize },
        ) by {
            if i < upto - 1 {
                let k = choose|k: int|
                    0 <= k < before.len() && before[k] == (NativeCall::DestroyBuffer {
                        slot: i as usize,
                    });
                assert(now[k] == before[k]);
            } else {
                assert(now[now.len() - 1] == (NativeCall::DestroyBuffer { slot: i as usize }));
            }
        }
    }
}

/// What `first_index` finds is in range, is the state asked for, and is the
/// first of its kind.
pub proof fn lemma_first_index(slots: Seq<Slot>, want: Slot, from: nat)
    requires
        from <= slots.len(),
    ensures
        from <= first_index(slots, want, from) <= slots.len(),
        first_index(slots, want, from) < slots.len() ==> slots[first_index(
            slots,
            want,
            from,
        ) as int] == want,
        forall|k: int| from <= k < first_index(slots, want, from) ==> slots[k] != want,
    decreases slots.len() - from,
{
    if from < slots.len() && slots[from as int] != want {
        lemma_first_index(slots, want, from + 1);
    }
}

/// A present never takes a buffer that is in flight: the slot it takes is
/// new, vacant or free, and the buffers in flight stay as they are.
pub proof fn lemma_present_spares_in_flight(pool: PoolTarget)
    requires
        pool.size is Some,
    ensures
        pool.next_slot() < pool.slots.len() ==> !(pool.slots[pool.next_slot() as int]
            is InFlight),
        forall|i: int|
            0 <= i < pool.slots.len() && pool.slots[i] is InFlight ==> pool.presented().slots[i]
                == pool.slots[i],
        pool.presented().slots[pool.next_slot() as int] == (Slot::InFlight {
            size: pool.size->0,
        }),
{
    lemma_first_index(pool.slots, Slot::Free, 0);
    lemma_first_index(pool.slots, Slot::Vacant, 0);
}

/// The recovery after a failed present gives a buffer up exactly where the
/// calls that were made created one.
pub proof fn lemma_recovery_gives_up_new_buffer(
    pool: PoolTarget,
    width: u16,
    height: u16,
    completed: usize,
)
    requires
        completed < pool.present_script(width, height).len(),
    ensures
        pool.recovery_script(completed).len() == 1 <==> exists|i: int|
            0 <= i < completed && pool.present_script(width, height)[i] is CreateBuffer,
        pool.recovery_script(completed).len() == 1 ==> pool.recovery_script(completed)[0] == (
        NativeCall::DestroyBuffer {
            slot: pool.present_script(width, height)[0]->CreateBuffer_slot,
        }),
{
    let calls = pool.present_script(width, height);
    if pool.creates_buffer() && completed >= 1 {
        assert(calls[0] is CreateBuffer);
    }
}

/// After a change of the frame size no free buffer is left: every buffer
/// that a present can take without creating it has the current size.
pub proof fn lemma_configure_retires_free(pool: PoolTarget, width: u16, height: u16)
    requires
        !pool.ready_for(width, height),
    ensures
        pool.configured(width, height).ready_for(width, height),
        forall|i: int|
            0 <= i < pool.configured(width, height).slots.len() ==> pool.configured(
                width,
                height,
            ).slots[i] != Slot::Free,
        forall|i: int|
            0 <= i < pool.slots.len() && pool.slots[i] is InFlight ==> pool.configured(
                width,
                height,
            ).slots[i] == pool.slots[i],
{
}

} // verus!
