use raw_window_handle::AppKitWindowHandle;
use softbuffer::canvas::{CanvasImpl, CanvasTarget};
use softbuffer::cg::{layout_for, CGImpl, LayerTarget};
use softbuffer::dib::{header_for, DeviceTarget, DibImpl};
use softbuffer::error::{PlatformFailure, SoftBufferError};
use softbuffer::native::{BitmapHeader, Gravity, ImageLayout, NativeCall, Size};
use softbuffer::pool::{PoolImpl, Slot};
use softbuffer::shm::{SegmentTarget, ShmImpl};

const INVALID: SoftBufferError = SoftBufferError::Platform(PlatformFailure::InvalidHandle);

fn appkit_handle(window: usize, view: usize) -> AppKitWindowHandle {
    let mut handle = AppKitWindowHandle::empty();
    handle.ns_window = std::ptr::null_mut::<u8>().wrapping_add(window).cast();
    handle.ns_view = std::ptr::null_mut::<u8>().wrapping_add(view).cast();
    handle
}

#[test]
fn cg_new_reads_both_addresses() {
    let adapter = CGImpl::new(appkit_handle(0x1000, 0x2000)).unwrap();
    assert_eq!(adapter.target(), LayerTarget { window: 0x1000, view: 0x2000, size: None });
}

#[test]
fn cg_new_refuses_null_fields() {
    assert_eq!(CGImpl::new(AppKitWindowHandle::empty()).err(), Some(INVALID));
    assert_eq!(CGImpl::new(appkit_handle(0x1000, 0)).err(), Some(INVALID));
    assert_eq!(CGImpl::new(appkit_handle(0, 0x2000)).err(), Some(INVALID));
}

#[test]
fn cg_from_addresses_refuses_null() {
    assert_eq!(CGImpl::from_addresses(0, 0).err(), Some(INVALID));
    assert_eq!(CGImpl::from_addresses(0, 8).err(), Some(INVALID));
    assert_eq!(CGImpl::from_addresses(8, 0).err(), Some(INVALID));
    assert!(CGImpl::from_addresses(8, 16).is_ok());
}

#[test]
fn cg_attach_retains_the_window_first() {
    let adapter = CGImpl::from_addresses(0x1000, 0x2000).unwrap();
    assert_eq!(
        adapter.attach_calls(),
        vec![
            NativeCall::RetainWindow { window: 0x1000 },
            NativeCall::CreateLayer,
            NativeCall::CreateSubview { view: 0x2000 },
            NativeCall::SetContentsGravity { gravity: Gravity::TopLeft },
            NativeCall::SetNeedsDisplayOnBoundsChange { flag: false },
            NativeCall::SetSubviewLayer,
            NativeCall::SetAutoresizingMask { mask: 18 },
            NativeCall::AddSubview { view: 0x2000 },
            NativeCall::ReleaseSubview,
        ]
    );
}

#[test]
fn cg_layout_describes_packed_little_endian_rows() {
    assert_eq!(
        layout_for(256, 128),
        ImageLayout {
            width: 256,
            height: 128,
            bits_per_component: 8,
            bits_per_pixel: 32,
            bytes_per_row: 1024,
            bitmap_info: 0x2006,
            should_interpolate: false,
            rendering_intent: 0,
        }
    );
}

#[test]
fn cg_row_stride_does_not_wrap_for_wide_frames() {
    assert_eq!(layout_for(16_384, 1).bytes_per_row, 65_536);
    assert_eq!(layout_for(65_535, 1).bytes_per_row, 262_140);
}

#[test]
fn cg_set_buffer_wraps_contents_in_a_quiet_transaction() {
    let mut adapter = CGImpl::from_addresses(0x1000, 0x2000).unwrap();
    assert_eq!(adapter.configure(2, 1), vec![]);
    let frame = adapter.set_buffer(&[0x00aa_bbcc, 0x0011_2233], 2, 1).unwrap();
    assert_eq!(frame.bytes, vec![0xcc, 0xbb, 0xaa, 0, 0x33, 0x22, 0x11, 0]);
    assert_eq!(
        frame.calls,
        vec![
            NativeCall::CreateImage { layout: layout_for(2, 1) },
            NativeCall::BeginTransaction,
            NativeCall::DisableActions,
            NativeCall::SetContentsScale { window: 0x1000 },
            NativeCall::SetContents,
            NativeCall::CommitTransaction,
        ]
    );
    assert_eq!(
        adapter.target(),
        LayerTarget { window: 0x1000, view: 0x2000, size: Some(Size { width: 2, height: 1 }) }
    );
}

#[test]
fn cg_release_gives_the_window_back_once() {
    let adapter = CGImpl::from_addresses(0x1000, 0x2000).unwrap();
    let calls = adapter.release();
    assert_eq!(
        calls,
        vec![NativeCall::ReleaseWindow { window: 0x1000 }, NativeCall::ReleaseLayer]
    );
    let releases = calls
        .iter()
        .filter(|call| matches!(call, NativeCall::ReleaseWindow { .. }))
        .count();
    assert_eq!(releases, 1);
}

#[test]
fn shm_new_refuses_window_zero() {
    assert_eq!(ShmImpl::new(0).err(), Some(INVALID));
    let adapter = ShmImpl::new(77).unwrap();
    assert_eq!(adapter.target(), SegmentTarget { window: 77, size: None });
}

#[test]
fn shm_renegotiates_the_segment_on_every_change_of_size() {
    let mut adapter = ShmImpl::new(77).unwrap();
    assert_eq!(adapter.configure(256, 128), vec![NativeCall::CreateSegment { bytes: 131_072 }]);
    assert_eq!(adapter.target().size, Some(Size { width: 256, height: 128 }));
    assert_eq!(
        adapter.configure(128, 64),
        vec![
            NativeCall::DestroySegment { bytes: 131_072 },
            NativeCall::CreateSegment { bytes: 32_768 },
        ]
    );
    assert_eq!(adapter.target().size, Some(Size { width: 128, height: 64 }));
    assert_eq!(adapter.configure(128, 64), vec![]);
    assert_eq!(
        adapter.configure(64, 128),
        vec![
            NativeCall::DestroySegment { bytes: 32_768 },
            NativeCall::CreateSegment { bytes: 32_768 },
        ]
    );
    assert_eq!(adapter.target().size, Some(Size { width: 64, height: 128 }));
}

#[test]
fn shm_set_buffer_fills_then_draws() {
    let mut adapter = ShmImpl::new(77).unwrap();
    adapter.configure(2, 2);
    let frame = adapter.set_buffer(&[1, 2, 3, 4], 2, 2).unwrap();
    assert_eq!(frame.bytes, vec![1, 0, 0, 0, 2, 0, 0, 0, 3, 0, 0, 0, 4, 0, 0, 0]);
    assert_eq!(
        frame.calls,
        vec![
            NativeCall::CopyToSegment { bytes: 16 },
            NativeCall::PutImage { drawable: 77, width: 2, height: 2 },
        ]
    );
    assert_eq!(adapter.target().size, Some(Size { width: 2, height: 2 }));
}

#[test]
fn shm_release_gives_up_the_segment_if_any() {
    assert_eq!(ShmImpl::new(77).unwrap().release(), vec![]);
    let mut adapter = ShmImpl::new(77).unwrap();
    adapter.configure(2, 2);
    assert_eq!(adapter.release(), vec![NativeCall::DestroySegment { bytes: 16 }]);
}

#[test]
fn dib_header_is_top_down() {
    assert_eq!(
        header_for(256, 128),
        BitmapHeader {
            header_size: 40,
            width: 256,
            height: -128,
            planes: 1,
            bit_count: 32,
            compression: 0,
        }
    );
    assert_eq!(header_for(65_535, 65_535).height, -65_535);
    assert_eq!(header_for(65_535, 65_535).width, 65_535);
    assert_eq!(header_for(0, 0).height, 0);
}

#[test]
fn dib_set_buffer_is_one_call() {
    assert_eq!(DibImpl::new(0).err(), Some(INVALID));
    let mut adapter = DibImpl::new(0x40).unwrap();
    assert_eq!(adapter.target(), DeviceTarget { window: 0x40, size: None });
    assert_eq!(adapter.configure(1, 1), vec![]);
    let frame = adapter.set_buffer(&[0x00ff_0000], 1, 1).unwrap();
    assert_eq!(frame.bytes, vec![0, 0, 0xff, 0]);
    assert_eq!(
        frame.calls,
        vec![NativeCall::StretchBits { window: 0x40, header: header_for(1, 1) }]
    );
    assert_eq!(
        adapter.target(),
        DeviceTarget { window: 0x40, size: Some(Size { width: 1, height: 1 }) }
    );
}

#[test]
fn canvas_draws_rgba_at_the_origin() {
    assert_eq!(CanvasImpl::new(0).err(), Some(INVALID));
    let mut adapter = CanvasImpl::new(5).unwrap();
    assert_eq!(adapter.target(), CanvasTarget { canvas: 5, size: None });
    assert_eq!(
        adapter.configure(1, 2),
        vec![NativeCall::ResizeCanvas { canvas: 5, width: 1, height: 2 }]
    );
    assert_eq!(adapter.target().size, Some(Size { width: 1, height: 2 }));
    assert_eq!(adapter.configure(1, 2), vec![]);
    let frame = adapter.set_buffer(&[0x00ff_0000, 0x0000_00ff], 1, 2).unwrap();
    assert_eq!(frame.bytes, vec![0xff, 0, 0, 0xff, 0, 0, 0xff, 0xff]);
    assert_eq!(
        frame.calls,
        vec![NativeCall::PutImageData { canvas: 5, width: 1, height: 2, x: 0, y: 0 }]
    );
}

fn show(slot: usize, width: u16, height: u16) -> Vec<NativeCall> {
    vec![
        NativeCall::CopyToBuffer { slot },
        NativeCall::AttachBuffer { slot },
        NativeCall::DamageAll { width, height },
        NativeCall::CommitSurface,
    ]
}

fn create_and_show(slot: usize, width: u16, height: u16) -> Vec<NativeCall> {
    let mut calls =
        vec![NativeCall::CreateBuffer { slot, width, height, stride: 4 * width as u32 }];
    calls.extend(show(slot, width, height));
    calls
}

#[test]
fn pool_starts_empty() {
    assert_eq!(PoolImpl::new(0).err(), Some(INVALID));
    let adapter = PoolImpl::new(0x3000).unwrap();
    assert_eq!(adapter.surface(), 0x3000);
    assert_eq!(adapter.size(), None);
    assert_eq!(adapter.slots(), vec![]);
}

fn send(adapter: &mut PoolImpl, buffer: &[u32], width: u16, height: u16) -> Vec<NativeCall> {
    let frame = adapter.set_buffer(buffer, width, height).unwrap();
    adapter.frame_shown();
    frame.calls
}

#[test]
fn pool_never_reuses_a_buffer_in_flight() {
    let two = Size { width: 2, height: 2 };
    let buffer = [0u32; 4];
    let mut adapter = PoolImpl::new(0x3000).unwrap();
    assert_eq!(adapter.configure(2, 2), vec![]);
    assert_eq!(adapter.size(), Some(two));

    let first = adapter.set_buffer(&buffer, 2, 2).unwrap();
    assert_eq!(first.calls, create_and_show(0, 2, 2));
    assert_eq!(first.bytes.len(), 16);
    assert_eq!(adapter.slots(), vec![]);
    adapter.frame_shown();
    assert_eq!(adapter.slots(), vec![Slot::InFlight { size: two }]);

    assert_eq!(send(&mut adapter, &buffer, 2, 2), create_and_show(1, 2, 2));
    assert_eq!(adapter.slots(), vec![Slot::InFlight { size: two }, Slot::InFlight { size: two }]);

    assert_eq!(adapter.buffer_released(1), vec![]);
    assert_eq!(adapter.slots(), vec![Slot::InFlight { size: two }, Slot::Free]);

    assert_eq!(send(&mut adapter, &buffer, 2, 2), show(1, 2, 2));
    assert_eq!(adapter.slots(), vec![Slot::InFlight { size: two }, Slot::InFlight { size: two }]);
}

#[test]
fn pool_prefers_free_over_vacant_and_vacant_over_new() {
    let two = Size { width: 2, height: 2 };
    let four = Size { width: 4, height: 1 };
    let mut adapter = PoolImpl::new(0x3000).unwrap();
    adapter.configure(2, 2);
    send(&mut adapter, &[0; 4], 2, 2);
    send(&mut adapter, &[0; 4], 2, 2);
    send(&mut adapter, &[0; 4], 2, 2);
    adapter.buffer_released(0);
    adapter.buffer_released(2);
    assert_eq!(adapter.slots(), vec![Slot::Free, Slot::InFlight { size: two }, Slot::Free]);

    assert_eq!(
        adapter.configure(4, 1),
        vec![NativeCall::DestroyBuffer { slot: 0 }, NativeCall::DestroyBuffer { slot: 2 }]
    );
    assert_eq!(adapter.slots(), vec![Slot::Vacant, Slot::InFlight { size: two }, Slot::Vacant]);

    assert_eq!(send(&mut adapter, &[0; 4], 4, 1), create_and_show(0, 4, 1));
    assert_eq!(adapter.buffer_released(1), vec![NativeCall::DestroyBuffer { slot: 1 }]);
    assert_eq!(adapter.buffer_released(0), vec![]);
    assert_eq!(adapter.slots(), vec![Slot::Free, Slot::Vacant, Slot::Vacant]);

    assert_eq!(send(&mut adapter, &[0; 4], 4, 1), show(0, 4, 1));
    assert_eq!(send(&mut adapter, &[0; 4], 4, 1), create_and_show(1, 4, 1));
    assert_eq!(send(&mut adapter, &[0; 4], 4, 1), create_and_show(2, 4, 1));
    assert_eq!(send(&mut adapter, &[0; 4], 4, 1), create_and_show(3, 4, 1));
    assert_eq!(adapter.slots(), vec![Slot::InFlight { size: four }; 4]);
}

#[test]
fn pool_configure_to_the_same_size_keeps_free_buffers() {
    let mut adapter = PoolImpl::new(0x3000).unwrap();
    adapter.configure(2, 2);
    send(&mut adapter, &[0; 4], 2, 2);
    adapter.buffer_released(0);
    assert_eq!(adapter.configure(2, 2), vec![]);
    assert_eq!(adapter.slots(), vec![Slot::Free]);
}

#[test]
fn pool_ignores_word_of_a_slot_not_in_flight() {
    let mut adapter = PoolImpl::new(0x3000).unwrap();
    adapter.configure(2, 2);
    assert_eq!(adapter.buffer_released(0), vec![]);
    send(&mut adapter, &[0; 4], 2, 2);
    adapter.buffer_released(0);
    assert_eq!(adapter.buffer_released(0), vec![]);
    assert_eq!(adapter.buffer_released(9), vec![]);
    assert_eq!(adapter.slots(), vec![Slot::Free]);
}

#[test]
fn pool_release_gives_up_every_buffer() {
    let mut adapter = PoolImpl::new(0x3000).unwrap();
    adapter.configure(2, 2);
    send(&mut adapter, &[0; 4], 2, 2);
    send(&mut adapter, &[0; 4], 2, 2);
    send(&mut adapter, &[0; 4], 2, 2);
    adapter.buffer_released(1);
    adapter.configure(1, 1);
    adapter.buffer_released(2);
    send(&mut adapter, &[0; 1], 1, 1);
    adapter.buffer_released(1);
    let two = Size { width: 2, height: 2 };
    assert_eq!(adapter.slots(), vec![Slot::InFlight { size: two }, Slot::Free, Slot::Vacant]);
    assert_eq!(
        adapter.release(),
        vec![NativeCall::DestroyBuffer { slot: 0 }, NativeCall::DestroyBuffer { slot: 1 }]
    );
}

#[test]
fn pool_set_buffer_alone_takes_no_slot() {
    let mut adapter = PoolImpl::new(0x3000).unwrap();
    adapter.configure(2, 2);
    assert_eq!(adapter.set_buffer(&[0; 4], 2, 2).unwrap().calls, create_and_show(0, 2, 2));
    assert_eq!(adapter.set_buffer(&[0; 4], 2, 2).unwrap().calls, create_and_show(0, 2, 2));
    assert_eq!(adapter.slots(), vec![]);
}

#[test]
fn pool_frame_shown_without_a_size_does_nothing() {
    let mut adapter = PoolImpl::new(0x3000).unwrap();
    adapter.frame_shown();
    assert_eq!(adapter.slots(), vec![]);
}

#[test]
fn pool_recovery_gives_up_a_buffer_that_was_created() {
    let mut adapter = PoolImpl::new(0x3000).unwrap();
    adapter.configure(2, 2);
    assert_eq!(adapter.recover(0), vec![]);
    assert_eq!(adapter.recover(1), vec![NativeCall::DestroyBuffer { slot: 0 }]);
    assert_eq!(adapter.recover(4), vec![NativeCall::DestroyBuffer { slot: 0 }]);
    send(&mut adapter, &[0; 4], 2, 2);
    assert_eq!(adapter.recover(3), vec![NativeCall::DestroyBuffer { slot: 1 }]);
    adapter.buffer_released(0);
    assert_eq!(adapter.recover(0), vec![]);
    assert_eq!(adapter.recover(3), vec![]);
    assert_eq!(adapter.slots(), vec![Slot::Free]);
}

#[test]
fn cg_recovery_closes_an_open_transaction() {
    let adapter = CGImpl::from_addresses(0x1000, 0x2000).unwrap();
    assert_eq!(adapter.recover(0), vec![]);
    assert_eq!(adapter.recover(1), vec![]);
    for completed in 2..6 {
        assert_eq!(adapter.recover(completed), vec![NativeCall::CommitTransaction]);
    }
    assert_eq!(adapter.recover(6), vec![]);
}

#[test]
fn adapters_refuse_a_frame_before_any_configure() {
    let unsized_surface = Some(SoftBufferError::UnsizedSurface);
    let mut cg = CGImpl::from_addresses(0x1000, 0x2000).unwrap();
    assert_eq!(cg.set_buffer(&[0; 4], 2, 2).err(), unsized_surface);
    assert_eq!(cg.set_buffer(&[], 0, 0).err(), unsized_surface);
    assert_eq!(cg.target().size, None);
    assert_eq!(ShmImpl::new(77).unwrap().set_buffer(&[0; 4], 2, 2).err(), unsized_surface);
    assert_eq!(PoolImpl::new(8).unwrap().set_buffer(&[0; 4], 2, 2).err(), unsized_surface);
    assert_eq!(DibImpl::new(8).unwrap().set_buffer(&[0; 4], 2, 2).err(), unsized_surface);
    assert_eq!(CanvasImpl::new(8).unwrap().set_buffer(&[0; 4], 2, 2).err(), unsized_surface);
}

#[test]
fn adapters_refuse_a_frame_of_another_size() {
    let mismatch = Some(SoftBufferError::SizeMismatch);
    let mut cg = CGImpl::from_addresses(0x1000, 0x2000).unwrap();
    cg.configure(4, 4);
    for len in [0usize, 15, 17, 64] {
        let buffer = vec![0u32; len];
        assert_eq!(cg.set_buffer(&buffer, 4, 4).err(), mismatch);
        assert_eq!(cg.set_buffer(&buffer, 4, 4).err(), mismatch);
    }
    assert_eq!(cg.set_buffer(&[0; 16], 8, 2).err(), mismatch);
    assert_eq!(cg.set_buffer(&[0; 16], 2, 8).err(), mismatch);
    assert_eq!(cg.target().size, Some(Size { width: 4, height: 4 }));
    assert!(cg.set_buffer(&[0; 16], 4, 4).is_ok());

    let mut shm = ShmImpl::new(77).unwrap();
    shm.configure(4, 4);
    assert_eq!(shm.set_buffer(&[0; 15], 4, 4).err(), mismatch);
    assert_eq!(shm.set_buffer(&[0; 16], 8, 2).err(), mismatch);
    let mut pool = PoolImpl::new(8).unwrap();
    pool.configure(4, 4);
    assert_eq!(pool.set_buffer(&[0; 15], 4, 4).err(), mismatch);
    assert_eq!(pool.slots(), vec![]);
    let mut dib = DibImpl::new(8).unwrap();
    dib.configure(4, 4);
    assert_eq!(dib.set_buffer(&[0; 17], 4, 4).err(), mismatch);
    let mut canvas = CanvasImpl::new(8).unwrap();
    canvas.configure(4, 4);
    assert_eq!(canvas.set_buffer(&[0; 16], 16, 1).err(), mismatch);
}

#[test]
fn cg_stale_buffer_after_configure_is_refused() {
    let buffer = vec![0u32; 256 * 128];
    let mut cg = CGImpl::from_addresses(0x1000, 0x2000).unwrap();
    cg.configure(256, 128);
    assert!(cg.set_buffer(&buffer, 256, 128).is_ok());
    cg.configure(128, 64);
    assert_eq!(cg.set_buffer(&buffer, 256, 128).err(), Some(SoftBufferError::SizeMismatch));
    assert_eq!(cg.set_buffer(&buffer, 128, 64).err(), Some(SoftBufferError::SizeMismatch));
}

#[test]
fn unconfigure_forgets_the_size() {
    let mut cg = CGImpl::from_addresses(0x1000, 0x2000).unwrap();
    cg.configure(2, 2);
    cg.unconfigure();
    assert_eq!(cg.target(), LayerTarget { window: 0x1000, view: 0x2000, size: None });
    let mut shm = ShmImpl::new(77).unwrap();
    shm.configure(2, 2);
    shm.unconfigure();
    assert_eq!(shm.target(), SegmentTarget { window: 77, size: None });
    assert_eq!(shm.configure(2, 2), vec![NativeCall::CreateSegment { bytes: 16 }]);
    let mut pool = PoolImpl::new(8).unwrap();
    pool.configure(2, 2);
    send(&mut pool, &[0; 4], 2, 2);
    pool.buffer_released(0);
    pool.unconfigure();
    assert_eq!(pool.size(), None);
    assert_eq!(pool.slots(), vec![Slot::Free]);
    assert_eq!(pool.configure(2, 2), vec![NativeCall::DestroyBuffer { slot: 0 }]);
    let mut dib = DibImpl::new(8).unwrap();
    dib.configure(2, 2);
    dib.unconfigure();
    assert_eq!(dib.target(), DeviceTarget { window: 8, size: None });
    let mut canvas = CanvasImpl::new(8).unwrap();
    canvas.configure(2, 2);
    canvas.unconfigure();
    assert_eq!(canvas.target(), CanvasTarget { canvas: 8, size: None });
}
