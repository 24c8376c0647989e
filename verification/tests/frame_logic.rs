use render_bench::canvas::CanvasConfig;
use render_bench::device_slots::device_slots;
use render_bench::event_plan::{tiny_skia_plan, vello_plan, FrameStep, WindowEventKind};
use render_bench::frame_counter::FrameCounter;
use render_bench::pixel_format::{clear_to_black, clear_to_black_checked, pack_pixmap, pack_rgba};
use tiny_skia::{Pixmap, PixmapRef};

const FRAME: [FrameStep; 4] = [
    FrameStep::RenderFrame,
    FrameStep::AdvanceRects,
    FrameStep::RequestRedraw,
    FrameStep::MeasureFps,
];

#[test]
fn pack_rgba_moves_red_green_blue_into_place() {
    let bytes = [1u8, 2, 3, 4, 255, 0, 128, 7, 9, 9, 9, 9];
    assert_eq!(pack_rgba(&bytes, 2), vec![0x0001_0203u32, 0x00ff_0080]);
    assert_eq!(pack_rgba(&bytes, 0), Vec::<u32>::new());
}

#[test]
fn pack_rgba_drops_alpha() {
    let opaque = [10u8, 20, 30, 255];
    let clear = [10u8, 20, 30, 0];
    assert_eq!(pack_rgba(&opaque, 1), pack_rgba(&clear, 1));
    assert_eq!(pack_rgba(&opaque, 1), vec![0x000a_141e]);
}

#[test]
fn packed_word_gives_back_channels() {
    let words = pack_rgba(&[0xab, 0xcd, 0xef, 0x12], 1);
    let w = words[0];
    assert_eq!(w >> 24, 0);
    assert_eq!((w >> 16) & 0xff, 0xab);
    assert_eq!((w >> 8) & 0xff, 0xcd);
    assert_eq!(w & 0xff, 0xef);
}

#[test]
fn pack_pixmap_reads_every_pixel_in_row_order() {
    let mut pixmap = Pixmap::new(2, 2).unwrap();
    let data = pixmap.data_mut();
    for (i, b) in data.iter_mut().enumerate() {
        *b = i as u8;
    }
    assert_eq!(pack_pixmap(&pixmap), vec![0x0000_0102, 0x0004_0506, 0x0008_090a, 0x000c_0d0e]);
}

#[test]
fn fresh_pixmap_packs_to_zero_words() {
    let config = CanvasConfig::new(3, 2, 16, 10);
    let pixmap = config.new_pixmap().unwrap();
    assert_eq!(pixmap.data().len(), 24);
    assert_eq!(pack_pixmap(&pixmap), vec![0u32; 6]);
}

#[test]
fn cleared_pixmap_is_opaque_black() {
    let mut pixmap = Pixmap::new(4, 3).unwrap();
    for b in pixmap.data_mut().iter_mut() {
        *b = 200;
    }
    assert_eq!(pack_pixmap(&pixmap), vec![0x00c8_c8c8u32; 12]);
    clear_to_black(&mut pixmap);
    assert_eq!(pixmap.width(), 4);
    assert_eq!(pixmap.height(), 3);
    for px in pixmap.data().chunks(4) {
        assert_eq!(px, &[0, 0, 0, 255]);
    }
    assert_eq!(pack_pixmap(&pixmap), vec![0u32; 12]);
}

#[test]
fn new_pixmap_refuses_bad_sizes() {
    assert!(CanvasConfig::new(0, 600, 4, 1).new_pixmap().is_none());
    assert!(CanvasConfig::new(800, 0, 4, 1).new_pixmap().is_none());
    assert!(CanvasConfig::new(600_000_000, 1, 4, 1).new_pixmap().is_none());
    let pixmap = CanvasConfig::new(800, 600, 4, 1).new_pixmap().unwrap();
    assert_eq!((pixmap.width(), pixmap.height()), (800, 600));
    assert_eq!(pack_pixmap(&pixmap).len(), 480_000);
}

#[test]
fn config_keeps_its_settings() {
    let config = CanvasConfig::new(800, 600, 4, 50_000);
    assert_eq!(config.canvas_width, 800);
    assert_eq!(config.canvas_height, 600);
    assert_eq!(config.box_size, 4);
    assert_eq!(config.box_number, 50_000);
}

#[test]
fn rect_bounds_truncate_to_i16() {
    assert_eq!(CanvasConfig::new(800, 600, 4, 1).rect_bounds(), (800, 600));
    assert_eq!(CanvasConfig::new(4096, 2160, 4, 1).rect_bounds(), (4096, 2160));
    assert_eq!(CanvasConfig::new(40_000, 65_536, 4, 1).rect_bounds(), (-25_536, 0));
}

#[test]
fn frame_counter_reports_the_interval() {
    let mut counter = FrameCounter::new();
    assert_eq!(counter.frames(), 0);
    assert_eq!(counter.record_frame(false), None);
    assert_eq!(counter.record_frame(false), None);
    assert_eq!(counter.frames(), 2);
    assert_eq!(counter.record_frame(true), Some(3));
    assert_eq!(counter.frames(), 0);
    assert_eq!(counter.record_frame(true), Some(1));
    assert_eq!(counter.frames(), 0);
}

#[test]
fn frame_counter_loses_no_frame() {
    let mut counter = FrameCounter::new();
    let pattern = [false, false, true, false, true, true, false, false, false];
    let mut reported = 0;
    for &elapsed in pattern.iter() {
        if let Some(n) = counter.record_frame(elapsed) {
            assert!(n >= 1);
            reported += n;
        }
    }
    assert_eq!(reported + counter.frames(), pattern.len() as i32);
    assert_eq!(counter.frames(), 3);
}

#[test]
fn tiny_skia_close_request_exits() {
    assert_eq!(tiny_skia_plan(WindowEventKind::CloseRequested, false), vec![FrameStep::Exit]);
    assert_eq!(tiny_skia_plan(WindowEventKind::CloseRequested, true), vec![FrameStep::Exit]);
}

#[test]
fn tiny_skia_redraw_animates() {
    assert_eq!(tiny_skia_plan(WindowEventKind::RedrawRequested, false), FRAME.to_vec());
}

#[test]
fn tiny_skia_stop_comes_before_the_frame() {
    let mut expected = vec![FrameStep::StopApp];
    expected.extend_from_slice(&FRAME);
    assert_eq!(tiny_skia_plan(WindowEventKind::RedrawRequested, true), expected);
}

#[test]
fn tiny_skia_ignores_other_events() {
    assert!(tiny_skia_plan(WindowEventKind::Other, false).is_empty());
    assert!(tiny_skia_plan(WindowEventKind::Other, true).is_empty());
}

#[test]
fn vello_handles_events_once_ready() {
    assert_eq!(vello_plan(WindowEventKind::CloseRequested, false, true), vec![FrameStep::Exit]);
    assert_eq!(vello_plan(WindowEventKind::RedrawRequested, false, true), FRAME.to_vec());
    assert!(vello_plan(WindowEventKind::Other, false, true).is_empty());
}

#[test]
fn vello_only_logs_while_not_ready() {
    for event in [WindowEventKind::CloseRequested, WindowEventKind::RedrawRequested, WindowEventKind::Other] {
        assert_eq!(vello_plan(event, true, true), vec![FrameStep::LogStateBorrowed]);
        assert_eq!(vello_plan(event, true, false), vec![FrameStep::LogStateBorrowed]);
        assert_eq!(vello_plan(event, false, false), vec![FrameStep::LogNotInitialized]);
    }
}

#[test]
fn device_slots_fill_only_the_surface_device() {
    assert_eq!(device_slots(3, 1, 'r'), vec![None, Some('r'), None]);
    assert_eq!(device_slots(1, 0, 7u8), vec![Some(7u8)]);
}

#[test]
fn pixmap_with_extra_whole_pixels_packs_its_size() {
    let bytes = [1u8, 2, 3, 4, 5, 6, 7, 8];
    let mut pixmap = PixmapRef::from_bytes(&bytes, 1, 1).unwrap().to_owned();
    assert_eq!(pixmap.data().len(), 8);
    assert_eq!(pack_pixmap(&pixmap), vec![0x0001_0203u32]);
    assert!(clear_to_black_checked(&mut pixmap));
    assert_eq!(pixmap.data(), &[0, 0, 0, 255, 0, 0, 0, 255]);
    assert_eq!(pack_pixmap(&pixmap), vec![0u32]);
}

#[test]
fn pixmap_with_partial_pixel_is_not_cleared() {
    let bytes = [9u8, 8, 7, 6, 5];
    let mut pixmap = PixmapRef::from_bytes(&bytes, 1, 1).unwrap().to_owned();
    assert_eq!(pack_pixmap(&pixmap), vec![0x0009_0807u32]);
    assert!(!clear_to_black_checked(&mut pixmap));
    assert_eq!(pixmap.data(), &bytes);
    assert_eq!((pixmap.width(), pixmap.height()), (1, 1));
}

#[test]
fn checked_clear_of_a_canvas_pixmap_clears() {
    let mut pixmap = CanvasConfig::new(2, 2, 16, 1).new_pixmap().unwrap();
    pixmap.data_mut()[0] = 77;
    assert!(clear_to_black_checked(&mut pixmap));
    assert_eq!(pack_pixmap(&pixmap), vec![0u32; 4]);
}
