//! Video publisher teardown and frame-pump behavior.

use room_bridge::frame::{decode_source_image, RgbaFrame};
use room_bridge::publisher::VideoPublisher;
use room_bridge::pump::{pump_tick, FrameBuffers, PumpTick, FB_HEIGHT, FB_WIDTH, FRAME_INTERVAL_MS};
use room_bridge::state::Command;

fn frame(width: u32, height: u32, fill: u8) -> RgbaFrame {
    RgbaFrame { width, height, data: vec![fill; (width * height * 4) as usize] }
}

#[test]
fn publish_is_idempotent_and_unpublish_stops_pump() {
    let mut p = VideoPublisher::new("cam1".to_owned());
    assert!(!p.is_published());

    let (retired, cmds) = p.publish();
    assert!(retired.is_none());
    assert_eq!(cmds.len(), 1);
    assert!(matches!(&cmds[0], Command::LaunchTrack { .. }));
    assert!(p.is_published());

    // Publishing again first stops the earlier pump and detaches the
    // prior track before launching the new one.
    let (retired, cmds) = p.publish();
    assert!(retired.expect("prior pump was retired").stop.fired);
    assert_eq!(cmds.len(), 2);
    match &cmds[0] {
        Command::DetachTrack { track_name } => assert_eq!(track_name, "cam1"),
        other => panic!("expected the prior track detached first, got {other:?}"),
    }
    assert!(matches!(&cmds[1], Command::LaunchTrack { .. }));
    assert!(p.is_published());

    let (retired, cmd) = p.unpublish();
    assert!(retired.expect("pump was retired").stop.fired);
    assert!(matches!(cmd, Command::DetachTrack { .. }));
    assert!(!p.is_published());

    // Unpublish is idempotent.
    let (retired, cmd) = p.unpublish();
    assert!(retired.is_none());
    assert!(matches!(cmd, Command::NoWork));
}

#[test]
fn teardown_fires_stop_on_every_destruction_path() {
    // A publisher destroyed with an active pump must release its stop signal.
    let mut p = VideoPublisher::new("cam1".to_owned());
    p.publish();
    let retired = p.teardown();
    assert!(retired.expect("active pump was retired").stop.fired);
    assert!(!p.is_published());

    // Teardown with no pump running releases nothing.
    let retired = p.teardown();
    assert!(retired.is_none());
}

#[test]
fn fired_stop_halts_pump_within_one_tick() {
    // The stop signal is checked before any work: the tick after a
    // teardown produces nothing, so the stop is observed within one
    // pump cycle (about 67 ms at 15 frames a second).
    let mut bufs = FrameBuffers::at_default_resolution();
    let img = frame(FB_WIDTH, FB_HEIGHT, 9);
    assert_eq!(pump_tick(true, &mut bufs, &img), PumpTick::Stopped);
    assert_eq!(FRAME_INTERVAL_MS, 66);
}

#[test]
fn tick_fills_framebuffer_from_source() {
    let mut bufs = FrameBuffers::at_default_resolution();
    let img = frame(FB_WIDTH, FB_HEIGHT, 170);
    let t = pump_tick(false, &mut bufs, &img);
    assert_eq!(t, PumpTick::Produced { width: FB_WIDTH, height: FB_HEIGHT });
    assert_eq!(bufs.framebuffer, img.data);
}

#[test]
fn tick_resizes_when_source_dimensions_change() {
    let mut bufs = FrameBuffers::at_default_resolution();
    let img = frame(4, 3, 55);
    let t = pump_tick(false, &mut bufs, &img);
    assert_eq!(t, PumpTick::Produced { width: 4, height: 3 });
    assert_eq!(bufs.width, 4);
    assert_eq!(bufs.height, 3);
    assert_eq!(bufs.framebuffer.len(), 4 * 3 * 4);
    assert_eq!(bufs.framebuffer, vec![55u8; 48]);
}

#[test]
fn decodes_png_source_image() {
    // Round-trip: encode a small RGBA image as PNG, then decode it
    // through the library. The decoded frame must carry the image's
    // dimensions, hold exactly width * height * 4 bytes, and return the
    // original pixels.
    let mut img = image::RgbaImage::new(3, 2);
    for (x, y, p) in img.enumerate_pixels_mut() {
        *p = image::Rgba([x as u8, y as u8, 200, 255]);
    }
    let mut bytes: Vec<u8> = Vec::new();
    img.write_to(&mut std::io::Cursor::new(&mut bytes), image::ImageFormat::Png)
        .expect("png encoding succeeds");

    let decoded = decode_source_image(&bytes).expect("valid png decodes");
    assert_eq!(decoded.width, 3);
    assert_eq!(decoded.height, 2);
    assert_eq!(decoded.data.len(), 3 * 2 * 4);
    assert_eq!(decoded.data, img.into_raw());
}

#[test]
fn rejects_bytes_that_are_no_png() {
    let bytes = vec![1u8, 2, 3, 4];
    assert!(decode_source_image(&bytes).is_none());
}
