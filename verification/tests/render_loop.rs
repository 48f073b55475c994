use strelka_core::camera::CameraState;
use strelka_core::color::Color;
use strelka_core::render::{render_pattern, run_iteration, PathTracerRenderContext, PublishOutcome};
use strelka_core::settings::Settings;

fn red_settings() -> Settings {
    Settings::new(1.0f32.to_bits(), 0.0f32.to_bits(), 0.0f32.to_bits())
}

#[test]
fn new_context_starts_clean() {
    let ctx = PathTracerRenderContext::new(4, 3, 2, red_settings());
    assert_eq!(ctx.result_width, 4);
    assert_eq!(ctx.result_height, 3);
    assert_eq!(ctx.frames.len(), 0);
    assert_eq!(ctx.frames.capacity(), 2);
    assert_eq!(ctx.settings, red_settings());
    assert_eq!(ctx.camera.latest(), CameraState::identity());
    assert_eq!(ctx.image_data.len(), 12);
    for pixel in &ctx.image_data {
        assert_eq!((pixel.r, pixel.g, pixel.b, pixel.a), (0, 0, 0, 0));
    }
    assert_eq!(ctx.last_view, CameraState::translation(0, 0, (-1.0f32).to_bits()));
}

#[test]
fn iteration_paints_background_on_the_diagonal() {
    let mut ctx = PathTracerRenderContext::new(3, 3, 1, red_settings());
    assert_eq!(run_iteration(&mut ctx), PublishOutcome::Sent);
    let frame = ctx.frames.try_poll().expect("the iteration published");
    assert_eq!(frame.width, 3);
    assert_eq!(frame.height, 3);
    let one = 1.0f32.to_bits();
    let zero = 0.0f32.to_bits();
    for i in 0..3usize {
        for j in 0..3usize {
            let p = frame.pixels[i * 3 + j];
            if i == j {
                // the settings color, with an opaque alpha
                assert_eq!((p.r, p.g, p.b, p.a), (one, zero, zero, one));
            } else {
                assert_eq!((p.r, p.g, p.b, p.a), (one, one, one, one));
            }
        }
    }
    // the reusable scratch buffer holds the same image
    for (scratch, sent) in ctx.image_data.iter().zip(frame.pixels.iter()) {
        assert_eq!((scratch.r, scratch.g, scratch.b, scratch.a), (sent.r, sent.g, sent.b, sent.a));
    }
}

#[test]
fn iteration_reports_backpressure_and_recovers() {
    let mut ctx = PathTracerRenderContext::new(2, 2, 1, red_settings());
    assert_eq!(run_iteration(&mut ctx), PublishOutcome::Sent);
    // no poll happened: the channel is full, the next frame is dropped
    assert_eq!(run_iteration(&mut ctx), PublishOutcome::Dropped);
    assert_eq!(ctx.frames.len(), 1);
    assert!(ctx.frames.try_poll().is_some());
    assert_eq!(run_iteration(&mut ctx), PublishOutcome::Sent);
}

#[test]
fn iteration_applies_latest_camera_value() {
    let mut ctx = PathTracerRenderContext::new(2, 2, 4, red_settings());
    let moved = CameraState::translation(0, 0, (-2.0f32).to_bits());
    ctx.camera.update(moved);
    run_iteration(&mut ctx);
    assert_eq!(ctx.last_view, moved);
    // reads coalesce but do not consume: the next iteration sees it again
    run_iteration(&mut ctx);
    assert_eq!(ctx.last_view, moved);
}

#[test]
fn in_flight_frame_reflects_the_settings_snapshot() {
    let one = 1.0f32.to_bits();
    let zero = 0.0f32.to_bits();
    let mut ctx = PathTracerRenderContext::new(2, 2, 2, red_settings());
    // the producer copies the settings out, then the interactive layer
    // writes green while the frame is still being painted
    let snapshot = ctx.settings_snapshot();
    ctx.settings = Settings::new(zero, one, zero);
    let bg = Color::new(snapshot.red, snapshot.green, snapshot.blue, one);
    let mut buffer = ctx.image_data.clone();
    render_pattern(2, 2, bg, &mut buffer);
    // the in-flight image reflects the red snapshot, not the green write
    assert_eq!((buffer[0].r, buffer[0].g, buffer[0].b), (one, zero, zero));
    assert_eq!((buffer[3].r, buffer[3].g, buffer[3].b), (one, zero, zero));
    // the write is not lost: the next full iteration paints green
    assert_eq!(run_iteration(&mut ctx), PublishOutcome::Sent);
    let next = ctx.frames.try_poll().expect("the iteration published");
    assert_eq!((next.pixels[0].r, next.pixels[0].g, next.pixels[0].b), (zero, one, zero));
}

#[test]
fn pattern_is_a_function_of_its_arguments_alone() {
    let bg = Color::new(7, 11, 13, 17);
    let mut first = vec![Color::new(1, 2, 3, 4); 6];
    let mut second = vec![Color::new(9, 9, 9, 9); 6];
    render_pattern(3, 2, bg, &mut first);
    render_pattern(3, 2, bg, &mut second);
    for (a, b) in first.iter().zip(second.iter()) {
        assert_eq!((a.r, a.g, a.b, a.a), (b.r, b.g, b.b, b.a));
    }
}
