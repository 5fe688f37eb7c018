use frame_studio::controller::{Action, Event, FrameController, Phase};
use frame_studio::drawing::draw_tree;
use frame_studio::geometry::{content_rect, layout_is_valid, Layout, Padding, Rect};
use frame_studio::studio::{ImageFormat, Studio, StudioError, TextureAccess};

fn demo_layout() -> Layout {
    Layout {
        width: 800,
        height: 600,
        padding: Padding { top: 32, right: 16, bottom: 8, left: 16 },
    }
}

#[test]
fn surface_reports_requested_dimensions() {
    let studio = Studio::new(true, true, true).unwrap();
    let d = studio.create_drawing(640, 480);
    assert_eq!(d.width(), 640);
    assert_eq!(d.height(), 480);
    assert!(!d.was_drawn());
}

#[test]
fn two_surfaces_with_identical_requests_report_identical_dimensions() {
    let studio = Studio::new(true, true, true).unwrap();
    let mut a = studio.create_drawing(320, 200);
    let b = studio.create_drawing(320, 200);
    a.fill_rect(Rect { left: 0, top: 0, right: 10, bottom: 10 });
    assert_eq!(a.width(), b.width());
    assert_eq!(a.height(), b.height());
}

#[test]
fn published_origin_matches_texture_and_surface_dimensions() {
    let mut studio = Studio::new(true, true, true).unwrap();
    let mut d = studio.create_drawing(800, 600);
    let t = d.get_texture(TextureAccess::FlushRead);
    assert_eq!((t.width, t.height), (d.width(), d.height()));
    let frame = studio.publish_drawing(&mut d).unwrap();
    assert_eq!(frame.origin, Rect { left: 0, top: 0, right: 800, bottom: 600 });
    assert_eq!((frame.tex_width, frame.tex_height), (800, 600));
    assert!(frame.flip);
    assert!(d.is_flushed());
    assert_eq!(studio.frames_published(), 1);
}

#[test]
fn publish_counts_one_per_call() {
    let mut studio = Studio::new(true, true, true).unwrap();
    let mut d = studio.create_drawing(100, 100);
    assert_eq!(studio.frames_published(), 0);
    studio.publish_drawing(&mut d).unwrap();
    assert_eq!(studio.frames_published(), 1);
    studio.publish_drawing(&mut d).unwrap();
    assert_eq!(studio.frames_published(), 2);
}

#[test]
fn stop_succeeds_once_then_is_refused() {
    let mut studio = Studio::new(true, true, true).unwrap();
    assert!(studio.stop().is_ok());
    assert!(studio.is_stopped());
    assert_eq!(studio.stop(), Err(StudioError::AlreadyStopped));
    assert!(studio.is_stopped());
}

#[test]
fn no_publish_after_stop() {
    let mut studio = Studio::new(true, true, true).unwrap();
    let mut d = studio.create_drawing(64, 64);
    studio.publish_drawing(&mut d).unwrap();
    studio.stop().unwrap();
    assert_eq!(studio.publish_drawing(&mut d), Err(StudioError::SessionStopped));
    assert_eq!(studio.frames_published(), 1);
}

#[test]
fn content_rect_of_padded_root() {
    let l = demo_layout();
    let r = content_rect(&l);
    assert_eq!(r, Rect { left: 16, top: 32, right: 784, bottom: 592 });
    assert_eq!(r.right - r.left, 768);
    assert_eq!(r.bottom - r.top, 560);
}

#[test]
fn draw_tree_fills_exactly_the_content_rect() {
    let studio = Studio::new(true, true, true).unwrap();
    let l = demo_layout();
    let mut d = studio.create_drawing(l.width, l.height);
    draw_tree(&mut d, &l);
    assert_eq!(d.last_fill(), Some(Rect { left: 16, top: 32, right: 784, bottom: 592 }));
    assert!(d.was_drawn());
    assert!(!d.is_flushed());
}

#[test]
fn content_rect_with_padding_consuming_all_space() {
    let l = Layout {
        width: 32,
        height: 40,
        padding: Padding { top: 20, right: 16, bottom: 20, left: 16 },
    };
    assert!(layout_is_valid(&l));
    let r = content_rect(&l);
    assert_eq!(r, Rect { left: 16, top: 20, right: 16, bottom: 20 });
}

#[test]
fn export_of_fresh_undrawn_surface_is_accepted() {
    let studio = Studio::new(true, true, true).unwrap();
    let d = studio.create_drawing(100, 100);
    assert!(!d.was_drawn());
    let req = d.export_request(ImageFormat::Png, 100).unwrap();
    assert_eq!((req.width, req.height), (100, 100));
    assert_eq!(req.quality, 100);
}

#[test]
fn export_with_invalid_quality_is_refused() {
    let studio = Studio::new(true, true, true).unwrap();
    let d = studio.create_drawing(10, 10);
    assert_eq!(d.export_request(ImageFormat::Png, 101), Err(StudioError::InvalidQuality));
}

#[test]
fn studio_creation_failures_are_named() {
    assert_eq!(Studio::new(false, true, true).err(), Some(StudioError::DeviceUnavailable));
    assert_eq!(Studio::new(true, false, true).err(), Some(StudioError::QueueUnavailable));
    assert_eq!(Studio::new(true, true, false).err(), Some(StudioError::SessionUnavailable));
    assert!(Studio::new(true, true, true).is_ok());
}

#[test]
fn one_cycle_issues_each_action_once_in_order() {
    let mut c = FrameController::new(true);
    assert_eq!(c.phase, Phase::Idle);
    assert_eq!(c.step(Event::RedrawRequested), Action::ComputeLayout);
    assert_eq!(c.step(Event::LayoutReady(demo_layout())), Action::AllocateSurface(800, 600));
    assert_eq!(c.phase, Phase::LayoutComputed);
    assert_eq!(
        c.step(Event::SurfaceAllocated),
        Action::DrawContent(Rect { left: 16, top: 32, right: 784, bottom: 592 })
    );
    assert_eq!(c.phase, Phase::SurfaceReady);
    assert_eq!(c.step(Event::DrawCompleted), Action::PublishFrame);
    assert_eq!(c.phase, Phase::Drawn);
    assert_eq!(c.step(Event::FramePublished), Action::RequestRedraw);
    assert_eq!(c.phase, Phase::Published);
    assert_eq!(c.publishes_requested, 1);
    assert_eq!(c.cycles_completed, 1);
}

#[test]
fn two_cycles_publish_exactly_twice() {
    let mut c = FrameController::new(true);
    let events = [
        Event::RedrawRequested,
        Event::LayoutReady(demo_layout()),
        Event::SurfaceAllocated,
        Event::DrawCompleted,
        Event::FramePublished,
        Event::RedrawRequested,
        Event::LayoutReady(demo_layout()),
        Event::SurfaceAllocated,
        Event::DrawCompleted,
        Event::FramePublished,
    ];
    let mut publish_actions = 0u64;
    for e in events {
        if c.step(e) == Action::PublishFrame {
            publish_actions += 1;
        }
    }
    assert_eq!(publish_actions, 2);
    assert_eq!(c.publishes_requested, 2);
    assert_eq!(c.cycles_completed, 2);
}

#[test]
fn layout_failure_aborts_the_cycle_before_any_publish() {
    let mut c = FrameController::new(true);
    assert_eq!(c.step(Event::RedrawRequested), Action::ComputeLayout);
    assert_eq!(c.step(Event::LayoutFailed), Action::AbortCycle);
    assert_eq!(c.phase, Phase::Aborted);
    assert_eq!(c.step(Event::RedrawRequested), Action::Ignore);
    assert_eq!(c.publishes_requested, 0);
}

#[test]
fn invalid_layout_aborts_like_a_layout_failure() {
    let mut c = FrameController::new(true);
    c.step(Event::RedrawRequested);
    let bad = Layout {
        width: 10,
        height: 10,
        padding: Padding { top: 0, right: 8, bottom: 0, left: 8 },
    };
    assert!(!layout_is_valid(&bad));
    assert_eq!(c.step(Event::LayoutReady(bad)), Action::AbortCycle);
    assert_eq!(c.phase, Phase::Aborted);
}

#[test]
fn surface_allocation_failure_aborts_the_cycle() {
    let mut c = FrameController::new(true);
    c.step(Event::RedrawRequested);
    c.step(Event::LayoutReady(demo_layout()));
    assert_eq!(c.step(Event::SurfaceFailed), Action::AbortCycle);
    assert_eq!(c.phase, Phase::Aborted);
}

#[test]
fn gpu_failure_at_startup_prevents_any_surface_allocation() {
    let mut c = FrameController::new(false);
    assert_eq!(c.phase, Phase::Aborted);
    let events = [
        Event::RedrawRequested,
        Event::LayoutReady(demo_layout()),
        Event::SurfaceAllocated,
        Event::DrawCompleted,
        Event::FramePublished,
    ];
    for e in events {
        let a = c.step(e);
        assert!(!matches!(a, Action::AllocateSurface(_, _)));
        assert!(!matches!(a, Action::PublishFrame));
        assert_ne!(c.phase, Phase::SurfaceReady);
    }
    assert_eq!(c.phase, Phase::Aborted);
    assert_eq!(c.publishes_requested, 0);
}

#[test]
fn close_request_shuts_down_once_then_everything_is_ignored() {
    let mut c = FrameController::new(true);
    c.step(Event::RedrawRequested);
    assert_eq!(c.step(Event::CloseRequested), Action::Shutdown);
    assert_eq!(c.phase, Phase::Stopped);
    assert_eq!(c.step(Event::CloseRequested), Action::Ignore);
    assert_eq!(c.step(Event::RedrawRequested), Action::Ignore);
    assert_eq!(c.phase, Phase::Stopped);
}

#[test]
fn controller_invariant_holds_along_a_cycle() {
    let mut c = FrameController::new(true);
    assert!(c.is_wf());
    let events = [
        Event::RedrawRequested,
        Event::LayoutReady(demo_layout()),
        Event::SurfaceAllocated,
        Event::DrawCompleted,
        Event::FramePublished,
        Event::CloseRequested,
    ];
    for e in events {
        c.step(e);
        assert!(c.is_wf());
    }
}

#[test]
fn texture_extraction_for_writing_reports_surface_dimensions() {
    let studio = Studio::new(true, true, true).unwrap();
    let mut d = studio.create_drawing(256, 128);
    let t = d.get_texture(TextureAccess::FlushWrite);
    assert_eq!((t.width, t.height), (256, 128));
    assert!(d.is_flushed());
}

#[test]
fn full_pipeline_cycle_with_studio() {
    let mut studio = Studio::new(true, true, true).unwrap();
    let mut c = FrameController::new(true);
    assert_eq!(c.step(Event::RedrawRequested), Action::ComputeLayout);
    let layout = demo_layout();
    let (w, h) = match c.step(Event::LayoutReady(layout)) {
        Action::AllocateSurface(w, h) => (w, h),
        a => panic!("unexpected action {:?}", a),
    };
    let mut d = studio.create_drawing(w, h);
    let rect = match c.step(Event::SurfaceAllocated) {
        Action::DrawContent(r) => r,
        a => panic!("unexpected action {:?}", a),
    };
    d.fill_rect(rect);
    assert_eq!(c.step(Event::DrawCompleted), Action::PublishFrame);
    let frame = studio.publish_drawing(&mut d).unwrap();
    assert_eq!(frame.origin, Rect { left: 0, top: 0, right: 800, bottom: 600 });
    assert_eq!(c.step(Event::FramePublished), Action::RequestRedraw);
    assert_eq!(studio.frames_published(), 1);
    assert_eq!(c.cycles_completed, 1);
    assert_eq!(c.step(Event::CloseRequested), Action::Shutdown);
    assert!(studio.stop().is_ok());
}
