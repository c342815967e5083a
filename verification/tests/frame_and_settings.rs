use raytracer::frame::{FrameAction, FrameCycle, FrameEvent, FramePhase};
use raytracer::settings::{Feature, RenderSettings, FLOAT_ONE_BITS, FLOAT_ZERO_BITS};
use raytracer::swapchain::{
    choose_extent, extent_is_renderable, swapchain_min_image_count, Extent, EXTENT_UNDEFINED,
};
use raytracer::uniform::pack_camera_uniform;

fn drive(cycle: &mut FrameCycle, events: &[FrameEvent]) -> Vec<FrameAction> {
    let mut actions = Vec::new();
    for &e in events {
        if let Some(a) = cycle.step(e) {
            actions.push(a);
        }
    }
    actions
}

fn full_frame(image: u32) -> Vec<FrameEvent> {
    vec![
        FrameEvent::BeginFrame,
        FrameEvent::FenceSignaled,
        FrameEvent::ImageAcquired { image },
        FrameEvent::CommandsRecorded,
        FrameEvent::WorkSubmitted,
        FrameEvent::PresentSucceeded,
    ]
}

#[test]
fn slot_cycles_zero_one_zero() {
    let mut cycle = FrameCycle::new();
    assert_eq!(cycle.slot, 0);
    drive(&mut cycle, &full_frame(5));
    assert_eq!(cycle.slot, 1);
    assert_eq!(cycle.phase, FramePhase::Idle);
    drive(&mut cycle, &full_frame(6));
    assert_eq!(cycle.slot, 0);
    drive(&mut cycle, &full_frame(7));
    assert_eq!(cycle.slot, 1);
}

#[test]
fn frame_orders_actions_in_protocol_order() {
    let mut cycle = FrameCycle::new();
    let actions = drive(&mut cycle, &full_frame(9));
    assert_eq!(
        actions,
        vec![
            FrameAction::WaitFence { slot: 0 },
            FrameAction::AcquireImage { slot: 0 },
            FrameAction::ResetAndRecord { slot: 0, image: 9 },
            FrameAction::Submit { slot: 0, image: 9 },
            FrameAction::Present { slot: 0, image: 9 },
            FrameAction::FinishFrame { next_slot: 1 },
        ]
    );
    // The fence wait precedes the reset of the same slot.
    let wait = actions.iter().position(|a| matches!(a, FrameAction::WaitFence { slot: 0 }));
    let reset =
        actions.iter().position(|a| matches!(a, FrameAction::ResetAndRecord { slot: 0, .. }));
    assert!(wait.unwrap() < reset.unwrap());
}

#[test]
fn out_of_date_acquire_skips_frame_without_advancing() {
    let mut cycle = FrameCycle::new();
    let actions = drive(
        &mut cycle,
        &[FrameEvent::BeginFrame, FrameEvent::FenceSignaled, FrameEvent::AcquireOutOfDate],
    );
    assert_eq!(actions.last(), Some(&FrameAction::SkipFrame));
    assert_eq!(cycle.slot, 0);
    assert_eq!(cycle.phase, FramePhase::Idle);
}

#[test]
fn out_of_date_present_still_finishes_frame() {
    let mut cycle = FrameCycle::new();
    let mut events = full_frame(2);
    events.pop();
    events.push(FrameEvent::PresentOutOfDate);
    let actions = drive(&mut cycle, &events);
    assert_eq!(actions.last(), Some(&FrameAction::FinishFrame { next_slot: 1 }));
    assert_eq!(cycle.slot, 1);
}

#[test]
fn mismatched_event_changes_nothing() {
    let mut cycle = FrameCycle::new();
    assert_eq!(cycle.step(FrameEvent::PresentSucceeded), None);
    assert_eq!(cycle.slot, 0);
    assert_eq!(cycle.phase, FramePhase::Idle);
}

#[test]
fn toggles_start_enabled_and_flip() {
    let mut s = RenderSettings::new();
    assert!(s.soft_shadows && s.reflections && s.refraction && s.subsurface);
    s.toggle(Feature::Reflections);
    assert!(!s.reflections);
    assert!(s.soft_shadows && s.refraction && s.subsurface);
}

#[test]
fn toggling_soft_shadows_twice_is_identity() {
    let mut s = RenderSettings::new();
    let before = s;
    s.handle_key(Some(Feature::SoftShadows), true);
    assert!(!s.soft_shadows);
    s.handle_key(Some(Feature::SoftShadows), true);
    assert_eq!(s, before);
}

#[test]
fn releases_and_unbound_keys_do_not_toggle() {
    let mut s = RenderSettings::new();
    let before = s;
    s.handle_key(Some(Feature::Subsurface), false);
    s.handle_key(None, true);
    s.handle_key(None, false);
    assert_eq!(s, before);
}

#[test]
fn settings_uniform_words_are_float_bits() {
    let mut s = RenderSettings::new();
    s.toggle(Feature::Refraction);
    let w = s.uniform_words();
    assert_eq!(w, vec![FLOAT_ONE_BITS, FLOAT_ONE_BITS, FLOAT_ZERO_BITS, FLOAT_ONE_BITS]);
    assert_eq!(FLOAT_ONE_BITS, 1.0f32.to_bits());
    assert_eq!(FLOAT_ZERO_BITS, 0.0f32.to_bits());
}

#[test]
fn camera_uniform_layout() {
    let view: Vec<u32> = (0..16).collect();
    let proj: Vec<u32> = (100..116).collect();
    let s = RenderSettings::new();
    let w = pack_camera_uniform(&view, &proj, &s);
    assert_eq!(w.len(), 40);
    assert_eq!(&w[0..16], &view[..]);
    assert_eq!(&w[16..32], &proj[..]);
    // Fixed light position (10, 10, 10, 1) as float bits.
    assert_eq!(w[32], 10.0f32.to_bits());
    assert_eq!(w[33], 10.0f32.to_bits());
    assert_eq!(w[34], 10.0f32.to_bits());
    assert_eq!(w[35], 1.0f32.to_bits());
    assert_eq!(&w[36..40], &[FLOAT_ONE_BITS; 4]);
}

#[test]
fn defined_surface_extent_is_kept() {
    let e = choose_extent(
        Extent { width: 800, height: 600 },
        Extent { width: 1280, height: 720 },
        Extent { width: 1, height: 1 },
        Extent { width: 4096, height: 4096 },
    );
    assert_eq!((e.width, e.height), (800, 600));
}

#[test]
fn undefined_surface_extent_uses_clamped_window_size() {
    let e = choose_extent(
        Extent { width: EXTENT_UNDEFINED, height: 0 },
        Extent { width: 5000, height: 300 },
        Extent { width: 640, height: 480 },
        Extent { width: 4096, height: 4096 },
    );
    assert_eq!((e.width, e.height), (4096, 480));
}

#[test]
fn zero_extent_is_not_renderable() {
    assert!(!extent_is_renderable(Extent { width: 0, height: 720 }));
    assert!(!extent_is_renderable(Extent { width: 1280, height: 0 }));
    assert!(extent_is_renderable(Extent { width: 1280, height: 720 }));
}

#[test]
fn swapchain_asks_for_at_least_three_images() {
    assert_eq!(swapchain_min_image_count(2), 3);
    assert_eq!(swapchain_min_image_count(3), 3);
    assert_eq!(swapchain_min_image_count(5), 5);
}
