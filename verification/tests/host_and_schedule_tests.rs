use benchmarco::host::HostMetricsSampler;
use benchmarco::schedule::FrameScheduler;
use benchmarco::schedule::InputEvent;
use benchmarco::schedule::LoopAction;
use benchmarco::schedule::PointerButton;

#[test]
fn cpu_usage_sums_and_rounds_the_fractions() {
    // user = 0.12 and system = 0.05 of one full CPU give 17%.
    let p = HostMetricsSampler::cpu_usage(1200, 500);
    assert_eq!(p.value, 17);
}

#[test]
fn cpu_usage_rounds_to_nearest() {
    assert_eq!(HostMetricsSampler::cpu_usage(124, 0).value, 1);
    assert_eq!(HostMetricsSampler::cpu_usage(150, 0).value, 2);
    assert_eq!(HostMetricsSampler::cpu_usage(10000, 10000).value, 200);
    assert_eq!(HostMetricsSampler::cpu_usage(0, 0).value, 0);
}

#[test]
fn memory_subtracts_free_from_total() {
    let m = HostMetricsSampler::memory(100, 40);
    assert_eq!(m.used_bytes, 60);
    assert_eq!(m.total_bytes, 100);
}

#[test]
fn memory_saturates_when_free_exceeds_total() {
    // A racing reading can momentarily report more free than total bytes;
    // used clamps to zero and never exceeds total.
    let m = HostMetricsSampler::memory(100, 150);
    assert_eq!(m.used_bytes, 0);
    assert!(m.used_bytes <= m.total_bytes);
}

#[test]
fn temperature_reading_is_kept() {
    assert_eq!(HostMetricsSampler::cpu_temperature(-3).degrees, -3);
}

#[test]
fn close_request_exits() {
    assert_eq!(FrameScheduler::classify(&InputEvent::CloseRequested), LoopAction::Exit);
}

#[test]
fn exit_key_exits_and_other_keys_wait() {
    assert_eq!(
        FrameScheduler::classify(&InputEvent::KeyPressed { exit_key: true }),
        LoopAction::Exit
    );
    assert_eq!(
        FrameScheduler::classify(&InputEvent::KeyPressed { exit_key: false }),
        LoopAction::Wait
    );
}

#[test]
fn pointer_buttons_minimize_or_exit() {
    assert_eq!(
        FrameScheduler::classify(&InputEvent::PointerPressed { button: PointerButton::Left }),
        LoopAction::Minimize
    );
    assert_eq!(
        FrameScheduler::classify(&InputEvent::PointerPressed { button: PointerButton::Right }),
        LoopAction::Exit
    );
    assert_eq!(
        FrameScheduler::classify(&InputEvent::PointerPressed { button: PointerButton::Other }),
        LoopAction::Wait
    );
}

#[test]
fn resize_reconfigures_the_surface() {
    assert_eq!(
        FrameScheduler::classify(&InputEvent::Resized { width: 160, height: 280 }),
        LoopAction::Reconfigure { width: 160, height: 280 }
    );
}

#[test]
fn redraw_renders_and_drained_batch_polls_again() {
    assert_eq!(FrameScheduler::classify(&InputEvent::RedrawRequested), LoopAction::RenderFrame);
    assert_eq!(FrameScheduler::classify(&InputEvent::EventsCleared), LoopAction::RequestRedraw);
    assert_eq!(FrameScheduler::classify(&InputEvent::Other), LoopAction::Wait);
}
