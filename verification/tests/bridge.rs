use js_resized_event_channel::{
    EventChannel, JsResizeEventChannel, ResizeEventChannel, Size, StubResizeEventChannel,
};
use js_resized_event_channel::bridge::screen_element_id;

#[test]
fn scenario_single_resize_is_scaled() {
    let mut bridge = JsResizeEventChannel::init();
    bridge.notify_resized_event(800, 600);
    assert_eq!(
        bridge.try_recv_resized_event(),
        Some(Size { width: 1600, height: 1200 })
    );
    assert_eq!(bridge.try_recv_resized_event(), None);
}

#[test]
fn scenario_no_event_between_two_polls() {
    let mut bridge = JsResizeEventChannel::init();
    assert_eq!(bridge.try_recv_resized_event(), None);
    assert_eq!(bridge.try_recv_resized_event(), None);
}

#[test]
fn scenario_two_events_before_any_poll() {
    let mut bridge = JsResizeEventChannel::init();
    bridge.notify_resized_event(800, 600);
    bridge.notify_resized_event(1024, 768);
    assert_eq!(
        bridge.try_recv_resized_event(),
        Some(Size { width: 1600, height: 1200 })
    );
    assert_eq!(
        bridge.try_recv_resized_event(),
        Some(Size { width: 2048, height: 1536 })
    );
    assert_eq!(bridge.try_recv_resized_event(), None);
}

#[test]
fn scenario_stub_always_reports_no_event() {
    let mut stub = StubResizeEventChannel::init();
    for _ in 0..50 {
        assert_eq!(stub.try_recv_resized_event(), None);
    }
}

#[test]
fn fifo_no_loss_no_duplication() {
    let mut bridge = JsResizeEventChannel::init();
    let raw: [(u32, u32); 6] = [(1, 2), (3, 4), (800, 600), (0, 0), (7, 7), (1024, 768)];
    for (w, h) in raw {
        bridge.notify_resized_event(w, h);
    }
    for (w, h) in raw {
        let got = bridge.try_recv_resized_event();
        assert_eq!(
            got,
            Some(Size { width: 2 * (w as u64), height: 2 * (h as u64) })
        );
    }
    assert_eq!(bridge.try_recv_resized_event(), None);
}

#[test]
fn polling_empty_is_idempotent() {
    let mut bridge = JsResizeEventChannel::init();
    for _ in 0..100 {
        assert_eq!(bridge.try_recv_resized_event(), None);
    }
    bridge.notify_resized_event(10, 20);
    assert_eq!(
        bridge.try_recv_resized_event(),
        Some(Size { width: 20, height: 40 })
    );
    for _ in 0..100 {
        assert_eq!(bridge.try_recv_resized_event(), None);
    }
}

#[test]
fn event_channel_delivers_in_order() {
    let mut channel = EventChannel::new();
    assert_eq!(channel.try_receive(), None);
    channel.send(Size { width: 5, height: 6 });
    channel.send(Size { width: 7, height: 8 });
    assert_eq!(channel.try_receive(), Some(Size { width: 5, height: 6 }));
    channel.send(Size { width: 9, height: 10 });
    assert_eq!(channel.try_receive(), Some(Size { width: 7, height: 8 }));
    assert_eq!(channel.try_receive(), Some(Size { width: 9, height: 10 }));
    assert_eq!(channel.try_receive(), None);
}

#[test]
fn container_identifier_is_fixed() {
    assert_eq!(screen_element_id(), "screen");
}
