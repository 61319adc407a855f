use skia_renderer::{
    exit_after_window_closed, quit_event, send_event_via_global_event_loop_proxy, user_event,
    CustomEvent, GlobalEventLoopProxyOrEventQueue, SlintUserEvent,
};

fn tag(e: &SlintUserEvent<u32>) -> i64 {
    match e {
        SlintUserEvent::CustomEvent { event: CustomEvent::WakeEventLoopWorkaround } => -1,
        SlintUserEvent::CustomEvent { event: CustomEvent::Exit } => -2,
        SlintUserEvent::CustomEvent { event: CustomEvent::UserEvent(n) } => *n as i64,
    }
}

#[test]
fn events_are_queued_before_the_loop_exists() {
    let mut global: GlobalEventLoopProxyOrEventQueue<&str, u32> =
        GlobalEventLoopProxyOrEventQueue::new();
    let out = send_event_via_global_event_loop_proxy(&mut global, user_event(1), false);
    assert!(out.is_empty());
    let out = send_event_via_global_event_loop_proxy(&mut global, quit_event(), true);
    assert!(out.is_empty());
    let flushed = global.set_proxy("proxy");
    let tags: Vec<i64> = flushed.iter().map(tag).collect();
    assert_eq!(tags, vec![1, -1, -2]);
}

#[test]
fn events_go_to_installed_proxy() {
    let mut global: GlobalEventLoopProxyOrEventQueue<&str, u32> =
        GlobalEventLoopProxyOrEventQueue::new();
    assert!(global.set_proxy("proxy").is_empty());
    let out = send_event_via_global_event_loop_proxy(&mut global, user_event(5), false);
    let tags: Vec<i64> = out.iter().map(tag).collect();
    assert_eq!(tags, vec![5]);
}

#[test]
fn wake_event_goes_ahead_of_posted_event() {
    let mut global: GlobalEventLoopProxyOrEventQueue<&str, u32> =
        GlobalEventLoopProxyOrEventQueue::new();
    global.set_proxy("proxy");
    let out = send_event_via_global_event_loop_proxy(&mut global, user_event(7), true);
    let tags: Vec<i64> = out.iter().map(tag).collect();
    assert_eq!(tags, vec![-1, 7]);
}

#[test]
fn second_proxy_is_ignored() {
    let mut global: GlobalEventLoopProxyOrEventQueue<&str, u32> =
        GlobalEventLoopProxyOrEventQueue::new();
    global.set_proxy("first");
    assert!(global.set_proxy("second").is_empty());
    assert!(matches!(global, GlobalEventLoopProxyOrEventQueue::Proxy("first")));
}

#[test]
fn loop_exits_only_after_last_window_with_flag() {
    assert!(exit_after_window_closed(0, true));
    assert!(!exit_after_window_closed(0, false));
    assert!(!exit_after_window_closed(2, true));
}
