use watchrun::config::Config;
use watchrun::control::{Controller, Directive, LoopEvent};
use watchrun::debounce::{coalesced_count, Debouncer};
use watchrun::event::Notification;

#[test]
fn burst_yields_one_notification() {
    let mut d = Debouncer::new(1000);
    assert!(d.observe(0));
    assert!(!d.observe(100));
    assert!(!d.observe(900));
    assert!(!d.observe(1800));
}

#[test]
fn spaced_events_yield_separate_notifications() {
    let mut d = Debouncer::new(10);
    assert!(d.observe(0));
    assert!(d.observe(10));
    assert!(d.observe(25));
}

#[test]
fn zero_interval_coalesces_nothing() {
    let mut d = Debouncer::new(0);
    assert!(d.observe(5));
    assert!(d.observe(5));
    assert!(d.observe(6));
}

#[test]
fn coalesced_count_exact() {
    assert_eq!(coalesced_count(&vec![0, 1, 2, 10, 11, 30], 5), 3);
    assert_eq!(coalesced_count(&vec![0, 1, 2, 10, 11, 30], 0), 6);
    assert_eq!(coalesced_count(&vec![7], 1000), 1);
}

#[test]
fn coalesced_count_empty_is_zero() {
    assert_eq!(coalesced_count(&Vec::new(), 2), 0);
}

#[test]
fn scenario_rate_limit_two_writes_one_dispatch() {
    // Two raw writes half a second apart under a two-second rate limit:
    // one logical notification, hence one dispatch.
    let mut d = Debouncer::new(2000);
    let writes: Vec<u64> = vec![0, 500];
    assert_eq!(coalesced_count(&writes, 2000), 1);

    let cfg = Config::new(
        String::from("."),
        false,
        false,
        false,
        2,
        vec![String::from("echo"), String::from("hi")],
    );
    let mut ctl = Controller::new(&cfg);
    assert_eq!(ctl.step(&LoopEvent::Started), Directive::Wait);
    let mut dispatches: usize = 0;
    for t in writes {
        if d.observe(t) {
            let dir = ctl.step(&LoopEvent::Notified(Notification::Write(String::from("f"))));
            assert_eq!(dir, Directive::Dispatch);
            dispatches += 1;
        }
    }
    assert_eq!(dispatches, 1);
}
