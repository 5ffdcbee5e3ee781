use eio_daemon::observe::{
    InstanceEvent,
    lagged, observation, port_name, reason_of, span_text, Bus, Counts, DiscardReason, What, DISCARDED, EXPR_FAILURE,
    LAGGED, LOG, SIGNALS,
};

#[test]
fn every_construction_site_stores_what_s_own_event_name() {
    let cases = [
        (What::Signals { signals: vec![String::from("{}")] }, SIGNALS),
        (
            What::ExprFailure {
                code: String::from("type"),
                span: String::from("0..3"),
                message: String::from("no"),
                prop: 0,
                signal: Some(1),
            },
            EXPR_FAILURE,
        ),
        (What::Discarded { reason: String::from("unrouted") }, DISCARDED),
        (What::Log { level: String::from("info"), message: String::from("hi") }, LOG),
        (What::Lagged { missed: 3 }, LAGGED),
    ];
    for (what, event) in cases {
        assert_eq!(what.event(), event);
        let built = observation("kitchen", "t1", String::from("2024-01-01T00:00:00.000Z"), None, what);
        assert_eq!(built.event, event);
    }
    assert_eq!(lagged(7).event, LAGGED);
    assert_eq!(lagged(7).what, What::Lagged { missed: 7 });
    assert_eq!(SIGNALS, "signals");
    assert_eq!(EXPR_FAILURE, "expr_failure");
    assert_eq!(DISCARDED, "discarded");
    assert_eq!(LOG, "log");
    assert_eq!(LAGGED, "lagged");
}

#[test]
fn nothing_is_published_while_nothing_is_watching() {
    let mut bus = Bus::new();
    assert!(!bus.publishes(0));
    assert!(bus.log(0, "kitchen", "t1", "info", "hi").is_none(), "nothing is built");
    assert_eq!(bus.counts(), Counts { drained: 0, published: 0, unwatched: 2 });
    assert!(bus.publishes(3));
    assert_eq!(bus.counts(), Counts { drained: 0, published: 1, unwatched: 2 });
    bus.drain_one();
    assert_eq!(bus.counts().drained, 1);
}

#[test]
fn a_line_with_nothing_listening_costs_no_allocation() {
    let mut bus = Bus::default();
    assert_eq!(bus.log(0, "s", "i", "info", "quiet"), None);
    let line = bus.log(1, "kitchen", "t1", "warn", "loud").expect("one reader");
    assert_eq!(line.service, "kitchen");
    assert_eq!(line.instance, "t1");
    assert_eq!(line.event, LOG);
    assert!(line.at.ends_with('Z') && line.at.contains('T'), "stamped in RFC 3339, UTC: {}", line.at);
    assert_eq!(line.port, None);
    assert_eq!(line.what, What::Log { level: String::from("warn"), message: String::from("loud") });
}

#[test]
fn a_tap_is_registered_until_it_is_removed() {
    let mut bus = Bus::new();
    let first = bus.tap("kitchen", "t1.out -> t2.in", "t1", "out");
    let second = bus.tap("kitchen", "t2.out -> t3.in", "t2", "out");
    assert_eq!(first.id, "t1");
    assert_eq!(second.id, "t2");
    assert_eq!(bus.tap_of("t1"), Some(first.clone()));
    let ids: Vec<String> = bus.taps().into_iter().map(|tap| tap.id).collect();
    assert_eq!(ids, vec![String::from("t1"), String::from("t2")], "in id order");
    assert_eq!(bus.untap("t1"), Some(first));
    assert_eq!(bus.tap_of("t1"), None);
    assert_eq!(bus.untap("t1"), None, "removed once");
    assert_eq!(bus.taps().len(), 1);
    let third = bus.tap("kitchen", "a.out -> b.in", "a", "out");
    assert_eq!(third.id, "t3", "an id is never reused");
}

#[test]
fn a_discard_reason_is_a_slug() {
    assert_eq!(reason_of(DiscardReason::Unrouted), "unrouted");
    assert_eq!(reason_of(DiscardReason::Overflow), "overflow");
    assert_eq!(reason_of(DiscardReason::SelfFull), "self_full");
    assert_eq!(reason_of(DiscardReason::Gone), "gone");
}

#[test]
fn a_port_is_named_by_the_descriptor_then_the_error_port_then_its_number() {
    let outputs = vec![String::from("out"), String::from("alt")];
    assert_eq!(port_name(&outputs, 1, 255, "error"), "alt");
    assert_eq!(port_name(&outputs, 255, 255, "error"), "error");
    assert_eq!(port_name(&outputs, 7, 255, "error"), "7");
}

#[test]
fn a_span_is_rendered_start_dot_dot_end() {
    assert_eq!(span_text(0, 12), "0..12");
    assert_eq!(span_text(3, 3), "3..3");
}

#[test]
fn an_event_becomes_the_observation_a_stream_carries() {
    let mut bus = Bus::new();
    let outputs = vec![String::from("out")];
    let emitted = bus
        .observe(1, "kitchen", "t1", &outputs, 255, "error", InstanceEvent::Emitted { port: 0, signals: vec![String::from("{a: 1}")] })
        .expect("a reader");
    assert_eq!(emitted.port.as_deref(), Some("out"));
    assert_eq!(emitted.what, What::Signals { signals: vec![String::from("{a: 1}")] });
    assert_eq!(emitted.event, SIGNALS);

    let failed = bus
        .observe(
            1,
            "kitchen",
            "t1",
            &outputs,
            255,
            "error",
            InstanceEvent::Failure { code: String::from("Type"), start: 2, end: 5, message: String::from("no"), prop: 1, signal: Some(0) },
        )
        .expect("a reader");
    assert_eq!(failed.port, None, "an expression failure has no port");
    assert_eq!(
        failed.what,
        What::ExprFailure { code: String::from("Type"), span: String::from("2..5"), message: String::from("no"), prop: 1, signal: Some(0) }
    );

    let discarded = bus
        .observe(1, "kitchen", "t1", &outputs, 255, "error", InstanceEvent::Discarded { port: 255, reason: DiscardReason::Overflow })
        .expect("a reader");
    assert_eq!(discarded.port.as_deref(), Some("error"));
    assert_eq!(discarded.what, What::Discarded { reason: String::from("overflow") });

    assert_eq!(bus.observe(1, "kitchen", "t1", &outputs, 255, "error", InstanceEvent::Quiet), None, "the log's, not a stream's");
    assert_eq!(
        bus.observe(0, "kitchen", "t1", &outputs, 255, "error", InstanceEvent::Emitted { port: 0, signals: vec![] }),
        None,
        "nobody listening"
    );
    assert_eq!(bus.counts(), Counts { drained: 5, published: 3, unwatched: 1 });
}

#[test]
fn a_stamp_is_rfc3339_in_utc_rounded_down_to_the_millisecond() {
    assert_eq!(eio_daemon::observe::stamp_of(0), "1970-01-01T00:00:00Z");
    assert_eq!(
        eio_daemon::observe::stamp_of(1_546_300_800_123_456_789),
        "2019-01-01T00:00:00.123Z"
    );
    assert_eq!(eio_daemon::observe::stamp_of(-1), "1969-12-31T23:59:59.999Z");
}

#[test]
fn an_instant_time_cannot_render_has_an_empty_stamp() {
    assert_eq!(eio_daemon::observe::stamp_of(i128::MAX), "");
    assert_eq!(eio_daemon::observe::stamp_of(i128::MIN), "");
}

#[test]
fn rounding_to_a_millisecond_goes_down_on_both_sides_of_the_epoch() {
    assert_eq!(eio_daemon::observe::whole_ms(1_999_999), Some(1_000_000));
    assert_eq!(eio_daemon::observe::whole_ms(-1), Some(-1_000_000));
    assert_eq!(eio_daemon::observe::whole_ms(-1_000_000), Some(-1_000_000));
    assert_eq!(eio_daemon::observe::whole_ms(i128::MIN), None);
}

#[test]
fn now_is_stamped_with_milliseconds_at_most() {
    let stamp = eio_daemon::observe::now_rfc3339();
    assert!(stamp.ends_with('Z'), "{stamp}");
    let fraction = stamp.split('.').nth(1).map(|f| f.trim_end_matches('Z').len()).unwrap_or(0);
    assert!(fraction <= 3, "{stamp}");
}

#[test]
fn a_built_line_is_stamped_with_the_clock_to_the_millisecond() {
    let mut bus = Bus::new();
    let line = bus.log(1, "kitchen", "t1", "info", "hi").expect("one reader");
    assert!(line.at.ends_with('Z'), "{}", line.at);
    assert!(line.at.len() >= "1970-01-01T00:00:00Z".len(), "{}", line.at);
    let fraction = line.at.split('.').nth(1).map(|f| f.trim_end_matches('Z').len()).unwrap_or(0);
    assert!(fraction <= 3, "{}", line.at);
}
