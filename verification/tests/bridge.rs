use eio_daemon::bridge::{
    dialable, manifest_for, parse_u16, publish_outcome, wire_topic, Candidate, CandidateError, Delivery, Offer,
    SystemBlockKind,
};

#[test]
fn an_ordinary_block_name_is_not_a_system_block() {
    assert_eq!(SystemBlockKind::of("transform"), None);
    assert_eq!(SystemBlockKind::of("filter"), None);
}

#[test]
fn a_system_block_is_found_again_by_its_name() {
    for kind in [SystemBlockKind::Publisher, SystemBlockKind::Subscriber] {
        assert_eq!(SystemBlockKind::of(kind.name()), Some(kind));
    }
    assert_eq!(SystemBlockKind::Publisher.name(), "publisher");
    assert_eq!(SystemBlockKind::Subscriber.name(), "subscriber");
}

#[test]
fn wire_topic_is_the_namespace_the_bus_and_the_topic() {
    assert_eq!(wire_topic("greenhouse", "temperature"), "eieio/greenhouse/temperature");
}

#[test]
fn candidate_parses_the_spec_example() {
    let candidate = Candidate::parse("n7k2p4qv@10.0.0.5:1883").unwrap();
    assert_eq!(candidate.id, "n7k2p4qv");
    assert_eq!(candidate.host, "10.0.0.5");
    assert_eq!(candidate.port, 1883);
}

#[test]
fn candidate_refuses_a_missing_at() {
    assert!(Candidate::parse("10.0.0.5:1883").is_err());
}

#[test]
fn candidate_refuses_a_missing_port() {
    assert!(Candidate::parse("n7k2p4qv@10.0.0.5").is_err());
}

#[test]
fn candidate_refuses_a_port_that_is_not_a_number() {
    assert!(Candidate::parse("n7k2p4qv@10.0.0.5:mqtt").is_err());
}

#[test]
fn candidate_refuses_an_empty_id_or_host() {
    assert!(Candidate::parse("@10.0.0.5:1883").is_err());
    assert!(Candidate::parse("n7k2p4qv@:1883").is_err());
}

#[test]
fn each_way_a_candidate_is_refused_is_its_own_error() {
    assert_eq!(Candidate::parse("10.0.0.5:1883").unwrap_err(), CandidateError::NoAt);
    assert_eq!(Candidate::parse("n@10.0.0.5").unwrap_err(), CandidateError::NoColon);
    assert_eq!(Candidate::parse("@h:1").unwrap_err(), CandidateError::EmptyId);
    assert_eq!(Candidate::parse("n@:1").unwrap_err(), CandidateError::EmptyHost);
    assert_eq!(Candidate::parse("n@h:65536").unwrap_err(), CandidateError::BadPort);
    assert_eq!(Candidate::parse("n@h:").unwrap_err(), CandidateError::BadPort);
}

#[test]
fn a_port_is_a_u16_in_decimal() {
    let digits = |s: &str| s.chars().collect::<Vec<char>>();
    assert_eq!(parse_u16(&digits("0")), Some(0));
    assert_eq!(parse_u16(&digits("65535")), Some(65535));
    assert_eq!(parse_u16(&digits("65536")), None);
    assert_eq!(parse_u16(&digits("")), None);
    assert_eq!(parse_u16(&digits("+1")), Some(1), "a leading plus is what str::parse accepts");
    assert_eq!(parse_u16(&digits("-1")), None);
}

#[test]
fn a_pin_dials_only_the_pinned_candidate() {
    let candidates = vec![
        Candidate::parse("a@10.0.0.1:1883").unwrap(),
        Candidate::parse("b@10.0.0.2:1883").unwrap(),
    ];
    let walk = dialable(&candidates, Some("b"));
    assert_eq!(walk.len(), 1);
    assert_eq!(walk[0].id, "b");
    assert_eq!(dialable(&candidates, None).len(), 2, "no pin walks every candidate in order");
    assert!(dialable(&candidates, Some("c")).is_empty(), "a pin to nobody dials nobody");
}

use eio_daemon::bridge::{DialOutcome, Walk, WalkAction, WalkEvent, WalkState};

#[test]
fn a_walk_with_nothing_to_dial_stops() {
    let (walk, action) = Walk::start(0);
    assert_eq!(walk.state, WalkState::Idle);
    assert_eq!(action, WalkAction::Stop);
}

#[test]
fn a_walk_dials_in_rank_order_and_stays_on_the_first_that_answers() {
    let (mut walk, action) = Walk::start(3);
    assert_eq!(action, WalkAction::Dial(0));
    assert_eq!(walk.step(WalkEvent::Dialed(DialOutcome::Unreachable)), WalkAction::Dial(1));
    assert_eq!(walk.step(WalkEvent::Dialed(DialOutcome::Answered)), WalkAction::Drive(1));
    assert_eq!(walk.state, WalkState::Connected(1));
    assert_eq!(walk.rejected, 0, "a candidate that is not there is not a refusal");
}

#[test]
fn a_lost_connection_restarts_the_walk_from_the_top() {
    let (mut walk, _) = Walk::start(3);
    walk.step(WalkEvent::Dialed(DialOutcome::Unreachable));
    walk.step(WalkEvent::Dialed(DialOutcome::Unreachable));
    assert_eq!(walk.step(WalkEvent::Dialed(DialOutcome::Answered)), WalkAction::Drive(2));
    assert_eq!(walk.step(WalkEvent::Ended), WalkAction::Dial(0), "a higher rank that came back is preferred again");
}

#[test]
fn a_pass_where_nothing_answers_waits_then_starts_over() {
    let (mut walk, _) = Walk::start(2);
    assert_eq!(walk.step(WalkEvent::Dialed(DialOutcome::Rejected)), WalkAction::Dial(1));
    assert_eq!(walk.step(WalkEvent::Dialed(DialOutcome::Unreachable)), WalkAction::Sleep);
    assert_eq!(walk.state, WalkState::Waiting);
    assert_eq!(walk.rejected, 1, "the refusal during the handshake is counted apart");
    assert_eq!(walk.step(WalkEvent::Waited), WalkAction::Dial(0));
}

#[test]
fn publishing_with_no_subscribers_is_not_a_loss() {
    let published = publish_outcome(true, &vec![]);
    assert_eq!(published.delivery, Delivery::Sent);
    assert!(published.keep.is_empty());
    assert_eq!(published.lost, 0);
}

#[test]
fn a_disconnected_bridge_drops_and_counts_rather_than_sending() {
    let published = publish_outcome(false, &vec![]);
    assert_eq!(published.delivery, Delivery::Dropped);
    assert_eq!(published.lost, 1);
}

#[test]
fn a_full_subscriber_loses_the_batch_and_stays_listed() {
    let published = publish_outcome(true, &vec![Offer::Taken, Offer::Full, Offer::Full]);
    assert_eq!(published.delivery, Delivery::Sent);
    assert_eq!(published.keep, vec![true, true, true]);
    assert_eq!(published.lost, 2);
}

#[test]
fn a_gone_subscriber_is_unlisted_and_not_counted() {
    let published = publish_outcome(true, &vec![Offer::Closed, Offer::Taken, Offer::Closed]);
    assert_eq!(published.delivery, Delivery::Sent);
    assert_eq!(published.keep, vec![false, true, false]);
    assert_eq!(published.lost, 0);
}

#[test]
fn the_publisher_manifest_has_one_input_and_a_required_topic() {
    let manifest = manifest_for(SystemBlockKind::Publisher, "1.0");
    assert_eq!(manifest.name, "publisher");
    assert_eq!(manifest.version, "1.0.0");
    assert_eq!(manifest.abi, "1.0");
    assert_eq!(manifest.inputs, vec![String::from("in")]);
    assert!(manifest.outputs.is_empty());
    assert!(manifest.capabilities.is_empty());
    assert!(manifest.targets.is_empty());
    assert_eq!(manifest.properties.len(), 1);
    assert_eq!(manifest.properties[0].name, "topic");
    assert!(manifest.properties[0].required);
    assert_eq!(manifest.properties[0].default, None);
}

#[test]
fn the_subscriber_manifest_has_one_output_and_a_required_topic() {
    let manifest = manifest_for(SystemBlockKind::Subscriber, "1.0");
    assert_eq!(manifest.name, "subscriber");
    assert_eq!(manifest.outputs, vec![String::from("out")]);
    assert!(manifest.inputs.is_empty());
    assert_eq!(manifest.properties[0].name, "topic");
    assert!(manifest.properties[0].required);
}

#[test]
fn a_written_candidate_parses_back_to_its_parts() {
    for (id, host, port) in [("n7k2p4qv", "10.0.0.5", 1883u16), ("a", "h:x", 0), ("node", "broker.local", 65535)] {
        let parsed = Candidate::parse(&format!("{id}@{host}:{port}")).expect("written by the format");
        assert_eq!(parsed, Candidate { id: String::from(id), host: String::from(host), port });
    }
}
