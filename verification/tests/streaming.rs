use llmserver_rs::bridge::{Bridge, BridgeStep, CallState};

#[test]
fn fragments_arrive_in_emission_order() {
    let mut b = Bridge::new(8);
    for part in ["Hel", "lo ", "wor", "ld"] {
        let step = b.on_event(CallState::Normal, Some(&part.to_string()));
        assert_eq!(step, BridgeStep::Delivered);
    }
    let out = b.drain();
    assert_eq!(
        out,
        vec![
            "Hel".to_string(),
            "lo ".to_string(),
            "wor".to_string(),
            "ld".to_string(),
        ]
    );
    assert_eq!(out.concat(), "Hello world".to_string());
}

#[test]
fn backpressure_loses_nothing() {
    let mut b = Bridge::new(2);
    assert_eq!(
        b.on_event(CallState::Normal, Some(&"one".to_string())),
        BridgeStep::Delivered
    );
    assert_eq!(
        b.on_event(CallState::Normal, Some(&"two".to_string())),
        BridgeStep::Delivered
    );
    // the buffer is full: the engine thread is told to retry, the fragment
    // is not dropped
    let three = "three".to_string();
    assert_eq!(b.on_event(CallState::Normal, Some(&three)), BridgeStep::Retry);
    assert_eq!(b.on_event(CallState::Normal, Some(&three)), BridgeStep::Retry);
    // the consumer drains one; the retried fragment now fits
    assert_eq!(b.take_next(), Some("one".to_string()));
    assert_eq!(
        b.on_event(CallState::Normal, Some(&three)),
        BridgeStep::Delivered
    );
    let rest = b.drain();
    assert_eq!(rest, vec!["two".to_string(), "three".to_string()]);
}

#[test]
fn slow_consumer_still_sees_every_fragment() {
    let mut b = Bridge::new(1);
    let mut received: Vec<String> = Vec::new();
    for part in ["a", "b", "c", "d", "e"] {
        let fragment = part.to_string();
        // the engine side retries until the consumer makes room
        let mut retries = 0;
        loop {
            match b.on_event(CallState::Normal, Some(&fragment)) {
                BridgeStep::Delivered => break,
                BridgeStep::Retry => {
                    if let Some(f) = b.take_next() {
                        received.push(f);
                    }
                    retries += 1;
                    assert!(retries <= 2, "delivery must make progress");
                }
                other => panic!("unexpected step {:?}", other),
            }
        }
    }
    assert_eq!(b.on_event(CallState::Finish, None), BridgeStep::Halt);
    received.extend(b.drain());
    assert_eq!(
        received,
        vec![
            "a".to_string(),
            "b".to_string(),
            "c".to_string(),
            "d".to_string(),
            "e".to_string(),
        ]
    );
}

#[test]
fn finish_closes_the_stream() {
    let mut b = Bridge::new(4);
    b.on_event(CallState::Normal, Some(&"tail".to_string()));
    assert_eq!(b.on_event(CallState::Finish, None), BridgeStep::Halt);
    // nothing is delivered past the close
    assert_eq!(
        b.on_event(CallState::Normal, Some(&"late".to_string())),
        BridgeStep::Halt
    );
    assert!(!b.at_end());
    assert_eq!(b.drain(), vec!["tail".to_string()]);
    assert!(b.at_end());
    assert_eq!(b.take_next(), None);
}

#[test]
fn engine_error_closes_the_stream() {
    let mut b = Bridge::new(4);
    assert_eq!(b.on_event(CallState::Error, None), BridgeStep::Halt);
    assert_eq!(
        b.on_event(CallState::Normal, Some(&"after".to_string())),
        BridgeStep::Halt
    );
    assert!(b.at_end());
}

#[test]
fn idle_states_deliver_nothing() {
    let mut b = Bridge::new(4);
    assert_eq!(b.on_event(CallState::Waiting, None), BridgeStep::Ignored);
    assert_eq!(b.on_event(CallState::Diagnostic, None), BridgeStep::Ignored);
    assert_eq!(b.on_event(CallState::Normal, None), BridgeStep::Ignored);
    assert_eq!(b.drain(), Vec::<String>::new());
}

#[test]
fn disconnect_halts_delivery_without_spinning() {
    let mut b = Bridge::new(4);
    let expected: Vec<String> = (0..10).map(|i| format!("f{}", i)).collect();
    // the consumer receives 2 of 10 expected fragments, then goes away
    assert_eq!(
        b.on_event(CallState::Normal, Some(&expected[0])),
        BridgeStep::Delivered
    );
    assert_eq!(
        b.on_event(CallState::Normal, Some(&expected[1])),
        BridgeStep::Delivered
    );
    assert_eq!(b.take_next(), Some("f0".to_string()));
    assert_eq!(b.take_next(), Some("f1".to_string()));
    b.disconnect();
    // every further delivery attempt halts at once: no retry loop, no hang
    for fragment in &expected[2..] {
        assert_eq!(b.on_event(CallState::Normal, Some(fragment)), BridgeStep::Halt);
    }
}
