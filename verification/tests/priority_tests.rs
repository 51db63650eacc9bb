use message_optimizer::MessagePriority;

#[test]
fn test_priority_detection() {
    assert_eq!(
        MessagePriority::from_message(r#"{"type":"auth_init"}"#),
        MessagePriority::Critical
    );

    assert_eq!(
        MessagePriority::from_message(r#"{"type":"entropy_commit"}"#),
        MessagePriority::High
    );

    assert_eq!(
        MessagePriority::from_message(r#"{"type":"ping"}"#),
        MessagePriority::Low
    );

    assert_eq!(
        MessagePriority::from_message(r#"{"type":"chat","msg":"hello"}"#),
        MessagePriority::Normal
    );
}

#[test]
fn test_every_marker_classifies_to_its_tier() {
    let critical = [
        r#"{"type":"auth"}"#,
        r#"{"type":"auth_init","from":"a"}"#,
        r#"{"type":"auth_response","from":"b"}"#,
        r#"{"type":"key_exchange","key":"k"}"#,
        "msg KeyExchange 42",
        "msg AuthInit 42",
        "msg AuthResponse 42",
    ];
    for m in critical {
        assert_eq!(MessagePriority::from_message(m), MessagePriority::Critical);
    }

    let high = [
        r#"{"type":"entropy","data":"d"}"#,
        r#"{"type":"entropy_commit"}"#,
        r#"{"type":"entropy_reveal"}"#,
        r#"{"type":"peer_join","peer":"p"}"#,
        r#"{"type":"peer_leave","peer":"p"}"#,
        "msg PeerJoined 42",
        "msg PeerLeft 42",
    ];
    for m in high {
        assert_eq!(MessagePriority::from_message(m), MessagePriority::High);
    }

    let low = [r#"{"type":"ping"}"#, r#"{"type":"pong"}"#, "msg Pong 42"];
    for m in low {
        assert_eq!(MessagePriority::from_message(m), MessagePriority::Low);
    }

    let normal = ["", "hello there", r#"{"type":"chat","msg":"hi"}"#, "data packet 9000"];
    for m in normal {
        assert_eq!(MessagePriority::from_message(m), MessagePriority::Normal);
    }
}

#[test]
fn test_marker_sets_pairwise_disjoint() {
    let critical = [
        r#""type":"auth""#,
        r#""type":"auth_init""#,
        r#""type":"auth_response""#,
        r#""type":"key_exchange""#,
        "KeyExchange",
        "AuthInit",
        "AuthResponse",
    ];
    let high = [
        r#""type":"entropy""#,
        r#""type":"entropy_commit""#,
        r#""type":"entropy_reveal""#,
        r#""type":"peer_join""#,
        r#""type":"peer_leave""#,
        "PeerJoined",
        "PeerLeft",
    ];
    let low = [r#""type":"ping""#, r#""type":"pong""#, "Pong"];

    let tiers: [&[&str]; 3] = [&critical, &high, &low];
    for (i, a) in tiers.iter().enumerate() {
        for (j, b) in tiers.iter().enumerate() {
            if i == j {
                continue;
            }
            for m in a.iter() {
                for n in b.iter() {
                    assert!(
                        !m.contains(n),
                        "marker {:?} of one tier matches marker {:?} of another",
                        m,
                        n
                    );
                }
            }
        }
    }
}

#[test]
fn test_priority_ordering() {
    assert!(MessagePriority::Critical < MessagePriority::High);
    assert!(MessagePriority::High < MessagePriority::Normal);
    assert!(MessagePriority::Normal < MessagePriority::Low);
    assert!(MessagePriority::Critical < MessagePriority::Low);
    assert_eq!(
        MessagePriority::Critical.partial_cmp(&MessagePriority::Critical),
        Some(std::cmp::Ordering::Equal)
    );
    assert!(MessagePriority::Low > MessagePriority::Critical);
}

#[test]
fn test_classification_is_stable() {
    let msg = r#"{"type":"auth_init"}"#;
    let first = MessagePriority::from_message(msg);
    for _ in 0..10 {
        assert_eq!(MessagePriority::from_message(msg), first);
    }
}

#[test]
fn test_is_critical() {
    assert!(MessagePriority::Critical.is_critical());
    assert!(!MessagePriority::High.is_critical());
    assert!(!MessagePriority::Normal.is_critical());
    assert!(!MessagePriority::Low.is_critical());
    assert!(MessagePriority::from_message(r#"{"type":"key_exchange"}"#).is_critical());
    assert!(!MessagePriority::from_message(r#"{"type":"ping"}"#).is_critical());
}
