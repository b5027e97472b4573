use mom_rpc::CorrelationId;

#[test]
fn correlation_test_generate_unique() {
    let id1 = CorrelationId::generate();
    let id2 = CorrelationId::generate();
    assert_ne!(id1, id2);
}

#[test]
fn correlation_test_format() {
    let id = CorrelationId::generate();
    let s = id.to_string();
    assert_eq!(s.len(), 36); // Standard UUID format
}

#[test]
fn correlation_id_is_lowercase_uuid_v4() {
    let id = CorrelationId::generate();
    let chars: Vec<char> = id.as_str().chars().collect();
    assert_eq!(chars.len(), 36);
    for (i, c) in chars.iter().enumerate() {
        if i == 8 || i == 13 || i == 18 || i == 23 {
            assert_eq!(*c, '-');
        } else {
            assert!(c.is_ascii_hexdigit() && !c.is_ascii_uppercase());
        }
    }
    assert_eq!(chars[14], '4');
    assert!(matches!(chars[19], '8' | '9' | 'a' | 'b'));
}

#[test]
fn correlation_id_round_trips_text() {
    let id = CorrelationId::from_text("corr-7");
    assert_eq!(id.as_str(), "corr-7");
    assert_eq!(id.to_string(), "corr-7".to_string());
    assert_eq!(CorrelationId::from("corr-7".to_string()), id);
}

#[test]
fn correlation_id_copies_keep_the_text() {
    let id = CorrelationId::from_text("abc-123");
    assert_eq!(id.clone().as_str(), "abc-123");
    assert_eq!(id.duplicate().as_str(), "abc-123");
    assert_eq!(CorrelationId::from(String::from("xyz")).to_string(), "xyz");
    assert_eq!(id.clone(), id);
}
