use parity_orchestrator::audit::AdditionRecord;

#[test]
fn line_is_time_space_address_newline() {
    let record = AdditionRecord::new(
        "2018-03-01T12:00:00+00:00".to_string(),
        "enode://aa@10.0.0.5:30303".to_string(),
    );
    assert_eq!(record.line(), "2018-03-01T12:00:00+00:00 enode://aa@10.0.0.5:30303\n");
}

#[test]
fn line_of_empty_fields() {
    assert_eq!(AdditionRecord::new(String::new(), String::new()).line(), " \n");
}

#[test]
fn stamp_keeps_the_address_and_adds_a_time() {
    let record = AdditionRecord::stamp("enode://aa@10.0.0.5:30303".to_string());
    assert_eq!(record.connection, "enode://aa@10.0.0.5:30303");
    let t = record.timestamp.as_bytes();
    assert!(t.len() >= 20, "{}", record.timestamp);
    assert_eq!(t[4], b'-');
    assert_eq!(t[7], b'-');
    assert_eq!(t[10], b'T');
    assert_eq!(t[13], b':');
    assert_eq!(t[16], b':');
    assert!(record.timestamp.ends_with("+00:00"), "{}", record.timestamp);
    assert!(record.line().ends_with(" enode://aa@10.0.0.5:30303\n"));
}
