use homepage::handler::workload_request;
use homepage::validate::WorkloadKind;

#[test]
fn test_hash_default() {
    let r = workload_request(WorkloadKind::Hash, None);
    assert_eq!(r.payload.template_name, "index");
    assert_eq!(r.payload.fields.len(), 1);
    assert_eq!(r.payload.fields[0].0, "hash-success-msg");
    assert_eq!(r.payload.fields[0].1, "Successfully hashed 1000 times");
}

#[test]
fn test_hash_custom_amount() {
    let r = workload_request(WorkloadKind::Hash, Some("3000"));
    assert_eq!(r.payload.template_name, "index");
    assert_eq!(r.payload.fields.len(), 1);
    assert_eq!(r.payload.fields[0].0, "hash-success-msg");
    assert_eq!(r.payload.fields[0].1, "Successfully hashed 3000 times");
}

#[test]
fn test_hash_below_edge_case() {
    let r = workload_request(WorkloadKind::Hash, Some("9999"));
    assert_eq!(r.payload.template_name, "index");
    assert_eq!(r.payload.fields.len(), 1);
    assert_eq!(r.payload.fields[0].0, "hash-success-msg");
    assert_eq!(r.payload.fields[0].1, "Successfully hashed 9999 times");
}

#[test]
fn test_hash_at_edge_case() {
    let r = workload_request(WorkloadKind::Hash, Some("10000"));
    assert_eq!(r.payload.template_name, "index");
    assert_eq!(r.payload.fields.len(), 1);
    assert_eq!(r.payload.fields[0].0, "hash-success-msg");
    assert_eq!(r.payload.fields[0].1, "Successfully hashed 10000 times");
}

#[test]
fn test_hash_non_integer_amount() {
    let r = workload_request(WorkloadKind::Hash, Some("string"));
    assert_eq!(r.payload.template_name, "index");
    assert_eq!(r.payload.fields.len(), 1);
    assert_eq!(r.payload.fields[0].0, "hash-error-msg");
    assert_eq!(
        r.payload.fields[0].1,
        "Amount must be a positive integer between 0 and 10,000"
    );
}

#[test]
fn test_hash_above_edge_case() {
    let r = workload_request(WorkloadKind::Hash, Some("10001"));
    assert_eq!(r.payload.template_name, "index");
    assert_eq!(r.payload.fields.len(), 1);
    assert_eq!(r.payload.fields[0].0, "hash-error-msg");
    assert_eq!(
        r.payload.fields[0].1,
        "Amount must be a positive integer between 0 and 10,000"
    );
}

#[test]
fn hash_zero_amount_succeeds() {
    let r = workload_request(WorkloadKind::Hash, Some("0"));
    assert_eq!(r.payload.fields[0].0, "hash-success-msg");
    assert_eq!(r.payload.fields[0].1, "Successfully hashed 0 times");
    assert_eq!(r.suspend_ms, None);
}

#[test]
fn hash_never_asks_for_suspension() {
    let r = workload_request(WorkloadKind::Hash, Some("5"));
    assert_eq!(r.suspend_ms, None);
    let r = workload_request(WorkloadKind::Hash, Some("bad"));
    assert_eq!(r.suspend_ms, None);
}

#[test]
fn sleep_default_length() {
    let r = workload_request(WorkloadKind::Sleep, None);
    assert_eq!(r.payload.template_name, "index");
    assert_eq!(r.payload.fields[0].0, "sleep-success-msg");
    assert_eq!(r.payload.fields[0].1, "Successfully slept 1000 milliseconds");
    assert_eq!(r.suspend_ms, Some(1000));
}

#[test]
fn sleep_at_edge_case() {
    let r = workload_request(WorkloadKind::Sleep, Some("10000"));
    assert_eq!(r.payload.fields[0].0, "sleep-success-msg");
    assert_eq!(r.payload.fields[0].1, "Successfully slept 10000 milliseconds");
    assert_eq!(r.suspend_ms, Some(10000));
}

#[test]
fn sleep_above_edge_case() {
    let r = workload_request(WorkloadKind::Sleep, Some("10001"));
    assert_eq!(r.payload.fields[0].0, "sleep-error-msg");
    assert_eq!(
        r.payload.fields[0].1,
        "Length must be a positive integer between 0 and 10,000"
    );
    assert_eq!(r.suspend_ms, None);
}

#[test]
fn sleep_non_integer_length() {
    let r = workload_request(WorkloadKind::Sleep, Some("soon"));
    assert_eq!(r.payload.fields[0].0, "sleep-error-msg");
    assert_eq!(
        r.payload.fields[0].1,
        "Length must be a positive integer between 0 and 10,000"
    );
    assert_eq!(r.suspend_ms, None);
}

#[test]
fn sleep_zero_length() {
    let r = workload_request(WorkloadKind::Sleep, Some("0"));
    assert_eq!(r.payload.fields[0].1, "Successfully slept 0 milliseconds");
    assert_eq!(r.suspend_ms, Some(0));
}

#[test]
fn repeated_requests_render_the_same_fields() {
    let a = workload_request(WorkloadKind::Hash, Some("7"));
    let b = workload_request(WorkloadKind::Hash, Some("7"));
    assert_eq!(a.payload.template_name, b.payload.template_name);
    assert_eq!(a.payload.fields, b.payload.fields);
    let c = workload_request(WorkloadKind::Sleep, Some("42"));
    let d = workload_request(WorkloadKind::Sleep, Some("42"));
    assert_eq!(c.payload.fields, d.payload.fields);
    assert_eq!(c.suspend_ms, d.suspend_ms);
}

#[test]
fn hash_workload_pays_each_round() {
    let m = match homepage::validate::validate(WorkloadKind::Hash, Some("25")) {
        Ok(m) => m,
        Err(_) => panic!("a numeral within the bound must be accepted"),
    };
    let rounds = homepage::workload::hash_workload(&m);
    assert_eq!(rounds.len(), 25);
    for (token, digest) in rounds.iter() {
        assert_eq!(token.chars().count(), 64);
        assert!(token.chars().all(|c| c.is_ascii_alphanumeric()));
        assert_eq!(digest.chars().count(), 128);
        assert!(digest.chars().all(|c| c.is_ascii_hexdigit()));
    }
}
