use backend::headers::extract_headers;
use backend::ids::{new_visit_id, track_redirect_location};
use backend::registration::{new_registration, NewParticipantRequest};

#[test]
fn headers_last_value_wins_sorted() {
    let input = vec![
        ("user-agent".to_string(), b"curl".to_vec()),
        ("accept".to_string(), b"*/*".to_vec()),
        ("x-forwarded-for".to_string(), b"1.1.1.1".to_vec()),
        ("accept".to_string(), b"text/html".to_vec()),
        ("cookie".to_string(), vec![0x61, 0xff]),
    ];
    let out = extract_headers(input.clone());
    let expected: std::collections::BTreeMap<String, String> = input
        .iter()
        .map(|(n, v)| (n.clone(), String::from_utf8_lossy(v).into_owned()))
        .collect();
    let expected: Vec<(String, String)> = expected.into_iter().collect();
    assert_eq!(out, expected);
    assert_eq!(out[0], ("accept".to_string(), "text/html".to_string()));
    assert_eq!(out[1], ("cookie".to_string(), "a\u{fffd}".to_string()));
}

#[test]
fn no_headers() {
    assert!(extract_headers(vec![]).is_empty());
}

#[test]
fn lossy_decoding() {
    let out = extract_headers(vec![
        ("a".to_string(), b"hello".to_vec()),
        ("b".to_string(), vec![0x66, 0xff, 0x6f]),
    ]);
    assert_eq!(out, vec![
        ("a".to_string(), "hello".to_string()),
        ("b".to_string(), "f\u{fffd}o".to_string()),
    ]);
}

#[test]
fn fresh_ids_are_v4() {
    let req = NewParticipantRequest {
        email: "a@example.org".to_string(),
        leak_check: false,
        turnstile_token: String::new(),
    };
    for _ in 0..20 {
        let id = new_registration(&req).id;
        assert_eq!((id >> 76) & 0xf, 4);
        assert_eq!((id >> 62) & 3, 2);
        assert_eq!(uuid::Uuid::from_u128(id).get_version_num(), 4);
    }
    assert_ne!(new_registration(&req).id, new_registration(&req).id);
}

#[test]
fn redirect_location() {
    let loc = track_redirect_location();
    assert!(loc.starts_with("/track/"));
    let id = &loc["/track/".len()..];
    assert_eq!(id.len(), 36);
    assert_eq!(&id[14..15], "4");
    let parsed = uuid::Uuid::parse_str(id).expect("hyphenated uuid");
    assert_eq!(parsed.hyphenated().to_string(), id);
    assert_eq!(id.to_lowercase(), id);
    assert_eq!(&id[8..9], "-");
}

#[test]
fn visit_ids() {
    let a = new_visit_id();
    let b = new_visit_id();
    assert_ne!(a, b);
    assert_eq!(uuid::Uuid::from_u128(a).get_version_num(), 4);
    assert_eq!((b >> 62) & 3, 2);
}
