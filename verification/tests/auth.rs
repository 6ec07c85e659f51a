use backend::auth::{
    generate_token, hash_token, lookup_key_for, participant_from_lookup, token_from_query, AuthError,
    Participant,
};

fn hex(bytes: &[u8]) -> String {
    bytes.iter().map(|b| format!("{:02x}", b)).collect()
}

#[test]
fn token_shape() {
    let a = generate_token();
    let b = generate_token();
    assert_eq!(a.len(), 43);
    assert!(a.chars().all(|c| c.is_ascii_alphanumeric() || c == '-' || c == '_'));
    assert_ne!(a, b);
}

#[test]
fn token_hash_is_sha256() {
    assert_eq!(
        hex(&hash_token("abc")),
        "ba7816bf8f01cfea414140de5dae2223b00361a396177a9cb410ff61f20015ad"
    );
    assert_eq!(
        hex(&hash_token("")),
        "e3b0c44298fc1c149afbf4c8996fb92427ae41e4649b934ca495991b7852b855"
    );
    let t = generate_token();
    assert_eq!(hash_token(&t), hash_token(&t.clone()));
}

#[test]
fn token_presence() {
    assert_eq!(token_from_query(Some("abc".to_string())), Ok("abc".to_string()));
    assert_eq!(token_from_query(Some(String::new())), Err(AuthError::Unauthorized));
    assert_eq!(token_from_query(Some(" ".to_string())), Ok(" ".to_string()));
    assert_eq!(token_from_query(None), Err(AuthError::Unauthorized));
    assert_eq!(AuthError::Unauthorized.status(), 401);
    assert_eq!(AuthError::StoreFailed.status(), 500);
}

#[test]
fn lookup_outcomes() {
    assert_eq!(participant_from_lookup(Ok(Some(5))), Ok(Participant { id: 5 }));
    assert_eq!(participant_from_lookup(Ok(None)), Err(AuthError::Unauthorized));
    assert_eq!(participant_from_lookup(Err(())), Err(AuthError::StoreFailed));
}

#[test]
fn generated_token_is_accepted() {
    let t = generate_token();
    assert_eq!(token_from_query(Some(t.clone())), Ok(t));
}

#[test]
fn lookup_keys() {
    assert_eq!(lookup_key_for(Some("abc".to_string())), Ok(hash_token("abc")));
    assert_eq!(lookup_key_for(Some(String::new())), Err(AuthError::Unauthorized));
    assert_eq!(lookup_key_for(None), Err(AuthError::Unauthorized));
}
