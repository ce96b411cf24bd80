use llm_serving::auth::{
    authorize_request, bearer_token, parse_api_keys, trim_ascii_spaces, AuthError, AuthGate,
    DEFAULT_RATE_LIMIT_PER_MINUTE,
};

#[test]
fn empty_key_list_disables_the_gate() {
    let gate = AuthGate::new("", DEFAULT_RATE_LIMIT_PER_MINUTE);
    assert!(authorize_request(&gate, None).is_ok());
    assert!(authorize_request(&gate, Some("Bearer anything")).is_ok());
    // A list of empty entries counts as no keys at all.
    let gate = AuthGate::new(" , ,", DEFAULT_RATE_LIMIT_PER_MINUTE);
    assert!(authorize_request(&gate, None).is_ok());
}

#[test]
fn requests_without_a_matching_bearer_token_are_rejected() {
    let gate = AuthGate::new("secret-key", DEFAULT_RATE_LIMIT_PER_MINUTE);
    assert_eq!(authorize_request(&gate, None), Err(AuthError::Unauthorized));
    assert_eq!(authorize_request(&gate, Some("")), Err(AuthError::Unauthorized));
    assert_eq!(
        authorize_request(&gate, Some("Bearer wrong")),
        Err(AuthError::Unauthorized)
    );
    assert_eq!(
        authorize_request(&gate, Some("secret-key")),
        Err(AuthError::Unauthorized)
    );
    assert_eq!(
        authorize_request(&gate, Some("Basic secret-key")),
        Err(AuthError::Unauthorized)
    );
    assert!(authorize_request(&gate, Some("Bearer secret-key")).is_ok());
}

#[test]
fn keys_are_split_on_commas_and_trimmed() {
    let keys = parse_api_keys(" alpha , beta,,gamma ");
    assert_eq!(keys, vec!["alpha".to_string(), "beta".to_string(), "gamma".to_string()]);
    assert_eq!(parse_api_keys(""), Vec::<String>::new());
    assert_eq!(parse_api_keys(" \t , "), Vec::<String>::new());
    assert_eq!(trim_ascii_spaces("  x\ty \r\n"), "x\ty");
}

#[test]
fn bearer_prefix_is_stripped_exactly() {
    assert_eq!(bearer_token("Bearer abc"), Some("abc".to_string()));
    assert_eq!(bearer_token("Bearer "), Some("".to_string()));
    assert_eq!(bearer_token("Basic abc"), None);
    assert_eq!(bearer_token("bearer abc"), None);
    assert_eq!(bearer_token(""), None);
}

#[test]
fn rate_limit_rejects_the_61st_request_within_a_minute() {
    let gate = AuthGate::new("tok-a,tok-b", DEFAULT_RATE_LIMIT_PER_MINUTE);
    for _ in 0..DEFAULT_RATE_LIMIT_PER_MINUTE {
        assert!(authorize_request(&gate, Some("Bearer tok-a")).is_ok());
    }
    assert_eq!(
        authorize_request(&gate, Some("Bearer tok-a")),
        Err(AuthError::RateLimitExceeded)
    );
    // Traffic under another token is unaffected.
    assert!(authorize_request(&gate, Some("Bearer tok-b")).is_ok());
}

#[test]
fn auth_errors_carry_their_messages() {
    assert_eq!(AuthError::Unauthorized.message(), "Unauthorized");
    assert_eq!(AuthError::RateLimitExceeded.message(), "Rate limit exceeded");
}
