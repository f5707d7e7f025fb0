use supabase_micro::auth::Auth;

#[test]
fn auth_without_token() {
    let a = Auth::new("key");
    assert_eq!(a.api_key, "key");
    assert!(a.bearer_token.is_none());
    assert!(a.authorization_value::<64>().is_none());
}

#[test]
fn authorization_value_with_token() {
    let a = Auth::with_bearer("key", "jwt");
    assert_eq!(a.api_key, "key");
    assert_eq!(a.bearer_token, Some("jwt"));
    let v = a.authorization_value::<64>().unwrap();
    assert_eq!(v.as_str(), "Bearer jwt");
    assert_eq!(v.len(), 10);
    // Exactly 10 bytes fit; 9 do not.
    assert_eq!(a.authorization_value::<10>().unwrap().as_str(), "Bearer jwt");
    assert!(a.authorization_value::<9>().is_none());
    assert!(a.authorization_value::<3>().is_none());
}
