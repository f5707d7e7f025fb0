use supabase_micro::client::SupabaseClient;

#[test]
fn create_client() {
    let client = SupabaseClient::<256>::new("https://x.supabase.co", "test-key");
    assert_eq!(client.base_url(), "https://x.supabase.co");
    assert_eq!(client.auth().api_key, "test-key");
    assert!(client.auth().bearer_token.is_none());
}

#[test]
fn create_client_with_jwt() {
    let client =
        SupabaseClient::<256>::with_auth("https://x.supabase.co", "test-key", "jwt-token-here");
    assert_eq!(client.auth().bearer_token, Some("jwt-token-here"));
}

#[test]
fn from_returns_builder() {
    let client = SupabaseClient::<256>::new("https://x.supabase.co", "test-key");
    let mut builder = client.from("users");
    builder.select("*").unwrap();
    assert_eq!(builder.path(), "/rest/v1/users?select=*");
    assert_eq!(builder.base_url(), "https://x.supabase.co");
}

#[test]
fn from_with_filters() {
    let client = SupabaseClient::<256>::new("https://x.supabase.co", "test-key");
    let mut builder = client.from("users");
    builder.select("id,name").unwrap();
    builder.eq("status", "active").unwrap();
    builder.limit(10).unwrap();
    assert_eq!(
        builder.path(),
        "/rest/v1/users?select=id,name&status=eq.active&limit=10"
    );
}

#[test]
fn from_carries_client_auth() {
    let client = SupabaseClient::<256>::with_auth("https://x.supabase.co", "test-key", "jwt");
    let builder = client.from("users");
    let auth = builder.auth_ref().unwrap();
    assert_eq!(auth.api_key, "test-key");
    assert_eq!(auth.bearer_token, Some("jwt"));
    assert_eq!(builder.path(), "/rest/v1/users");
}

#[test]
fn from_with_tiny_capacity_keeps_what_fits() {
    // "/rest/v1/" does not fit in 8 bytes; the table name alone does.
    let client = SupabaseClient::<8>::new("https://x.supabase.co", "test-key");
    let builder = client.from("users");
    assert_eq!(builder.path(), "users");
}
