use supabase_micro::client::SupabaseClient;
use supabase_micro::error::Error;
use supabase_micro::postgrest::PostgrestBuilder;
use supabase_micro::transport::request::{write_url, RequestHeaders, MAX_REQUEST_HEADERS};

#[test]
fn writes_full_url() {
    let client = SupabaseClient::<128>::new("https://x.supabase.co", "key");
    let mut query = client.from("users");
    query.select("*").unwrap();

    let mut buf = [0; 128];
    let url = write_url(&query, &mut buf).unwrap();

    assert_eq!(url, "https://x.supabase.co/rest/v1/users?select=*");
}

#[test]
fn writes_headers_without_binding_to_transport() {
    let client = SupabaseClient::<128>::with_auth("https://x.supabase.co", "key", "jwt");
    let mut query = client.from("users");
    query.insert(br#"{"name":"Ada"}"#);
    query.count();

    let headers = RequestHeaders::from_builder(&query).unwrap();
    let mut out = [("", ""); MAX_REQUEST_HEADERS];
    let count = headers.write_into(&mut out).unwrap();

    assert_eq!(count, 3);
    assert_eq!(out[0], ("apikey", "key"));
    assert_eq!(out[1], ("Authorization", "Bearer jwt"));
    assert_eq!(out[2], ("Prefer", "return=representation, count=exact"));
}

#[test]
fn upsert_prefer_preserves_postgrest_order() {
    let client = SupabaseClient::<128>::new("https://x.supabase.co", "key");
    let mut query = client.from("users");
    query.upsert(br#"{"id":1}"#);

    let headers = RequestHeaders::from_builder(&query).unwrap();
    let mut iter = headers.iter();
    let mut prefer = None;
    while let Some(header) = iter.next() {
        if header.name == "Prefer" {
            prefer = Some(header.value);
            break;
        }
    }

    assert_eq!(
        prefer,
        Some("resolution=merge-duplicates, return=representation")
    );
}

#[test]
fn url_exact_fit_and_overflow() {
    let b = PostgrestBuilder::<64>::new("http://h", "t");
    // "http://h/rest/v1/t" is 18 bytes.
    let mut exact = [0u8; 18];
    assert_eq!(write_url(&b, &mut exact).unwrap(), "http://h/rest/v1/t");
    let mut larger = [7u8; 20];
    assert_eq!(write_url(&b, &mut larger).unwrap(), "http://h/rest/v1/t");
    assert_eq!(&larger[18..], &[7u8, 7u8]);
    let mut small = [9u8; 17];
    assert_eq!(write_url(&b, &mut small), Err(Error::UrlTooLong));
    assert_eq!(small, [9u8; 17]);
}

#[test]
fn no_auth_no_prefer_means_no_headers() {
    let b = PostgrestBuilder::<64>::new("http://h", "t");
    let headers = RequestHeaders::from_builder(&b).unwrap();
    let mut out: [(&'static str, &str); 0] = [];
    assert_eq!(headers.write_into(&mut out), Ok(0));
    assert!(headers.iter().next().is_none());
}

#[test]
fn all_prefer_options_in_order() {
    let client = SupabaseClient::<128>::new("https://x.supabase.co", "key");
    let mut query = client.from("users");
    query.upsert(b"{}").count();
    let headers = RequestHeaders::from_builder(&query).unwrap();
    let mut it = headers.iter();
    let first = it.next().unwrap();
    assert_eq!((first.name, first.value), ("apikey", "key"));
    let second = it.next().unwrap();
    assert_eq!(second.name, "Prefer");
    assert_eq!(
        second.value,
        "resolution=merge-duplicates, return=representation, count=exact"
    );
    assert!(it.next().is_none());
    assert!(it.next().is_none());
}

#[test]
fn write_into_too_small_output() {
    let client = SupabaseClient::<128>::with_auth("https://x.supabase.co", "key", "jwt");
    let mut query = client.from("users");
    query.returning();
    let headers = RequestHeaders::from_builder(&query).unwrap();
    let mut out = [("", ""); 2];
    assert_eq!(headers.write_into(&mut out), Err(Error::BufferTooSmall));
    assert_eq!(out[0], ("apikey", "key"));
    assert_eq!(out[1], ("Authorization", "Bearer jwt"));
}

#[test]
fn bearer_too_long_is_refused() {
    let token = "t".repeat(506);
    let client = SupabaseClient::<128>::with_auth("https://x.supabase.co", "key", &token);
    let query = client.from("users");
    assert!(matches!(
        RequestHeaders::from_builder(&query),
        Err(Error::BufferTooSmall)
    ));
    let token_fits = "t".repeat(505);
    let client2 = SupabaseClient::<128>::with_auth("https://x.supabase.co", "key", &token_fits);
    let query2 = client2.from("users");
    assert!(RequestHeaders::from_builder(&query2).is_ok());
}
