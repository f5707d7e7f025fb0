use supabase_micro::postgrest::{Method, PostgrestBuilder};
use supabase_micro::query::SortOrder;
use supabase_micro::Error;

#[test]
fn select_query() {
    let mut b = PostgrestBuilder::<256>::new("https://x.supabase.co", "users");
    b.select("*").unwrap();
    assert_eq!(b.path(), "/rest/v1/users?select=*");
    assert_eq!(b.method(), Method::Get);
}

#[test]
fn select_with_filters() {
    let mut b = PostgrestBuilder::<256>::new("https://x.supabase.co", "users");
    b.select("id,name").unwrap();
    b.eq("id", "42").unwrap();
    b.limit(1).unwrap();
    assert_eq!(b.path(), "/rest/v1/users?select=id,name&id=eq.42&limit=1");
}

#[test]
fn insert_sets_post() {
    let body = br#"{"name":"Bob"}"#;
    let mut b = PostgrestBuilder::<256>::new("https://x.supabase.co", "users");
    b.insert(body);
    assert_eq!(b.method(), Method::Post);
    assert_eq!(b.body(), Some(body.as_slice()));
    assert!(b.wants_return());
}

#[test]
fn update_sets_patch() {
    let body = br#"{"name":"Bob"}"#;
    let mut b = PostgrestBuilder::<256>::new("https://x.supabase.co", "users");
    b.update(body);
    b.eq("id", "1").unwrap();
    assert_eq!(b.method(), Method::Patch);
    assert!(b.path().contains("id=eq.1"));
}

#[test]
fn delete_sets_method() {
    let mut b = PostgrestBuilder::<256>::new("https://x.supabase.co", "users");
    b.delete();
    b.eq("id", "1").unwrap();
    assert_eq!(b.method(), Method::Delete);
}

#[test]
fn upsert_sets_prefer() {
    let body = br#"{"id":1,"name":"Bob"}"#;
    let mut b = PostgrestBuilder::<256>::new("https://x.supabase.co", "users");
    b.upsert(body);
    assert_eq!(b.method(), Method::Post);
    assert!(b.wants_upsert());
    assert!(b.wants_return());
}

#[test]
fn new_builder_defaults() {
    let b = PostgrestBuilder::<256>::new("https://x.supabase.co", "items");
    assert_eq!(b.path(), "/rest/v1/items");
    assert_eq!(b.base_url(), "https://x.supabase.co");
    assert_eq!(b.method(), Method::Get);
    assert_eq!(b.body(), None);
    assert!(b.auth_ref().is_none());
    assert!(!b.wants_return());
    assert!(!b.wants_count());
    assert!(!b.wants_upsert());
}

#[test]
fn chained_builder_calls() {
    let mut b = PostgrestBuilder::<256>::new("https://x.supabase.co", "items");
    b.select("id").unwrap().gt("price", "5").unwrap().order("price", SortOrder::Asc).unwrap();
    b.returning().count();
    assert_eq!(b.path(), "/rest/v1/items?select=id&price=gt.5&order=price.asc");
    assert!(b.wants_return());
    assert!(b.wants_count());
    assert!(!b.wants_upsert());
}

#[test]
fn every_filter_operator() {
    let mut b = PostgrestBuilder::<512>::new("h", "t");
    b.neq("a", "1").unwrap();
    b.gte("b", "2").unwrap();
    b.lt("c", "3").unwrap();
    b.lte("d", "4").unwrap();
    b.like("e", "x*").unwrap();
    b.ilike("f", "*y").unwrap();
    b.in_("g", "(1,2)").unwrap();
    b.is("h", "null").unwrap();
    b.offset(7).unwrap();
    assert_eq!(
        b.path(),
        "/rest/v1/t?a=neq.1&b=gte.2&c=lt.3&d=lte.4&e=like.x*&f=ilike.*y&g=in.(1,2)&h=is.null&offset=7"
    );
}

#[test]
fn builder_filter_overflow() {
    let mut b = PostgrestBuilder::<16>::new("h", "users");
    // "/rest/v1/users" takes 14 bytes; "?id=eq.1" does not fit.
    let r = b.eq("id", "1");
    assert!(matches!(r, Err(Error::UrlTooLong)));
    // The separator fitted before the column did not.
    assert_eq!(b.path(), "/rest/v1/users?");
}

#[test]
fn select_sets_get_after_insert() {
    let body = b"{}";
    let mut b = PostgrestBuilder::<256>::new("h", "users");
    b.insert(body);
    b.select("*").unwrap();
    assert_eq!(b.method(), Method::Get);
    assert_eq!(b.body(), Some(body.as_slice()));
}
