use supabase_micro::error::Error;
use supabase_micro::query::{QueryBuilder, SortOrder};

#[test]
fn select_all() {
    let mut qb = QueryBuilder::<128>::new("/rest/v1/users");
    qb.select("*").unwrap();
    assert_eq!(qb.as_str(), "/rest/v1/users?select=*");
}

#[test]
fn select_columns() {
    let mut qb = QueryBuilder::<128>::new("/rest/v1/users");
    qb.select("id,name,email").unwrap();
    assert_eq!(qb.as_str(), "/rest/v1/users?select=id,name,email");
}

#[test]
fn eq_filter() {
    let mut qb = QueryBuilder::<128>::new("/rest/v1/users");
    qb.select("*").unwrap();
    qb.eq("id", "42").unwrap();
    assert_eq!(qb.as_str(), "/rest/v1/users?select=*&id=eq.42");
}

#[test]
fn multiple_filters() {
    let mut qb = QueryBuilder::<256>::new("/rest/v1/users");
    qb.select("*").unwrap();
    qb.eq("status", "active").unwrap();
    qb.gte("age", "18").unwrap();
    qb.lt("age", "65").unwrap();
    assert_eq!(
        qb.as_str(),
        "/rest/v1/users?select=*&status=eq.active&age=gte.18&age=lt.65"
    );
}

#[test]
fn like_filter() {
    let mut qb = QueryBuilder::<128>::new("/rest/v1/users");
    qb.select("*").unwrap();
    qb.like("name", "*foo*").unwrap();
    assert_eq!(qb.as_str(), "/rest/v1/users?select=*&name=like.*foo*");
}

#[test]
fn ilike_filter() {
    let mut qb = QueryBuilder::<128>::new("/rest/v1/users");
    qb.select("*").unwrap();
    qb.ilike("email", "*@example.com").unwrap();
    assert_eq!(
        qb.as_str(),
        "/rest/v1/users?select=*&email=ilike.*@example.com"
    );
}

#[test]
fn in_filter() {
    let mut qb = QueryBuilder::<128>::new("/rest/v1/users");
    qb.select("*").unwrap();
    qb.in_("id", "(1,2,3)").unwrap();
    assert_eq!(qb.as_str(), "/rest/v1/users?select=*&id=in.(1,2,3)");
}

#[test]
fn is_null_filter() {
    let mut qb = QueryBuilder::<128>::new("/rest/v1/users");
    qb.select("*").unwrap();
    qb.is("deleted_at", "null").unwrap();
    assert_eq!(qb.as_str(), "/rest/v1/users?select=*&deleted_at=is.null");
}

#[test]
fn neq_filter() {
    let mut qb = QueryBuilder::<128>::new("/rest/v1/users");
    qb.neq("role", "admin").unwrap();
    assert_eq!(qb.as_str(), "/rest/v1/users?role=neq.admin");
}

#[test]
fn ordering() {
    let mut qb = QueryBuilder::<128>::new("/rest/v1/users");
    qb.select("*").unwrap();
    qb.order("created_at", SortOrder::Desc).unwrap();
    assert_eq!(qb.as_str(), "/rest/v1/users?select=*&order=created_at.desc");
}

#[test]
fn limit_and_offset() {
    let mut qb = QueryBuilder::<128>::new("/rest/v1/users");
    qb.select("*").unwrap();
    qb.limit(10).unwrap();
    qb.offset(20).unwrap();
    assert_eq!(qb.as_str(), "/rest/v1/users?select=*&limit=10&offset=20");
}

#[test]
fn complex_query() {
    let mut qb = QueryBuilder::<512>::new("/rest/v1/users");
    qb.select("id,name,email").unwrap();
    qb.eq("status", "active").unwrap();
    qb.gte("age", "18").unwrap();
    qb.like("name", "J*").unwrap();
    qb.order("name", SortOrder::Asc).unwrap();
    qb.limit(25).unwrap();
    qb.offset(0).unwrap();
    assert_eq!(
        qb.as_str(),
        "/rest/v1/users?select=id,name,email&status=eq.active&age=gte.18&name=like.J*&order=name.asc&limit=25&offset=0"
    );
}

#[test]
fn buffer_overflow() {
    let mut qb = QueryBuilder::<32>::new("/rest/v1/users");
    let result = qb.select("id,name,email,avatar,bio,created_at,updated_at");
    match result {
        Err(e) => assert_eq!(e, Error::UrlTooLong),
        Ok(_) => panic!("expected an error"),
    }
}

#[test]
fn gt_lte_filters() {
    let mut qb = QueryBuilder::<128>::new("/rest/v1/items");
    qb.gt("price", "100").unwrap();
    qb.lte("price", "500").unwrap();
    assert_eq!(qb.as_str(), "/rest/v1/items?price=gt.100&price=lte.500");
}

#[test]
fn overflow_keeps_pieces_that_fit() {
    // 14 + "?select=" fits in 22 bytes; the columns do not.
    let mut qb = QueryBuilder::<22>::new("/rest/v1/users");
    assert!(qb.select("id,name").is_err());
    assert_eq!(qb.as_str(), "/rest/v1/users?select=");
    assert_eq!(qb.len(), 22);
    // The query string is open now, so the next parameter starts with '&'.
    let mut qb2 = QueryBuilder::<32>::new("/rest/v1/users");
    assert!(qb2.select("id,name,email,avatar").is_err());
    qb2.limit(1).unwrap();
    assert_eq!(qb2.as_str(), "/rest/v1/users?select=&limit=1");
}

#[test]
fn exact_fit_succeeds() {
    // "/a?x=eq.1" is exactly 9 bytes.
    let mut qb = QueryBuilder::<9>::new("/a");
    qb.eq("x", "1").unwrap();
    assert_eq!(qb.as_str(), "/a?x=eq.1");
    assert_eq!(qb.len(), 9);
    assert!(matches!(qb.eq("y", "2"), Err(Error::UrlTooLong)));
    assert_eq!(qb.as_str(), "/a?x=eq.1");
}

#[test]
fn base_path_too_long_starts_empty() {
    let qb = QueryBuilder::<4>::new("/rest/v1/users");
    assert_eq!(qb.as_str(), "");
    assert_eq!(qb.len(), 0);
}

#[test]
fn large_numbers_render_in_decimal() {
    let mut qb = QueryBuilder::<128>::new("/t");
    qb.limit(usize::MAX).unwrap();
    qb.offset(0).unwrap();
    assert_eq!(qb.as_str(), format!("/t?limit={}&offset=0", usize::MAX));
}

#[test]
fn multibyte_text_counts_bytes() {
    // "\u{e9}" takes two bytes: "/t?n=eq.\u{e9}" is 10 bytes.
    let mut qb = QueryBuilder::<10>::new("/t");
    qb.eq("n", "\u{e9}").unwrap();
    assert_eq!(qb.len(), 10);
    let mut qb2 = QueryBuilder::<9>::new("/t");
    assert!(qb2.eq("n", "\u{e9}").is_err());
    assert_eq!(qb2.as_str(), "/t?n=eq.");
}

#[test]
fn question_mark_then_ampersands() {
    let mut qb = QueryBuilder::<128>::new("/p");
    qb.eq("a", "1").unwrap();
    qb.order("b", SortOrder::Asc).unwrap();
    qb.limit(3).unwrap();
    qb.select("c").unwrap();
    assert_eq!(qb.as_str(), "/p?a=eq.1&order=b.asc&limit=3&select=c");
}
