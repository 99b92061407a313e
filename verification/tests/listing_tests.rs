use pw::Credential;
use pw::category_or_empty;
use pw::listing::ListEntry;
use pw::listing::ListingLine;
use pw::listing::render_listing;
use pw::store::Store;

#[test]
fn listing_order_and_grouping() {
    let mut s = Store::bootstrap(":memory:", false).unwrap();
    s.insert("b", "cat1", "u2", "p2").unwrap();
    s.insert("c", "cat1", "u3", "p3").unwrap();
    s.insert("a", "", "u1", "p1").unwrap();
    let v = s.list(None).unwrap();
    let expect = vec![
        ListEntry { category: String::from(""), name: String::from("a") },
        ListEntry { category: String::from("cat1"), name: String::from("b") },
        ListEntry { category: String::from("cat1"), name: String::from("c") },
    ];
    assert_eq!(v, expect);
    // the leading uncategorized run opens with no header; the one header
    // transition is between the first and the second row
    let lines = render_listing(&v);
    let expect_lines = vec![
        ListingLine::Name(String::from("a")),
        ListingLine::Header(String::from("cat1")),
        ListingLine::Name(String::from("b")),
        ListingLine::Name(String::from("c")),
    ];
    assert_eq!(lines, expect_lines);
}

#[test]
fn listing_filters_by_category() {
    let mut s = Store::bootstrap(":memory:", false).unwrap();
    s.insert("b", "cat1", "u2", "p2").unwrap();
    s.insert("c", "cat1", "u3", "p3").unwrap();
    s.insert("a", "", "u1", "p1").unwrap();
    let cat1 = s.list(Some("cat1")).unwrap();
    let expect_cat1 = vec![
        ListEntry { category: String::from("cat1"), name: String::from("b") },
        ListEntry { category: String::from("cat1"), name: String::from("c") },
    ];
    assert_eq!(cat1, expect_cat1);
    // the empty-string filter selects exactly the uncategorized credentials
    let uncategorized = s.list(Some("")).unwrap();
    let expect_unc = vec![ListEntry { category: String::from(""), name: String::from("a") }];
    assert_eq!(uncategorized, expect_unc);
    let none = s.list(Some("missing")).unwrap();
    assert_eq!(none.len(), 0);
}

#[test]
fn render_opens_header_on_each_category_change() {
    let entries = vec![
        ListEntry { category: String::from("x"), name: String::from("n1") },
        ListEntry { category: String::from("x"), name: String::from("n2") },
        ListEntry { category: String::from(""), name: String::from("n3") },
    ];
    let lines = render_listing(&entries);
    let expect = vec![
        ListingLine::Header(String::from("x")),
        ListingLine::Name(String::from("n1")),
        ListingLine::Name(String::from("n2")),
        ListingLine::Header(String::from("")),
        ListingLine::Name(String::from("n3")),
    ];
    assert_eq!(lines, expect);
}

#[test]
fn render_of_empty_listing_is_empty() {
    let entries: Vec<ListEntry> = Vec::new();
    assert_eq!(render_listing(&entries).len(), 0);
}

#[test]
fn selected_secret_picks_field() {
    let c = Credential {
        id: 1,
        name: String::from("n"),
        category: String::from(""),
        username: String::from("user"),
        password: String::from("pass"),
    };
    assert_eq!(c.selected_secret(true).as_str(), "user");
    assert_eq!(c.selected_secret(false).as_str(), "pass");
}

#[test]
fn category_defaults_to_empty() {
    assert_eq!(category_or_empty(Some(String::from("work"))).as_str(), "work");
    assert_eq!(category_or_empty(None).as_str(), "");
}
