use aragog::query::{Comparison, Filter};

#[test]
fn provides_correct_string() {
    let filter = Filter::new(Comparison::field("username").equals_str("felix"))
        .and(Comparison::field("age").greater_than(15));
    let filter_str = filter.aql_str("i");
    assert_eq!(filter_str.as_str(), r#"i.username == "felix" && i.age > 15"#);
}

#[test]
fn succeeds_on_complex_queries() {
    let filter = Filter::new(Comparison::field("company_name").not_like("%google%"))
        .and(Comparison::field("company_age").greater_than(15))
        .or(Comparison::any("emails").like("%gmail.com"))
        .and(Comparison::field("roles").in_str_array(&["SHIPPER", "FORWARDER"]));
    let filter_str = filter.aql_str("i");
    assert_eq!(
        filter_str.as_str(),
        "\
        i.company_name NOT LIKE \"%google%\" && \
        i.company_age > 15 || \
        i.emails ANY LIKE \"%gmail.com\" && \
        i.roles IN [\"SHIPPER\", \"FORWARDER\"]",
    );
}

#[test]
fn shortcut_and_filter_new_render_alike() {
    let built = Filter::new(Comparison::field("age").greater_than(10))
        .and(Comparison::field("age").lesser_or_equal(18));
    let shortcut = Comparison::field("age")
        .greater_than(10)
        .and(Comparison::field("age").lesser_or_equal(18));
    assert_eq!(built.aql_str("i"), "i.age > 10 && i.age <= 18");
    assert_eq!(shortcut.aql_str("i"), "i.age > 10 && i.age <= 18");
}

#[test]
fn or_shortcut_renders_pipes() {
    let f = Comparison::field("a").eq_true().or(Comparison::field("b").eq_false());
    assert_eq!(f.aql_str("x"), "x.a == true || x.b == false");
}

#[test]
fn empty_filter_renders_nothing_and_grows() {
    let empty = Filter::default();
    assert!(empty.is_empty());
    assert_eq!(empty.aql_str("i"), "");
    let grown = Filter::default().or(Comparison::field("k").eq_null());
    assert!(!grown.is_empty());
    assert_eq!(grown.aql_str("i"), "i.k == null");
}

#[test]
fn comparison_into_filter() {
    let f: Filter = Comparison::field("n").equals(3).into();
    assert_eq!(f.aql_str("i"), "i.n == 3");
    let g = Filter::from(Comparison::statement("x").equals(3));
    assert_eq!(g.aql_str("i"), "x == 3");
}
