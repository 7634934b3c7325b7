use aragog::query::{Comparator, Comparison};

#[test]
fn in_str_array() {
    let item = Comparison::field("username").in_str_array(&["felix", "gerard"]);
    assert_eq!(item.aql_str("i").as_str(), r#"i.username IN ["felix", "gerard"]"#);
}

#[test]
fn not_in_str_array() {
    let item = Comparison::field("username").not_in_str_array(&["felix", "gerard"]);
    assert_eq!(item.aql_str("i").as_str(), r#"i.username NOT IN ["felix", "gerard"]"#);
}

#[test]
fn in_array() {
    let item = Comparison::field("age").in_array(&[13, 14, 15]);
    assert_eq!(item.aql_str("i").as_str(), r#"i.age IN [13, 14, 15]"#);
}

#[test]
fn not_in_array() {
    let item = Comparison::field("age").not_in_array(&[13, 14, 15]);
    assert_eq!(item.aql_str("i").as_str(), r#"i.age NOT IN [13, 14, 15]"#);
}

#[test]
fn like() {
    let item = Comparison::field("last_name").like("de %");
    assert_eq!(item.aql_str("i").as_str(), r#"i.last_name LIKE "de %""#);
}

#[test]
fn not_like() {
    let item = Comparison::field("last_name").not_like("de %");
    assert_eq!(item.aql_str("i").as_str(), r#"i.last_name NOT LIKE "de %""#);
}

#[test]
fn matches() {
    let item = Comparison::field("last_name").matches(r#"^/[0.9]$"#);
    assert_eq!(item.aql_str("i").as_str(), r#"i.last_name =~ "^/[0.9]$""#);
}

#[test]
fn does_not_match() {
    let item = Comparison::field("last_name").does_not_match(r#"^/[0.9]$"#);
    assert_eq!(item.aql_str("i").as_str(), r#"i.last_name !~ "^/[0.9]$""#);
}

#[test]
fn greater_than() {
    let item = Comparison::field("age").greater_than(10);
    assert_eq!(item.aql_str("i").as_str(), "i.age > 10");
}

#[test]
fn greater_or_equal() {
    let item = Comparison::field("age").greater_or_equal(10);
    assert_eq!(item.aql_str("i").as_str(), "i.age >= 10");
}

#[test]
fn lesser_than() {
    let item = Comparison::field("age").lesser_than(10);
    assert_eq!(item.aql_str("i").as_str(), "i.age < 10");
}

#[test]
fn lesser_or_equal() {
    let item = Comparison::field("age").lesser_or_equal(10);
    assert_eq!(item.aql_str("i").as_str(), "i.age <= 10");
}

#[test]
fn equals() {
    let item = Comparison::field("age").equals(10);
    assert_eq!(item.aql_str("i").as_str(), "i.age == 10");
}

#[test]
fn different_than() {
    let item = Comparison::field("age").different_than(10);
    assert_eq!(item.aql_str("i").as_str(), "i.age != 10");
}

#[test]
fn equals_str() {
    let item = Comparison::field("name").equals_str("felix");
    assert_eq!(item.aql_str("i").as_str(), r#"i.name == "felix""#);
}

#[test]
fn different_than_str() {
    let item = Comparison::field("name").different_than_str("felix");
    assert_eq!(item.aql_str("i").as_str(), r#"i.name != "felix""#);
}

#[test]
fn eq_null() {
    let item = Comparison::field("name").eq_null();
    assert_eq!(item.aql_str("i").as_str(), "i.name == null");
}

#[test]
fn not_null() {
    let item = Comparison::field("name").not_null();
    assert_eq!(item.aql_str("i").as_str(), "i.name != null");
}

#[test]
fn eq_true() {
    let item = Comparison::field("is_company").eq_true();
    assert_eq!(item.aql_str("i").as_str(), "i.is_company == true");
}

#[test]
fn eq_false() {
    let item = Comparison::field("is_company").eq_false();
    assert_eq!(item.aql_str("i").as_str(), "i.is_company == false");
}

#[test]
fn all() {
    let item = Comparison::all("emails").not_null();
    assert_eq!(item.aql_str("i").as_str(), "i.emails ALL != null");
}

#[test]
fn none() {
    let item = Comparison::none("emails").eq_null();
    assert_eq!(item.aql_str("i").as_str(), "i.emails NONE == null");
}

#[test]
fn any() {
    let item = Comparison::any("authorizations").eq_true();
    assert_eq!(item.aql_str("i").as_str(), "i.authorizations ANY == true");
}

#[test]
fn greater_than_binds_the_given_variable() {
    let item = Comparison::field("age").greater_than(18);
    assert_eq!(item.aql_str("i"), "i.age > 18");
    assert_eq!(item.aql_str("doc"), "doc.age > 18");
}

#[test]
fn equals_str_quotes_the_value() {
    let item = Comparison::field("name").equals_str("felix");
    assert_eq!(item.aql_str("i"), "i.name == \"felix\"");
}

#[test]
fn statement_renders_without_variable() {
    let item = Comparison::statement("LENGTH(i.emails)").greater_or_equal(2);
    assert_eq!(item.aql_str("i"), "LENGTH(i.emails) >= 2");
    let item = Comparison::statement("1").equals(1);
    assert_eq!(item.aql_str("a"), "1 == 1");
}

#[test]
fn numbers_render_in_decimal() {
    assert_eq!(Comparison::field("t").equals(0).aql_str("i"), "i.t == 0");
    assert_eq!(Comparison::field("t").lesser_than(-42).aql_str("i"), "i.t < -42");
    assert_eq!(
        Comparison::field("t").greater_than(i64::MAX).aql_str("i"),
        "i.t > 9223372036854775807"
    );
    assert_eq!(
        Comparison::field("t").greater_than(i64::MIN).aql_str("i"),
        "i.t > -9223372036854775808"
    );
    assert_eq!(Comparison::field("t").different_than(1000).aql_str("i"), "i.t != 1000");
}

#[test]
fn arrays_of_one_and_none() {
    assert_eq!(Comparison::field("a").in_array(&[]).aql_str("i"), "i.a IN []");
    assert_eq!(Comparison::field("a").in_array(&[-7]).aql_str("i"), "i.a IN [-7]");
    assert_eq!(Comparison::field("a").in_str_array(&[]).aql_str("i"), "i.a IN []");
    assert_eq!(Comparison::field("a").not_in_str_array(&["x"]).aql_str("i"), "i.a NOT IN [\"x\"]");
}

#[test]
fn older_names_render_as_the_newer() {
    assert_eq!(Comparison::field("n").is_null().aql_str("i"), "i.n == null");
    assert_eq!(Comparison::field("n").is_true().aql_str("i"), "i.n == true");
    assert_eq!(Comparison::field("n").is_false().aql_str("i"), "i.n == false");
    assert_eq!(Comparison::field("n").eq_true().to_aql("i"), "i.n == true");
}

#[test]
fn comparator_symbols() {
    assert_eq!(Comparator::NotLike.symbol(), "NOT LIKE");
    assert_eq!(Comparator::DoesNotMatch.symbol(), "!~");
    assert_eq!(Comparator::In.symbol(), "IN");
}
