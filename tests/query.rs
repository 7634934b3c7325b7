use aragog::query::{Comparison, Filter, GraphQueryDirection, Query, SortDirection};

#[test]
fn query_sub_graph_query_works() {
    let query = Query::new("Companies")
        .filter(Filter::new(Comparison::any("emails").like("%gmail.com")))
        .sort("company_name", None)
        .join_outbound(
            1,
            2,
            false,
            Query::new("MemberOf")
                .sort("_id", None)
                .prune(Comparison::statement("1").equals(1).into()),
        );
    assert_eq!(
        query.aql_str().as_str(),
        "\
    FOR b in Companies \
        FILTER b.emails ANY LIKE \"%gmail.com\" \
        SORT b.company_name ASC \
            FOR a in 1..2 OUTBOUND b MemberOf \
                SORT a._id ASC \
                PRUNE 1 == 1 \
                return a",
    );
}

#[test]
fn query_named_graph_sub_graph_query_works() {
    let query = Query::new("Companies")
        .filter(Filter::new(Comparison::any("emails").like("%gmail.com")))
        .sort("company_name", None)
        .join_outbound(
            1,
            2,
            true,
            Query::new("GraphName")
                .sort("_id", None)
                .prune(Comparison::statement("1").equals(1).into()),
        );
    assert_eq!(
        query.aql_str().as_str(),
        "\
    FOR b in Companies \
        FILTER b.emails ANY LIKE \"%gmail.com\" \
        SORT b.company_name ASC \
            FOR a in 1..2 OUTBOUND b GRAPH GraphName \
                SORT a._id ASC \
                PRUNE 1 == 1 \
                return a",
    );
}

#[test]
fn complex_query_works() {
    let query = Query::new("Companies")
        .filter(Filter::new(Comparison::any("emails").like("%gmail.com")))
        .sort("company_name", None)
        .sort("company_age", Some(SortDirection::Desc))
        .limit(5, None)
        .distinct();
    assert_eq!(
        query.aql_str().as_str(),
        "\
    FOR a in Companies \
        FILTER a.emails ANY LIKE \"%gmail.com\" \
        SORT a.company_name ASC, a.company_age DESC \
        LIMIT 5 \
        return DISTINCT a",
    );
}

#[test]
fn complex_query_works_without_filter() {
    let query = Query::new("Companies")
        .filter(Comparison::any("emails").like("%gmail.com").into())
        .sort("company_name", None)
        .sort("company_age", Some(SortDirection::Desc))
        .limit(5, None)
        .distinct();
    assert_eq!(
        query.aql_str().as_str(),
        "FOR a in Companies \
                    FILTER a.emails ANY LIKE \"%gmail.com\" \
                    SORT a.company_name ASC, a.company_age DESC \
                    LIMIT 5 \
                    return DISTINCT a",
    );
}

#[test]
fn macros_work() {
    let query = Query::new("Companies")
        .filter(
            Comparison::any("emails")
                .like("%gmail.com")
                .and(Comparison::field("id").greater_than(10)),
        )
        .sort("company_name", Some(SortDirection::Desc))
        .sort("company_age", None)
        .limit(5, None)
        .distinct();
    assert_eq!(
        query.aql_str().as_str(),
        "FOR a in Companies \
                   FILTER a.emails ANY LIKE \"%gmail.com\" && a.id > 10 \
                   SORT a.company_name DESC, a.company_age ASC \
                   LIMIT 5 \
                   return DISTINCT a",
    );
}

#[test]
fn empty_query_works() {
    let query = Query::new("Companies");
    assert_eq!(query.aql_str().as_str(), "FOR a in Companies return a");
}

fn chain(joins: usize) -> Query {
    let mut q = Query::new("E0");
    let mut n: usize = 1;
    while n <= joins {
        let name = format!("E{}", n);
        q = Query::new(name.as_str()).join_outbound(1, 1, false, q);
        n += 1;
    }
    q
}

#[test]
fn variables_count_back_from_the_innermost() {
    let q = Query::new("Start")
        .join_outbound(1, 1, false, Query::new("E1").join_inbound(1, 1, false, Query::new("E2").join_any(1, 1, false, Query::new("E3"))));
    assert_eq!(
        q.aql_str(),
        "FOR d in Start FOR c in 1..1 OUTBOUND d E1 FOR b in 1..1 INBOUND c E2 \
         FOR a in 1..1 ANY b E3 return a"
    );
}

#[test]
fn two_level_join_binds_b_then_a() {
    let q = Query::new("Companies").join_outbound(1, 2, false, Query::new("MemberOf"));
    let text = q.aql_str();
    assert_eq!(text, "FOR b in Companies FOR a in 1..2 OUTBOUND b MemberOf return a");
    assert!(text.ends_with("return a"));
}

#[test]
fn deepest_renderable_chain_starts_at_z() {
    let q = chain(25);
    assert!(q.is_renderable());
    let text = q.aql_str();
    assert!(text.starts_with("FOR z in E25 FOR y in 1..1 OUTBOUND z E24"));
    assert!(text.ends_with("FOR a in 1..1 OUTBOUND b E0 return a"));
    assert!(!chain(26).is_renderable());
}

#[test]
fn rendering_twice_gives_the_same_text() {
    let q = Query::new("Users")
        .filter(Comparison::field("active").eq_true().into())
        .join_any(2, 3, true, Query::new("Social").distinct());
    let first = q.aql_str();
    let second = q.aql_str();
    assert_eq!(first, second);
    assert_eq!(first, "FOR b in Users FILTER b.active == true FOR a in 2..3 ANY b GRAPH Social return DISTINCT a");
}

#[test]
fn clauses_keep_their_fixed_order() {
    let q = Query::new("Users")
        .limit(5, Some(10))
        .sort("age", None)
        .filter(Comparison::field("active").eq_true().into());
    assert_eq!(
        q.aql_str(),
        "FOR a in Users FILTER a.active == true SORT a.age ASC LIMIT 10, 5 return a"
    );
}

#[test]
fn nested_clauses_keep_their_fixed_order() {
    let q = Query::new("Companies").join_outbound(
        1,
        2,
        false,
        Query::new("MemberOf")
            .sort("_id", None)
            .filter(Comparison::statement("1").equals(1).into())
            .limit(3, None)
            .prune(Comparison::field("x").eq_null().into()),
    );
    assert_eq!(
        q.aql_str(),
        "FOR b in Companies FOR a in 1..2 OUTBOUND b MemberOf FILTER 1 == 1 SORT a._id ASC \
         PRUNE a.x == null LIMIT 3 return a"
    );
}

#[test]
fn later_filter_replaces_earlier() {
    let q = Query::new("Users")
        .filter(Comparison::field("active").eq_true().into())
        .filter(Comparison::field("gender").equals_str("f").into());
    assert_eq!(q.aql_str(), "FOR a in Users FILTER a.gender == \"f\" return a");
}

#[test]
fn empty_filter_gives_no_clause() {
    let q = Query::new("Users").filter(Filter::default()).prune(Filter::default());
    assert_eq!(q.aql_str(), "FOR a in Users return a");
}

#[test]
fn directions_render_their_keywords() {
    assert_eq!(GraphQueryDirection::Outbound.aql_str(), "OUTBOUND");
    assert_eq!(GraphQueryDirection::Inbound.aql_str(), "INBOUND");
    assert_eq!(GraphQueryDirection::Any.aql_str(), "ANY");
    assert_eq!(SortDirection::Desc.aql_str(), "DESC");
}

#[test]
fn cloned_query_renders_alike() {
    let q = Query::new("Companies")
        .filter(Comparison::field("age").greater_than(18).into())
        .sort("name", Some(SortDirection::Desc))
        .join_inbound(1, 3, false, Query::new("Owns").limit(4, None));
    let copy = q.clone();
    assert_eq!(copy.aql_str(), q.aql_str());
    assert_eq!(
        copy.aql_str(),
        "FOR b in Companies FILTER b.age > 18 SORT b.name DESC FOR a in 1..3 INBOUND b Owns LIMIT 4 return a"
    );
}
