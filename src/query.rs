use vstd::prelude::*;

pub use crate::comparison::{Comparator, Comparison, ComparisonBuilder};
pub use crate::filter::{Connector, Filter};
pub use crate::graph_query::{GraphQueryData, GraphQueryDirection};
pub use crate::query_result::QueryResult;
pub use crate::cursor::QueryCursor;

use crate::filter::{filter_aql, FilterView};
use crate::graph_query::direction_keyword;
use crate::text::{decimal, letter, letter_chars, push_decimal, push_letter, LETTER_COUNT};

verus! {

/// The order of a sort key.
#[derive(Clone, Copy, Debug, PartialEq, Eq, Structural)]
pub enum SortDirection {
    Asc,
    Desc,
}

/// The keyword of a sort order in the query language.
pub open spec fn sort_keyword(d: SortDirection) -> Seq<char> {
    match d {
        SortDirection::Asc => "ASC"@,
        SortDirection::Desc => "DESC"@,
    }
}

impl SortDirection {
    /// The keyword of this sort order in the query language.
    pub fn aql_str(&self) -> (r: &'static str)
        ensures
            r@ == sort_keyword(*self),
    {
        match self {
            SortDirection::Asc => "ASC",
            SortDirection::Desc => "DESC",
        }
    }
}

/// What a [`Query`] holds: one node of a chain of nested traversals.
pub struct QueryView {
    /// The collection scanned by the root, or the edge collection or graph walked by a
    /// joined query.
    pub collection: Seq<char>,
    pub filter: Option<FilterView>,
    pub sorts: Seq<(Seq<char>, SortDirection)>,
    /// The count and the optional offset.
    pub limit: Option<(u32, Option<u32>)>,
    pub distinct: bool,
    pub prune: Option<FilterView>,
    /// The joined query, with how it is reached from this one.
    pub sub_query: Option<(GraphQueryData, Box<QueryView>)>,
}

/// The index of the innermost node of the chain that starts at `q`, `q` itself being at 0.
pub open spec fn depth(q: QueryView) -> nat
    decreases q,
{
    match q.sub_query {
        None => 0,
        Some((_, child)) => 1 + depth(*child),
    }
}

/// Whether some node of the chain that starts at `q` asks for distinct results.
pub open spec fn any_distinct(q: QueryView) -> bool
    decreases q,
{
    q.distinct || match q.sub_query {
        None => false,
        Some((_, child)) => any_distinct(*child),
    }
}

/// ` FILTER <filter>` for a filter that holds a comparison; nothing otherwise.
pub open spec fn filter_clause(keyword: Seq<char>, f: Option<FilterView>, var: Seq<char>) -> Seq<char> {
    match f {
        Some(f) => if f.first is Some {
            " "@ + keyword + " "@ + filter_aql(f, var)
        } else {
            Seq::empty()
        },
        None => Seq::empty(),
    }
}

/// `var.field DIRECTION`.
pub open spec fn sort_key_aql(key: (Seq<char>, SortDirection), var: Seq<char>) -> Seq<char> {
    var + "."@ + key.0 + " "@ + sort_keyword(key.1)
}

/// The sort keys, joined by `", "`.
pub open spec fn sort_list_aql(sorts: Seq<(Seq<char>, SortDirection)>, var: Seq<char>) -> Seq<char>
    decreases sorts.len(),
{
    if sorts.len() == 0 {
        Seq::empty()
    } else if sorts.len() == 1 {
        sort_key_aql(sorts[0], var)
    } else {
        sort_list_aql(sorts.drop_last(), var) + ", "@ + sort_key_aql(sorts.last(), var)
    }
}

/// ` SORT <keys>` when there are sort keys; nothing otherwise.
pub open spec fn sort_clause(sorts: Seq<(Seq<char>, SortDirection)>, var: Seq<char>) -> Seq<char> {
    if sorts.len() == 0 {
        Seq::empty()
    } else {
        " SORT "@ + sort_list_aql(sorts, var)
    }
}

/// ` LIMIT <count>` or ` LIMIT <offset>, <count>`; nothing without a limit.
pub open spec fn limit_clause(limit: Option<(u32, Option<u32>)>) -> Seq<char> {
    match limit {
        None => Seq::empty(),
        Some((count, None)) => " LIMIT "@ + decimal(count as nat),
        Some((count, Some(offset))) => " LIMIT "@ + decimal(offset as nat) + ", "@ + decimal(
            count as nat,
        ),
    }
}

/// The clauses of one node bound to `var`, in their fixed order: FILTER, SORT, PRUNE, LIMIT.
pub open spec fn clauses_aql(q: QueryView, var: Seq<char>) -> Seq<char> {
    filter_clause("FILTER"@, q.filter, var) + sort_clause(q.sorts, var) + filter_clause(
        "PRUNE"@,
        q.prune,
        var,
    ) + limit_clause(q.limit)
}

/// ` FOR <child> in <min>..<max> <DIRECTION> <parent> [GRAPH ]<name>`: the head of a joined
/// query named `name`, bound to `child` and walking from `parent`.
pub open spec fn traversal_head(
    g: GraphQueryData,
    name: Seq<char>,
    child: Seq<char>,
    parent: Seq<char>,
) -> Seq<char> {
    " FOR "@ + child + " in "@ + decimal(g.min as nat) + ".."@ + decimal(g.max as nat) + " "@
        + direction_keyword(g.direction) + " "@ + parent + " "@ + (if g.named_graph {
        "GRAPH "@
    } else {
        Seq::empty()
    }) + name
}

/// The text of node `q`, bound to the variable `letter(k)`, and of the nodes nested in it,
/// each bound to the letter before its parent's.
pub open spec fn node_aql(q: QueryView, k: nat) -> Seq<char>
    decreases q,
{
    clauses_aql(q, letter(k)) + match q.sub_query {
        None => Seq::empty(),
        Some((g, child)) => traversal_head(g, child.collection, letter((k - 1) as nat), letter(k))
            + node_aql(*child, (k - 1) as nat),
    }
}

/// The statement of a query: the root is bound to the letter at the chain's depth, each nested
/// node to the letter before its parent's, so the innermost node is bound to `a`, which the
/// statement returns.
pub open spec fn query_aql(q: QueryView) -> Seq<char> {
    "FOR "@ + letter(depth(q)) + " in "@ + q.collection + node_aql(q, depth(q)) + " return "@ + (
    if any_distinct(q) {
        "DISTINCT "@
    } else {
        Seq::empty()
    }) + letter(0)
}

/// A query of the graph database: a scan of a collection with its clauses, and optionally one
/// nested traversal query joined to it.
#[derive(Debug)]
pub struct Query {
    collection: String,
    filter: Option<Filter>,
    sorts: Vec<(String, SortDirection)>,
    limit: Option<(u32, Option<u32>)>,
    distinct: bool,
    prune: Option<Filter>,
    sub_query: Option<(GraphQueryData, Box<Query>)>,
}

/// The model of an optional filter.
pub open spec fn option_filter_view(f: Option<Filter>) -> Option<FilterView> {
    match f {
        None => None,
        Some(f) => Some(f@),
    }
}

impl View for Query {
    type V = QueryView;

    closed spec fn view(&self) -> QueryView
        decreases self,
    {
        QueryView {
            collection: self.collection@,
            filter: option_filter_view(self.filter),
            sorts: self.sorts@.map_values(|s: (String, SortDirection)| (s.0@, s.1)),
            limit: self.limit,
            distinct: self.distinct,
            prune: option_filter_view(self.prune),
            sub_query: match self.sub_query {
                None => None,
                Some((g, child)) => Some((g, Box::new((*child).view()))),
            },
        }
    }
}

/// `sorts` extended by one key renders as before, then `", "` and that key.
proof fn lemma_sort_list_push(sorts: Seq<(Seq<char>, SortDirection)>, i: int, var: Seq<char>)
    requires
        0 < i < sorts.len(),
    ensures
        sort_list_aql(sorts.take(i + 1), var) == sort_list_aql(sorts.take(i), var) + ", "@
            + sort_key_aql(sorts[i], var),
{
    assert(sorts.take(i + 1).drop_last() =~= sorts.take(i));
}

/// Appends ` keyword <filter>` to `out` when `f` holds a comparison.
fn push_filter_clause(out: &mut String, keyword: &str, f: &Option<Filter>, var: &str)
    ensures
        final(out)@ == old(out)@ + filter_clause(keyword@, option_filter_view(*f), var@),
{
    match f {
        Some(f) => {
            if !f.is_empty() {
                out.append(" ");
                out.append(keyword);
                out.append(" ");
                let text = f.aql_str(var);
                out.append(text.as_str());
                assert(final(out)@ =~= old(out)@ + filter_clause(
                    keyword@,
                    option_filter_view(Some(*f)),
                    var@,
                ));
            } else {
                assert(final(out)@ =~= old(out)@ + filter_clause(
                    keyword@,
                    option_filter_view(Some(*f)),
                    var@,
                ));
            }
        },
        None => {
            assert(final(out)@ =~= old(out)@ + filter_clause(keyword@, None, var@));
        },
    }
}

/// Appends `var.field DIRECTION` to `out`.
fn push_sort_key(out: &mut String, key: &(String, SortDirection), var: &str)
    ensures
        final(out)@ == old(out)@ + sort_key_aql((key.0@, key.1), var@),
{
    out.append(var);
    out.append(".");
    out.append(key.0.as_str());
    out.append(" ");
    out.append(key.1.aql_str());
    assert(final(out)@ =~= old(out)@ + sort_key_aql((key.0@, key.1), var@));
}

/// Appends the SORT clause of `sorts` to `out`.
fn push_sort_clause(out: &mut String, sorts: &Vec<(String, SortDirection)>, var: &str)
    ensures
        final(out)@ == old(out)@ + sort_clause(
            sorts@.map_values(|s: (String, SortDirection)| (s.0@, s.1)),
            var@,
        ),
{
    let ghost keys = sorts@.map_values(|s: (String, SortDirection)| (s.0@, s.1));
    if sorts.len() == 0 {
        assert(final(out)@ =~= old(out)@ + sort_clause(keys, var@));
        return ;
    }
    out.append(" SORT ");
    let ghost start = out@;
    let mut i: usize = 0;
    while i < sorts.len()
        invariant
            i <= sorts@.len(),
            keys == sorts@.map_values(|s: (String, SortDirection)| (s.0@, s.1)),
            out@ == start + sort_list_aql(keys.take(i as int), var@),
        decreases sorts@.len() - i,
    {
        if i > 0 {
            out.append(", ");
        }
        push_sort_key(out, &sorts[i], var);
        proof {
            if i > 0 {
                lemma_sort_list_push(keys, i as int, var@);
            } else {
                assert(keys.take(1) =~= seq![keys[0]]);
            }
            assert(out@ =~= start + sort_list_aql(keys.take(i + 1), var@));
        }
        i = i + 1;
    }
    assert(keys.take(sorts@.len() as int) =~= keys);
    assert(final(out)@ =~= old(out)@ + sort_clause(keys, var@));
}

/// Appends the LIMIT clause of `limit` to `out`.
fn push_limit_clause(out: &mut String, limit: Option<(u32, Option<u32>)>)
    ensures
        final(out)@ == old(out)@ + limit_clause(limit),
{
    match limit {
        None => {
            assert(final(out)@ =~= old(out)@ + limit_clause(limit));
        },
        Some((count, None)) => {
            out.append(" LIMIT ");
            push_decimal(out, count as u64);
            assert(final(out)@ =~= old(out)@ + limit_clause(limit));
        },
        Some((count, Some(offset))) => {
            out.append(" LIMIT ");
            push_decimal(out, offset as u64);
            out.append(", ");
            push_decimal(out, count as u64);
            assert(final(out)@ =~= old(out)@ + limit_clause(limit));
        },
    }
}

/// The one-letter variable name `letter(k)`.
fn variable(k: usize) -> (r: String)
    requires
        k < LETTER_COUNT,
    ensures
        r@ == letter(k as nat),
{
    let mut out = String::new();
    push_letter(&mut out, k);
    assert(out@ =~= letter(k as nat));
    out
}

/// Appends the head of a joined query named `name` to `out`, the joined query being bound to
/// `letter(k - 1)` and its parent to `letter(k)`.
fn push_traversal_head(out: &mut String, g: &GraphQueryData, name: &str, k: usize)
    requires
        0 < k < LETTER_COUNT,
    ensures
        final(out)@ == old(out)@ + traversal_head(
            *g,
            name@,
            letter((k - 1) as nat),
            letter(k as nat),
        ),
{
    out.append(" FOR ");
    push_letter(out, k - 1);
    out.append(" in ");
    push_decimal(out, g.min as u64);
    out.append("..");
    push_decimal(out, g.max as u64);
    out.append(" ");
    out.append(g.direction.aql_str());
    out.append(" ");
    push_letter(out, k);
    out.append(" ");
    if g.named_graph {
        out.append("GRAPH ");
    }
    out.append(name);
    assert(final(out)@ =~= old(out)@ + traversal_head(
        *g,
        name@,
        letter((k - 1) as nat),
        letter(k as nat),
    ));
}

/// A copy of an optional filter.
fn clone_filter(f: &Option<Filter>) -> (r: Option<Filter>)
    ensures
        option_filter_view(r) == option_filter_view(*f),
{
    match f {
        None => None,
        Some(f) => Some(f.clone()),
    }
}

impl Clone for Query {
    fn clone(&self) -> (r: Self)
        ensures
            r@ == self@,
    {
        self.copy()
    }
}

impl Query {
    fn copy(&self) -> (r: Query)
        ensures
            r@ == self@,
        decreases depth(self@),
    {
        let mut sorts: Vec<(String, SortDirection)> = Vec::new();
        let mut i: usize = 0;
        while i < self.sorts.len()
            invariant
                i <= self.sorts@.len(),
                sorts@.len() == i,
                forall|j: int| 0 <= j < i ==> sorts@[j].0@ == self.sorts@[j].0@ && sorts@[j].1 == self.sorts@[j].1,
            decreases self.sorts@.len() - i,
        {
            let key = &self.sorts[i];
            sorts.push((key.0.clone(), key.1));
            i = i + 1;
        }
        let sub_query = match &self.sub_query {
            None => None,
            Some((g, child)) => Some((*g, Box::new(child.copy()))),
        };
        let r = Query {
            collection: self.collection.clone(),
            filter: clone_filter(&self.filter),
            sorts,
            limit: self.limit,
            distinct: self.distinct,
            prune: clone_filter(&self.prune),
            sub_query,
        };
        assert(r@.sorts =~= self@.sorts);
        r
    }

    /// A query over the collection `collection_name`, with no clause.
    pub fn new(collection_name: &str) -> (r: Query)
        ensures
            r@ == (QueryView {
                collection: collection_name@,
                filter: None,
                sorts: Seq::empty(),
                limit: None,
                distinct: false,
                prune: None,
                sub_query: None,
            }),
            depth(r@) == 0,
    {
        let r = Query {
            collection: String::from_str(collection_name),
            filter: None,
            sorts: Vec::new(),
            limit: None,
            distinct: false,
            prune: None,
            sub_query: None,
        };
        assert(r@.sorts =~= Seq::empty());
        r
    }

    /// This query with its filter set to `filter`, in place of any earlier one.
    pub fn filter(self, filter: Filter) -> (r: Query)
        ensures
            r@ == (QueryView { filter: Some(filter@), ..self@ }),
            depth(r@) == depth(self@),
    {
        Query { filter: Some(filter), ..self }
    }

    /// This query with its prune condition set to `prune`, in place of any earlier one.
    /// It is meaningful on a query that is joined to another.
    pub fn prune(self, prune: Filter) -> (r: Query)
        ensures
            r@ == (QueryView { prune: Some(prune@), ..self@ }),
            depth(r@) == depth(self@),
    {
        Query { prune: Some(prune), ..self }
    }

    /// This query with the sort key `field` added after the earlier ones, ascending unless
    /// `direction` says otherwise.
    pub fn sort(self, field: &str, direction: Option<SortDirection>) -> (r: Query)
        ensures
            r@ == (QueryView {
                sorts: self@.sorts.push(
                    (
                        field@,
                        match direction {
                            Some(d) => d,
                            None => SortDirection::Asc,
                        },
                    ),
                ),
                ..self@
            }),
            depth(r@) == depth(self@),
    {
        let d = match direction {
            Some(d) => d,
            None => SortDirection::Asc,
        };
        let mut sorts = self.sorts;
        sorts.push((String::from_str(field), d));
        let r = Query { sorts, ..self };
        assert(r@.sorts =~= self@.sorts.push((field@, d)));
        r
    }

    /// This query limited to `limit` documents, after skipping `skip` when given.
    pub fn limit(self, limit: u32, skip: Option<u32>) -> (r: Query)
        ensures
            r@ == (QueryView { limit: Some((limit, skip)), ..self@ }),
            depth(r@) == depth(self@),
    {
        Query { limit: Some((limit, skip)), ..self }
    }

    /// This query with distinct results asked for.
    pub fn distinct(self) -> (r: Query)
        ensures
            r@ == (QueryView { distinct: true, ..self@ }),
            depth(r@) == depth(self@),
    {
        Query { distinct: true, ..self }
    }

    fn join(self, direction: GraphQueryDirection, min: u16, max: u16, named_graph: bool, query: Query) -> (r: Query)
        ensures
            r@ == (QueryView {
                sub_query: Some(
                    (GraphQueryData { direction, min, max, named_graph }, Box::new(query@)),
                ),
                ..self@
            }),
            depth(r@) == depth(query@) + 1,
    {
        let g = GraphQueryData { direction, min, max, named_graph };
        Query { sub_query: Some((g, Box::new(query))), ..self }
    }

    /// This query with `query` joined to it: `query` walks outbound edges from this query's
    /// documents, between `min` and `max` steps, through the edge collection, or the named
    /// graph when `named_graph`, that `query` is built on. An earlier join is replaced.
    pub fn join_outbound(self, min: u16, max: u16, named_graph: bool, query: Query) -> (r: Query)
        ensures
            r@ == (QueryView {
                sub_query: Some(
                    (
                        GraphQueryData {
                            direction: GraphQueryDirection::Outbound,
                            min,
                            max,
                            named_graph,
                        },
                        Box::new(query@),
                    ),
                ),
                ..self@
            }),
            depth(r@) == depth(query@) + 1,
    {
        self.join(GraphQueryDirection::Outbound, min, max, named_graph, query)
    }

    /// As [`Query::join_outbound`], walking inbound edges.
    pub fn join_inbound(self, min: u16, max: u16, named_graph: bool, query: Query) -> (r: Query)
        ensures
            r@ == (QueryView {
                sub_query: Some(
                    (
                        GraphQueryData {
                            direction: GraphQueryDirection::Inbound,
                            min,
                            max,
                            named_graph,
                        },
                        Box::new(query@),
                    ),
                ),
                ..self@
            }),
            depth(r@) == depth(query@) + 1,
    {
        self.join(GraphQueryDirection::Inbound, min, max, named_graph, query)
    }

    /// As [`Query::join_outbound`], walking edges in either direction.
    pub fn join_any(self, min: u16, max: u16, named_graph: bool, query: Query) -> (r: Query)
        ensures
            r@ == (QueryView {
                sub_query: Some(
                    (
                        GraphQueryData {
                            direction: GraphQueryDirection::Any,
                            min,
                            max,
                            named_graph,
                        },
                        Box::new(query@),
                    ),
                ),
                ..self@
            }),
            depth(r@) == depth(query@) + 1,
    {
        self.join(GraphQueryDirection::Any, min, max, named_graph, query)
    }

    fn depth_below(&self, bound: usize) -> (r: bool)
        ensures
            r == (depth(self@) < bound),
        decreases bound,
    {
        if bound == 0 {
            false
        } else {
            match &self.sub_query {
                None => true,
                Some((_, child)) => child.depth_below(bound - 1),
            }
        }
    }

    /// Whether the chain of nested queries is short enough for each node to get its own
    /// one-letter variable, which rendering needs.
    pub fn is_renderable(&self) -> (r: bool)
        ensures
            r == (depth(self@) < LETTER_COUNT),
    {
        self.depth_below(LETTER_COUNT)
    }

    fn chain_depth(&self) -> (r: usize)
        requires
            depth(self@) < LETTER_COUNT,
        ensures
            r == depth(self@),
        decreases depth(self@),
    {
        match &self.sub_query {
            None => 0,
            Some((_, child)) => 1 + child.chain_depth(),
        }
    }

    fn chain_distinct(&self) -> (r: bool)
        ensures
            r == any_distinct(self@),
        decreases depth(self@),
    {
        if self.distinct {
            true
        } else {
            match &self.sub_query {
                None => false,
                Some((_, child)) => child.chain_distinct(),
            }
        }
    }

    fn push_clauses(&self, out: &mut String, k: usize)
        requires
            k < LETTER_COUNT,
        ensures
            final(out)@ == old(out)@ + clauses_aql(self@, letter(k as nat)),
    {
        let var = variable(k);
        push_filter_clause(out, "FILTER", &self.filter, var.as_str());
        push_sort_clause(out, &self.sorts, var.as_str());
        push_filter_clause(out, "PRUNE", &self.prune, var.as_str());
        push_limit_clause(out, self.limit);
        assert(final(out)@ =~= old(out)@ + clauses_aql(self@, letter(k as nat)));
    }

    fn push_node(&self, out: &mut String, k: usize)
        requires
            k == depth(self@),
            k < LETTER_COUNT,
        ensures
            final(out)@ == old(out)@ + node_aql(self@, k as nat),
        decreases k,
    {
        self.push_clauses(out, k);
        match &self.sub_query {
            None => {
                assert(final(out)@ =~= old(out)@ + node_aql(self@, k as nat));
            },
            Some((g, child)) => {
                let ghost mid = out@;
                push_traversal_head(out, g, child.collection.as_str(), k);
                let ghost head = out@;
                child.push_node(out, k - 1);
                assert(final(out)@ =~= mid + (head.skip(mid.len() as int)) + node_aql(
                    child@,
                    (k - 1) as nat,
                ));
                assert(final(out)@ =~= old(out)@ + node_aql(self@, k as nat));
            },
        }
    }

    /// The statement of this query: `FOR <var> in <collection>`, the clauses of each node
    /// with its nested traversal inline, and `return [DISTINCT] a`.
    pub fn aql_str(&self) -> (r: String)
        requires
            depth(self@) < LETTER_COUNT,
        ensures
            r@ == query_aql(self@),
    {
        let d = self.chain_depth();
        let mut out = String::new();
        out.append("FOR ");
        push_letter(&mut out, d);
        out.append(" in ");
        out.append(self.collection.as_str());
        self.push_node(&mut out, d);
        out.append(" return ");
        if self.chain_distinct() {
            out.append("DISTINCT ");
        }
        push_letter(&mut out, 0);
        assert(out@ =~= query_aql(self@));
        out
    }
}

/// Variable naming: in a chain of depth `D` the root is bound to the `(D+1)`-th letter, each
/// nested node to the letter before its parent's, and the statement returns `a`, the innermost
/// node's variable; distinct nodes get distinct letters.
pub proof fn lemma_variable_naming(q: QueryView)
    requires
        depth(q) < LETTER_COUNT,
    ensures
        query_aql(q).subrange(0, 5) == "FOR "@ + seq![letter_chars()[depth(q) as int]],
        query_aql(q).last() == 'a',
        letter(0) == seq!['a'],
        depth(q) == 1 ==> query_aql(q).subrange(0, 5) == "FOR b"@,
        depth(q) == 3 ==> query_aql(q).subrange(0, 5) == "FOR d"@,
        forall|i: nat, j: nat| i < j < LETTER_COUNT ==> letter(i) != letter(j),
{
    reveal_strlit("FOR ");
    reveal_strlit("FOR b");
    reveal_strlit("FOR d");
    let text = query_aql(q);
    let head = "FOR "@ + letter(depth(q));
    assert(text.subrange(0, 5) =~= head);
    assert(head =~= "FOR "@ + seq![letter_chars()[depth(q) as int]]);
    if depth(q) == 1 {
        assert(head =~= "FOR b"@);
    }
    if depth(q) == 3 {
        assert(head =~= "FOR d"@);
    }
    assert forall|i: nat, j: nat| i < j < LETTER_COUNT implies letter(i) != letter(j) by {
        assert(letter(i)[0] == letter_chars()[i as int]);
        assert(letter(j)[0] == letter_chars()[j as int]);
    }
}

/// A query with no clause over `collection` renders `FOR a in <collection> return a`.
pub proof fn lemma_empty_query(q: QueryView)
    requires
        q.filter is None,
        q.sorts.len() == 0,
        q.limit is None,
        !q.distinct,
        q.prune is None,
        q.sub_query is None,
    ensures
        query_aql(q) == "FOR a in "@ + q.collection + " return a"@,
{
    reveal_strlit("FOR ");
    reveal_strlit(" in ");
    reveal_strlit("FOR a in ");
    reveal_strlit(" return ");
    reveal_strlit(" return a");
    assert(query_aql(q) =~= "FOR a in "@ + q.collection + " return a"@);
}

/// The clauses of a root query come in the fixed order FILTER, SORT, LIMIT, then
/// `return DISTINCT a`.
pub proof fn lemma_root_clause_order(q: QueryView, f: FilterView, key: (Seq<char>, SortDirection), count: u32)
    requires
        q.filter == Some(f),
        f.first is Some,
        q.sorts == seq![key],
        q.limit == Some((count, None::<u32>)),
        q.distinct,
        q.prune is None,
        q.sub_query is None,
    ensures
        query_aql(q) == "FOR a in "@ + q.collection + " FILTER "@ + filter_aql(f, "a"@)
            + " SORT "@ + sort_key_aql(key, "a"@) + " LIMIT "@ + decimal(count as nat)
            + " return DISTINCT a"@,
{
    reveal_strlit("a");
    reveal_strlit(" ");
    reveal_strlit("FILTER");
    reveal_strlit(" FILTER ");
    reveal_strlit("PRUNE");
    reveal_strlit("FOR ");
    reveal_strlit(" in ");
    reveal_strlit("FOR a in ");
    reveal_strlit(" return ");
    reveal_strlit("DISTINCT ");
    reveal_strlit(" return DISTINCT a");
    assert(letter(0) =~= "a"@);
    assert(sort_list_aql(seq![key], "a"@) == sort_key_aql(key, "a"@));
    assert(filter_clause("FILTER"@, q.filter, "a"@) =~= " FILTER "@ + filter_aql(f, "a"@));
    assert(query_aql(q) =~= "FOR a in "@ + q.collection + " FILTER "@ + filter_aql(f, "a"@)
        + " SORT "@ + sort_key_aql(key, "a"@) + " LIMIT "@ + decimal(count as nat)
        + " return DISTINCT a"@);
}

/// Rendering keeps no state between calls: queries with the same contents, the same query
/// rendered twice included, render to the same text.
pub proof fn lemma_render_deterministic(q1: &Query, q2: &Query)
    requires
        q1@ == q2@,
    ensures
        query_aql(q1@) == query_aql(q2@),
{
}

} // verus!
