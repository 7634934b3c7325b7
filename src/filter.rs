use vstd::prelude::*;

use crate::comparison::{comparison_aql, Comparison, ComparisonView};

verus! {

/// How a comparison is joined to the ones before it.
#[derive(Clone, Copy, Debug, PartialEq, Eq, Structural)]
pub enum Connector {
    And,
    Or,
}

/// The text of a connector in the query language.
pub open spec fn connector_symbol(c: Connector) -> Seq<char> {
    match c {
        Connector::And => "&&"@,
        Connector::Or => "||"@,
    }
}

impl Connector {
    /// The text of this connector in the query language.
    pub fn symbol(&self) -> (r: &'static str)
        ensures
            r@ == connector_symbol(*self),
    {
        match self {
            Connector::And => "&&",
            Connector::Or => "||",
        }
    }
}

/// What a [`Filter`] holds: its first comparison, which carries no connector, and the
/// comparisons after it, each with the connector that joins it to what comes before.
/// A filter without a first comparison is empty.
pub struct FilterView {
    pub first: Option<ComparisonView>,
    pub rest: Seq<(Connector, ComparisonView)>,
}

/// The filter that holds the single comparison `c`.
pub open spec fn single(c: ComparisonView) -> FilterView {
    FilterView { first: Some(c), rest: Seq::empty() }
}

/// `f` with `c` appended under `connector`; on an empty filter `c` becomes the first comparison.
pub open spec fn appended(f: FilterView, connector: Connector, c: ComparisonView) -> FilterView {
    match f.first {
        None => single(c),
        Some(_) => FilterView { first: f.first, rest: f.rest.push((connector, c)) },
    }
}

/// The text of the comparisons after the first: each preceded by its connector, single spaces
/// around it.
pub open spec fn chain_aql(rest: Seq<(Connector, ComparisonView)>, var: Seq<char>) -> Seq<char>
    decreases rest.len(),
{
    if rest.len() == 0 {
        Seq::empty()
    } else {
        chain_aql(rest.drop_last(), var) + " "@ + connector_symbol(rest.last().0) + " "@
            + comparison_aql(rest.last().1, var)
    }
}

/// The text of a filter bound to the variable `var`: its comparisons strictly left to right,
/// with no added grouping. An empty filter renders as nothing.
pub open spec fn filter_aql(f: FilterView, var: Seq<char>) -> Seq<char> {
    match f.first {
        None => Seq::empty(),
        Some(c) => comparison_aql(c, var) + chain_aql(f.rest, var),
    }
}

/// An ordered chain of comparisons joined by `&&` and `||`, rendered without parentheses.
#[derive(Debug)]
pub struct Filter {
    first: Option<Comparison>,
    rest: Vec<(Connector, Comparison)>,
}

impl View for Filter {
    type V = FilterView;

    closed spec fn view(&self) -> FilterView {
        FilterView {
            first: match self.first {
                None => None,
                Some(c) => Some(c@),
            },
            rest: self.rest@.map_values(|e: (Connector, Comparison)| (e.0, e.1@)),
        }
    }
}

impl Clone for Filter {
    fn clone(&self) -> (r: Self)
        ensures
            r@ == self@,
    {
        let first = match &self.first {
            None => None,
            Some(c) => Some(c.clone()),
        };
        let mut rest: Vec<(Connector, Comparison)> = Vec::new();
        let mut i: usize = 0;
        while i < self.rest.len()
            invariant
                i <= self.rest@.len(),
                rest@.len() == i,
                forall|j: int| 0 <= j < i ==> rest@[j].0 == self.rest@[j].0 && rest@[j].1@ == self.rest@[j].1@,
            decreases self.rest@.len() - i,
        {
            let entry = &self.rest[i];
            rest.push((entry.0, entry.1.clone()));
            i = i + 1;
        }
        let r = Filter { first, rest };
        assert(r@.rest =~= self@.rest);
        r
    }
}

impl Filter {
    /// The filter that holds the single comparison `comparison`.
    pub fn new(comparison: Comparison) -> (r: Filter)
        ensures
            r@ == single(comparison@),
    {
        let r = Filter { first: Some(comparison), rest: Vec::new() };
        assert(r@.rest =~= Seq::empty());
        r
    }

    fn append(self, connector: Connector, comparison: Comparison) -> (r: Filter)
        ensures
            r@ == appended(self@, connector, comparison@),
    {
        match self.first {
            None => Filter::new(comparison),
            Some(first) => {
                let mut rest = self.rest;
                rest.push((connector, comparison));
                let r = Filter { first: Some(first), rest };
                assert(r@.rest =~= self@.rest.push((connector, comparison@)));
                r
            },
        }
    }

    /// This filter followed by `&& comparison`.
    pub fn and(self, comparison: Comparison) -> (r: Filter)
        ensures
            r@ == appended(self@, Connector::And, comparison@),
    {
        self.append(Connector::And, comparison)
    }

    /// This filter followed by `|| comparison`.
    pub fn or(self, comparison: Comparison) -> (r: Filter)
        ensures
            r@ == appended(self@, Connector::Or, comparison@),
    {
        self.append(Connector::Or, comparison)
    }

    /// Whether this filter holds no comparison.
    pub fn is_empty(&self) -> (r: bool)
        ensures
            r == (self@.first is None),
    {
        self.first.is_none()
    }

    /// The text of this filter bound to the variable `collection_id`.
    pub fn aql_str(&self, collection_id: &str) -> (r: String)
        ensures
            r@ == filter_aql(self@, collection_id@),
    {
        match &self.first {
            None => String::new(),
            Some(first) => {
                let mut out = first.aql_str(collection_id);
                let ghost head = out@;
                let ghost rest = self@.rest;
                let mut i: usize = 0;
                while i < self.rest.len()
                    invariant
                        i <= self.rest@.len(),
                        rest == self@.rest,
                        rest.len() == self.rest@.len(),
                        head == comparison_aql(first@, collection_id@),
                        out@ == head + chain_aql(rest.take(i as int), collection_id@),
                    decreases self.rest@.len() - i,
                {
                    let entry = &self.rest[i];
                    out.append(" ");
                    out.append(entry.0.symbol());
                    out.append(" ");
                    let c = entry.1.aql_str(collection_id);
                    out.append(c.as_str());
                    assert(rest.take(i + 1).drop_last() =~= rest.take(i as int));
                    assert(rest[i as int] == (entry.0, entry.1@));
                    assert(out@ =~= head + chain_aql(rest.take(i + 1), collection_id@));
                    i = i + 1;
                }
                assert(rest.take(rest.len() as int) =~= rest);
                out
            },
        }
    }
}

impl Comparison {
    /// The filter `self && comparison`.
    pub fn and(self, comparison: Comparison) -> (r: Filter)
        ensures
            r@ == appended(single(self@), Connector::And, comparison@),
    {
        Filter::new(self).and(comparison)
    }

    /// The filter `self || comparison`.
    pub fn or(self, comparison: Comparison) -> (r: Filter)
        ensures
            r@ == appended(single(self@), Connector::Or, comparison@),
    {
        Filter::new(self).or(comparison)
    }
}

/// Appending never regroups: a non-empty filter with one more comparison renders as before,
/// then the connector and the new comparison, strictly left to right.
pub proof fn lemma_append_renders_last(f: FilterView, connector: Connector, c: ComparisonView, var: Seq<char>)
    requires
        f.first is Some,
    ensures
        filter_aql(appended(f, connector, c), var) == filter_aql(f, var) + " "@ + connector_symbol(
            connector,
        ) + " "@ + comparison_aql(c, var),
{
    let g = appended(f, connector, c);
    assert(g.rest.drop_last() =~= f.rest);
    assert(filter_aql(g, var) =~= filter_aql(f, var) + " "@ + connector_symbol(connector) + " "@
        + comparison_aql(c, var));
}

/// `a && b` built as `Filter::new(a).and(b)` and as the shortcut `a.and(b)` is one filter, and
/// it renders as `a && b`; likewise for `||`.
pub proof fn lemma_shortcut_renders_pair(a: ComparisonView, b: ComparisonView, var: Seq<char>)
    ensures
        filter_aql(appended(single(a), Connector::And, b), var) == comparison_aql(a, var)
            + " && "@ + comparison_aql(b, var),
        filter_aql(appended(single(a), Connector::Or, b), var) == comparison_aql(a, var)
            + " || "@ + comparison_aql(b, var),
{
    reveal_strlit(" ");
    reveal_strlit("&&");
    reveal_strlit("||");
    reveal_strlit(" && ");
    reveal_strlit(" || ");
    lemma_append_renders_last(single(a), Connector::And, b, var);
    lemma_append_renders_last(single(a), Connector::Or, b, var);
    assert(filter_aql(single(a), var) =~= comparison_aql(a, var));
    assert(" "@ + "&&"@ + " "@ =~= " && "@);
    assert(" "@ + "||"@ + " "@ =~= " || "@);
    assert(filter_aql(appended(single(a), Connector::And, b), var) =~= comparison_aql(a, var)
        + " && "@ + comparison_aql(b, var));
    assert(filter_aql(appended(single(a), Connector::Or, b), var) =~= comparison_aql(a, var)
        + " || "@ + comparison_aql(b, var));
}

impl Default for Filter {
    /// The empty filter; a query renders no clause for it.
    fn default() -> (r: Filter)
        ensures
            r@.first is None,
            r@.rest.len() == 0,
    {
        let r = Filter { first: None, rest: Vec::new() };
        assert(r@.rest =~= Seq::empty());
        r
    }
}

impl From<Comparison> for Filter {
    /// The same filter as [`Filter::new`].
    fn from(comparison: Comparison) -> (r: Filter)
        ensures
            r@ == single(comparison@),
    {
        Filter::new(comparison)
    }
}

// A filter's vector of later comparisons cannot be built in a spec function, so `from` states
// its result in its own `ensures` rather than through `from_spec`.
impl vstd::std_specs::convert::FromSpecImpl<Comparison> for Filter {
    open spec fn obeys_from_spec() -> bool {
        false
    }

    closed spec fn from_spec(comparison: Comparison) -> Filter {
        arbitrary()
    }
}

} // verus!
