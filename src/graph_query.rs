use vstd::prelude::*;

verus! {

/// The direction in which a traversal follows edges.
#[derive(Clone, Copy, Debug, PartialEq, Eq, Structural)]
pub enum GraphQueryDirection {
    Outbound,
    Inbound,
    Any,
}

/// The keyword of a direction in the query language.
pub open spec fn direction_keyword(d: GraphQueryDirection) -> Seq<char> {
    match d {
        GraphQueryDirection::Inbound => "INBOUND"@,
        GraphQueryDirection::Outbound => "OUTBOUND"@,
        GraphQueryDirection::Any => "ANY"@,
    }
}

impl GraphQueryDirection {
    /// The keyword of this direction in the query language.
    pub fn aql_str(&self) -> (r: &'static str)
        ensures
            r@ == direction_keyword(*self),
    {
        match self {
            GraphQueryDirection::Inbound => "INBOUND",
            GraphQueryDirection::Outbound => "OUTBOUND",
            GraphQueryDirection::Any => "ANY",
        }
    }
}

/// How a joined query is reached from its parent: the direction, the depth window, and
/// whether the joined query's name is a named graph or an edge collection.
#[derive(Clone, Copy, Debug, PartialEq, Eq, Structural)]
pub struct GraphQueryData {
    pub direction: GraphQueryDirection,
    pub min: u16,
    pub max: u16,
    pub named_graph: bool,
}

} // verus!
