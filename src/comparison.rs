use vstd::prelude::*;

use crate::text::{
    bracketed, int_array_literal, int_literals, push_signed_decimal, quote, quoted,
    signed_decimal, str_array_literal, str_literals,
};

verus! {

/// The operator between the two sides of a [`Comparison`].
#[derive(Clone, Copy, Debug, PartialEq, Eq, Structural)]
pub enum Comparator {
    Equals,
    Different,
    Greater,
    GreaterOrEqual,
    Lesser,
    LesserOrEqual,
    In,
    NotIn,
    Like,
    NotLike,
    Matches,
    DoesNotMatch,
}

/// The text of a comparator in the query language.
pub open spec fn comparator_symbol(c: Comparator) -> Seq<char> {
    match c {
        Comparator::Equals => "=="@,
        Comparator::Different => "!="@,
        Comparator::Greater => ">"@,
        Comparator::GreaterOrEqual => ">="@,
        Comparator::Lesser => "<"@,
        Comparator::LesserOrEqual => "<="@,
        Comparator::In => "IN"@,
        Comparator::NotIn => "NOT IN"@,
        Comparator::Like => "LIKE"@,
        Comparator::NotLike => "NOT LIKE"@,
        Comparator::Matches => "=~"@,
        Comparator::DoesNotMatch => "!~"@,
    }
}

impl Comparator {
    /// The text of this comparator in the query language.
    pub fn symbol(&self) -> (r: &'static str)
        ensures
            r@ == comparator_symbol(*self),
    {
        match self {
            Comparator::Equals => "==",
            Comparator::Different => "!=",
            Comparator::Greater => ">",
            Comparator::GreaterOrEqual => ">=",
            Comparator::Lesser => "<",
            Comparator::LesserOrEqual => "<=",
            Comparator::In => "IN",
            Comparator::NotIn => "NOT IN",
            Comparator::Like => "LIKE",
            Comparator::NotLike => "NOT LIKE",
            Comparator::Matches => "=~",
            Comparator::DoesNotMatch => "!~",
        }
    }
}

/// What a [`ComparisonBuilder`] holds: the left-hand side of a comparison to come.
pub struct BuilderView {
    /// The left side is a field of the bound document (rendered after `<var>.`).
    pub is_field: bool,
    /// The left side as written.
    pub statement: Seq<char>,
}

/// What a [`Comparison`] holds.
pub struct ComparisonView {
    /// The left side is a field of the bound document (rendered after `<var>.`).
    pub is_field: bool,
    pub left: Seq<char>,
    pub comparator: Comparator,
    /// The right side, already rendered as a literal.
    pub right: Seq<char>,
}

/// The comparison that a builder finishes with `comparator` and the rendered `right` side.
pub open spec fn finished(b: BuilderView, comparator: Comparator, right: Seq<char>) -> ComparisonView {
    ComparisonView { is_field: b.is_field, left: b.statement, comparator, right }
}

/// The text of a comparison bound to the variable `var`: `var.left op right` for a field,
/// `left op right` for a statement.
pub open spec fn comparison_aql(c: ComparisonView, var: Seq<char>) -> Seq<char> {
    (if c.is_field {
        var + "."@
    } else {
        Seq::empty()
    }) + c.left + " "@ + comparator_symbol(c.comparator) + " "@ + c.right
}

/// Builder for [`Comparison`]: holds the left-hand side until a terminal method gives the
/// operator and the right-hand side.
#[derive(Debug)]
pub struct ComparisonBuilder {
    is_field: bool,
    statement: String,
}

/// A single predicate `left OP right`, immutable once built.
#[derive(Debug)]
pub struct Comparison {
    is_field: bool,
    left_value: String,
    comparator: Comparator,
    right_value: String,
}

impl View for ComparisonBuilder {
    type V = BuilderView;

    closed spec fn view(&self) -> BuilderView {
        BuilderView { is_field: self.is_field, statement: self.statement@ }
    }
}

impl View for Comparison {
    type V = ComparisonView;

    closed spec fn view(&self) -> ComparisonView {
        ComparisonView {
            is_field: self.is_field,
            left: self.left_value@,
            comparator: self.comparator,
            right: self.right_value@,
        }
    }
}

impl Clone for ComparisonBuilder {
    fn clone(&self) -> (r: Self)
        ensures
            r@ == self@,
    {
        ComparisonBuilder { is_field: self.is_field, statement: self.statement.clone() }
    }
}

impl Clone for Comparison {
    fn clone(&self) -> (r: Self)
        ensures
            r@ == self@,
    {
        Comparison {
            is_field: self.is_field,
            left_value: self.left_value.clone(),
            comparator: self.comparator,
            right_value: self.right_value.clone(),
        }
    }
}

impl ComparisonBuilder {
    fn finish(self, comparator: Comparator, right_value: String) -> (r: Comparison)
        ensures
            r@ == finished(self@, comparator, right_value@),
    {
        Comparison { is_field: self.is_field, left_value: self.statement, comparator, right_value }
    }

    /// `left == "value"`.
    pub fn equals_str(self, value: &str) -> (r: Comparison)
        ensures
            r@ == finished(self@, Comparator::Equals, quoted(value@)),
    {
        self.finish(Comparator::Equals, quote(value))
    }

    /// `left != "value"`.
    pub fn different_than_str(self, value: &str) -> (r: Comparison)
        ensures
            r@ == finished(self@, Comparator::Different, quoted(value@)),
    {
        self.finish(Comparator::Different, quote(value))
    }

    /// `left =~ "regular_expression"`.
    pub fn matches(self, regular_expression: &str) -> (r: Comparison)
        ensures
            r@ == finished(self@, Comparator::Matches, quoted(regular_expression@)),
    {
        self.finish(Comparator::Matches, quote(regular_expression))
    }

    /// `left !~ "regular_expression"`.
    pub fn does_not_match(self, regular_expression: &str) -> (r: Comparison)
        ensures
            r@ == finished(self@, Comparator::DoesNotMatch, quoted(regular_expression@)),
    {
        self.finish(Comparator::DoesNotMatch, quote(regular_expression))
    }

    /// `left LIKE "pattern"`.
    pub fn like(self, pattern: &str) -> (r: Comparison)
        ensures
            r@ == finished(self@, Comparator::Like, quoted(pattern@)),
    {
        self.finish(Comparator::Like, quote(pattern))
    }

    /// `left NOT LIKE "pattern"`.
    pub fn not_like(self, pattern: &str) -> (r: Comparison)
        ensures
            r@ == finished(self@, Comparator::NotLike, quoted(pattern@)),
    {
        self.finish(Comparator::NotLike, quote(pattern))
    }

    fn finish_number(self, comparator: Comparator, value: i64) -> (r: Comparison)
        ensures
            r@ == finished(self@, comparator, signed_decimal(value as int)),
    {
        let mut right = String::new();
        push_signed_decimal(&mut right, value);
        assert(right@ =~= signed_decimal(value as int));
        self.finish(comparator, right)
    }

    /// `left == value`, the value bare.
    pub fn equals(self, value: i64) -> (r: Comparison)
        ensures
            r@ == finished(self@, Comparator::Equals, signed_decimal(value as int)),
    {
        self.finish_number(Comparator::Equals, value)
    }

    /// `left != value`, the value bare.
    pub fn different_than(self, value: i64) -> (r: Comparison)
        ensures
            r@ == finished(self@, Comparator::Different, signed_decimal(value as int)),
    {
        self.finish_number(Comparator::Different, value)
    }

    /// `left > value`.
    pub fn greater_than(self, value: i64) -> (r: Comparison)
        ensures
            r@ == finished(self@, Comparator::Greater, signed_decimal(value as int)),
    {
        self.finish_number(Comparator::Greater, value)
    }

    /// `left >= value`.
    pub fn greater_or_equal(self, value: i64) -> (r: Comparison)
        ensures
            r@ == finished(self@, Comparator::GreaterOrEqual, signed_decimal(value as int)),
    {
        self.finish_number(Comparator::GreaterOrEqual, value)
    }

    /// `left < value`.
    pub fn lesser_than(self, value: i64) -> (r: Comparison)
        ensures
            r@ == finished(self@, Comparator::Lesser, signed_decimal(value as int)),
    {
        self.finish_number(Comparator::Lesser, value)
    }

    /// `left <= value`.
    pub fn lesser_or_equal(self, value: i64) -> (r: Comparison)
        ensures
            r@ == finished(self@, Comparator::LesserOrEqual, signed_decimal(value as int)),
    {
        self.finish_number(Comparator::LesserOrEqual, value)
    }

    /// `left IN [v1, v2, ...]`, the values bare.
    pub fn in_array(self, array: &[i64]) -> (r: Comparison)
        ensures
            r@ == finished(self@, Comparator::In, bracketed(int_literals(array@))),
    {
        self.finish(Comparator::In, int_array_literal(array))
    }

    /// `left NOT IN [v1, v2, ...]`, the values bare.
    pub fn not_in_array(self, array: &[i64]) -> (r: Comparison)
        ensures
            r@ == finished(self@, Comparator::NotIn, bracketed(int_literals(array@))),
    {
        self.finish(Comparator::NotIn, int_array_literal(array))
    }

    /// `left IN ["v1", "v2", ...]`, each value quoted.
    pub fn in_str_array(self, array: &[&str]) -> (r: Comparison)
        ensures
            r@ == finished(self@, Comparator::In, bracketed(str_literals(array@))),
    {
        self.finish(Comparator::In, str_array_literal(array))
    }

    /// `left NOT IN ["v1", "v2", ...]`, each value quoted.
    pub fn not_in_str_array(self, array: &[&str]) -> (r: Comparison)
        ensures
            r@ == finished(self@, Comparator::NotIn, bracketed(str_literals(array@))),
    {
        self.finish(Comparator::NotIn, str_array_literal(array))
    }

    /// `left == null`. An older name of [`ComparisonBuilder::eq_null`].
    pub fn is_null(self) -> (r: Comparison)
        ensures
            r@ == finished(self@, Comparator::Equals, "null"@),
    {
        self.eq_null()
    }

    /// `left == null`.
    pub fn eq_null(self) -> (r: Comparison)
        ensures
            r@ == finished(self@, Comparator::Equals, "null"@),
    {
        self.finish(Comparator::Equals, String::from_str("null"))
    }

    /// `left != null`.
    pub fn not_null(self) -> (r: Comparison)
        ensures
            r@ == finished(self@, Comparator::Different, "null"@),
    {
        self.finish(Comparator::Different, String::from_str("null"))
    }

    /// `left == true`. An older name of [`ComparisonBuilder::eq_true`].
    pub fn is_true(self) -> (r: Comparison)
        ensures
            r@ == finished(self@, Comparator::Equals, "true"@),
    {
        self.eq_true()
    }

    /// `left == true`.
    pub fn eq_true(self) -> (r: Comparison)
        ensures
            r@ == finished(self@, Comparator::Equals, "true"@),
    {
        self.finish(Comparator::Equals, String::from_str("true"))
    }

    /// `left == false`. An older name of [`ComparisonBuilder::eq_false`].
    pub fn is_false(self) -> (r: Comparison)
        ensures
            r@ == finished(self@, Comparator::Equals, "false"@),
    {
        self.eq_false()
    }

    /// `left == false`.
    pub fn eq_false(self) -> (r: Comparison)
        ensures
            r@ == finished(self@, Comparator::Equals, "false"@),
    {
        self.finish(Comparator::Equals, String::from_str("false"))
    }
}

impl Comparison {
    /// Starts a comparison on the document field `field_name`.
    pub fn field(field_name: &str) -> (r: ComparisonBuilder)
        ensures
            r@ == (BuilderView { is_field: true, statement: field_name@ }),
    {
        ComparisonBuilder { is_field: true, statement: String::from_str(field_name) }
    }

    fn quantified(array_field_name: &str, quantifier: &str) -> (r: ComparisonBuilder)
        ensures
            r@ == (BuilderView { is_field: true, statement: array_field_name@ + quantifier@ }),
    {
        let mut statement = String::from_str(array_field_name);
        statement.append(quantifier);
        ComparisonBuilder { is_field: true, statement }
    }

    /// Starts a comparison that all items of the array field `array_field_name` must meet.
    pub fn all(array_field_name: &str) -> (r: ComparisonBuilder)
        ensures
            r@ == (BuilderView { is_field: true, statement: array_field_name@ + " ALL"@ }),
    {
        Self::quantified(array_field_name, " ALL")
    }

    /// Starts a comparison that no item of the array field `array_field_name` may meet.
    pub fn none(array_field_name: &str) -> (r: ComparisonBuilder)
        ensures
            r@ == (BuilderView { is_field: true, statement: array_field_name@ + " NONE"@ }),
    {
        Self::quantified(array_field_name, " NONE")
    }

    /// Starts a comparison that at least one item of the array field `array_field_name` must
    /// meet.
    pub fn any(array_field_name: &str) -> (r: ComparisonBuilder)
        ensures
            r@ == (BuilderView { is_field: true, statement: array_field_name@ + " ANY"@ }),
    {
        Self::quantified(array_field_name, " ANY")
    }

    /// Starts a comparison on an arbitrary statement, rendered without the bound variable.
    pub fn statement(statement: &str) -> (r: ComparisonBuilder)
        ensures
            r@ == (BuilderView { is_field: false, statement: statement@ }),
    {
        ComparisonBuilder { is_field: false, statement: String::from_str(statement) }
    }

    /// An older name of [`Comparison::aql_str`].
    pub fn to_aql(&self, collection_id: &str) -> (r: String)
        ensures
            r@ == comparison_aql(self@, collection_id@),
    {
        self.aql_str(collection_id)
    }

    /// The text of this comparison bound to the variable `collection_id`.
    pub fn aql_str(&self, collection_id: &str) -> (r: String)
        ensures
            r@ == comparison_aql(self@, collection_id@),
    {
        let mut out = String::new();
        if self.is_field {
            out.append(collection_id);
            out.append(".");
        }
        out.append(self.left_value.as_str());
        out.append(" ");
        out.append(self.comparator.symbol());
        out.append(" ");
        out.append(self.right_value.as_str());
        assert(out@ =~= comparison_aql(self@, collection_id@));
        out
    }
}

} // verus!
