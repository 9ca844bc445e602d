//! The symbol and namespace model: fully-qualified dotted paths, symbol
//! kinds, definition payloads and their kind-specific renderings, and the
//! statement identifiers that fix the emission order.

use vstd::prelude::*;

use crate::expression::{
    format_outer_function, render_expression_list, spec_render_expression,
    spec_render_expression_list, spec_render_outer_function, Expression, PolynomialReference,
};
use crate::strings::{join_sep, join_with, str_seqs};
use crate::types::{spec_render_type, spec_type_is_col, Type};

verus! {

/// A fully-qualified dotted path: the namespace segments followed by the
/// local name.
pub struct SymbolPath {
    pub segments: Vec<String>,
}

/// The texts of the path's segments.
pub open spec fn spec_path_view(p: SymbolPath) -> Seq<Seq<char>> {
    str_seqs(p.segments@)
}

/// The namespace of a path: all segments but the last.
pub open spec fn spec_namespace_of(p: SymbolPath) -> Seq<Seq<char>>
    recommends
        p.segments@.len() >= 1,
{
    spec_path_view(p).drop_last()
}

/// The local name of a path: its last segment.
pub open spec fn spec_local_of(p: SymbolPath) -> Seq<char>
    recommends
        p.segments@.len() >= 1,
{
    spec_path_view(p).last()
}

impl SymbolPath {
    /// The local name: the last segment.
    pub fn local_name(&self) -> (r: String)
        requires
            self.segments@.len() >= 1,
        ensures
            r@ == spec_local_of(*self),
    {
        self.segments[self.segments.len() - 1].clone()
    }

    /// The namespace: every segment but the last.
    pub fn namespace(&self) -> (r: Vec<String>)
        requires
            self.segments@.len() >= 1,
        ensures
            str_seqs(r@) == spec_namespace_of(*self),
    {
        let mut r: Vec<String> = Vec::new();
        let mut i: usize = 0;
        while i < self.segments.len() - 1
            invariant
                self.segments@.len() >= 1,
                i <= self.segments@.len() - 1,
                r@.len() == i,
                forall|j: int| 0 <= j < i ==> r@[j]@ == self.segments@[j]@,
            decreases self.segments@.len() - 1 - i,
        {
            r.push(self.segments[i].clone());
            i = i + 1;
        }
        proof {
            assert(str_seqs(r@) =~= spec_namespace_of(*self));
        }
        r
    }
}

/// What sort of polynomial a column is.
pub enum PolynomialType {
    Committed,
    Constant,
    Intermediate,
}

/// The kind tag of a defined symbol.
pub enum SymbolKind {
    Poly(PolynomialType),
    Constant,
    Other,
}

/// A defined symbol: its kind, and an optional array length, meaningful only
/// for columns.
pub struct Symbol {
    pub kind: SymbolKind,
    pub length: Option<u64>,
}

/// An expression with an optional explicit type annotation.
pub struct TypedExpression {
    pub e: Expression,
    pub ty: Option<Type>,
}

/// A block of a fixed-column generator pattern: the expressions between
/// brackets, repeated to fill the degree when `repeated` is set. An empty
/// pattern renders as nothing at all.
pub struct RepeatedArray {
    pub pattern: Vec<Expression>,
    pub repeated: bool,
}

/// The definition payload of a symbol.
pub enum FunctionValueDefinition {
    Array(Vec<RepeatedArray>),
    Query(Expression),
    Expression(TypedExpression),
}

/// A public declaration: a verifier-visible name for one cell of a column,
/// by optional array index and row index.
pub struct PublicDeclaration {
    pub name: SymbolPath,
    pub polynomial: PolynomialReference,
    pub array_index: Option<u64>,
    pub index: u64,
}

/// A statement of the source-order list: the single source of truth for
/// emission order.
pub enum StatementIdentifier {
    Definition(SymbolPath),
    PublicDeclaration(SymbolPath),
    Identity(usize),
}

impl RepeatedArray {
    /// Whether this block holds no expressions.
    pub fn is_empty(&self) -> (r: bool)
        ensures
            r == (self.pattern@.len() == 0),
    {
        self.pattern.len() == 0
    }

    /// Whether this block is repeated to fill the degree.
    pub fn is_repeated(&self) -> (r: bool)
        ensures
            r == self.repeated,
    {
        self.repeated
    }
}

/// The rendering of one repeated-array block: `[items]`, with a trailing `*`
/// when the block repeats; nothing at all when the pattern is empty.
pub open spec fn spec_render_repeated_array(ra: RepeatedArray) -> Seq<char> {
    if ra.pattern@.len() == 0 {
        Seq::empty()
    } else {
        let star = if ra.repeated {
            "*"@
        } else {
            Seq::<char>::empty()
        };
        "["@ + spec_render_expression_list(ra.pattern@) + "]"@ + star
    }
}

/// The rendering of a concatenation of repeated-array blocks, joined by
/// plus signs.
pub open spec fn spec_render_repeated_list(items: Seq<RepeatedArray>) -> Seq<char> {
    join_sep(items.map_values(|ra: RepeatedArray| spec_render_repeated_array(ra)), " + "@)
}

/// The rendering of a definition payload, as it follows the declared name.
pub open spec fn spec_render_definition_value(d: FunctionValueDefinition) -> Seq<char> {
    match d {
        FunctionValueDefinition::Array(items) => " = "@ + spec_render_repeated_list(items@),
        FunctionValueDefinition::Query(e) => spec_render_outer_function(e, Some("query"@)),
        FunctionValueDefinition::Expression(te) => match te.ty {
            None => spec_render_outer_function(te.e, None),
            Some(ty) => if spec_type_is_col(ty) {
                spec_render_outer_function(te.e, None)
            } else {
                ": "@ + spec_render_type(ty) + " = "@ + spec_render_expression(te.e)
            },
        },
    }
}

impl RepeatedArray {
    /// Renders this block.
    pub fn render(&self) -> (r: String)
        ensures
            r@ == spec_render_repeated_array(*self),
    {
        if self.is_empty() {
            return String::new();
        }
        let mut r = "[".to_owned();
        let items = render_expression_list(&self.pattern);
        r.append(items.as_str());
        r.append("]");
        if self.is_repeated() {
            r.append("*");
        }
        proof {
            assert(r@ =~= spec_render_repeated_array(*self));
        }
        r
    }
}

impl FunctionValueDefinition {
    /// Renders this definition payload.
    pub fn render(&self) -> (r: String)
        ensures
            r@ == spec_render_definition_value(*self),
    {
        match self {
            FunctionValueDefinition::Array(items) => {
                let mut r = " = ".to_owned();
                let mut parts: Vec<String> = Vec::new();
                let mut i: usize = 0;
                while i < items.len()
                    invariant
                        i <= items@.len(),
                        parts@.len() == i,
                        forall|j: int|
                            0 <= j < i ==> parts@[j]@ == spec_render_repeated_array(items@[j]),
                    decreases items@.len() - i,
                {
                    let p = items[i].render();
                    parts.push(p);
                    i = i + 1;
                }
                let joined = join_with(&parts, " + ");
                r.append(joined.as_str());
                proof {
                    assert(str_seqs(parts@) =~= items@.map_values(
                        |ra: RepeatedArray| spec_render_repeated_array(ra),
                    ));
                    assert(r@ =~= spec_render_definition_value(*self));
                }
                r
            },
            FunctionValueDefinition::Query(e) => format_outer_function(e, Some("query")),
            FunctionValueDefinition::Expression(te) => match &te.ty {
                None => format_outer_function(&te.e, None),
                Some(ty) => {
                    if ty.is_col() {
                        format_outer_function(&te.e, None)
                    } else {
                        let mut r = ": ".to_owned();
                        let t = ty.render();
                        r.append(t.as_str());
                        r.append(" = ");
                        let body = te.e.render();
                        r.append(body.as_str());
                        proof {
                            assert(r@ =~= spec_render_definition_value(*self));
                        }
                        r
                    }
                },
            },
        }
    }
}

} // verus!
