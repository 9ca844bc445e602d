//! The restricted expression tree that remains after analysis: references to
//! columns and public values, numeric literals, and the unary and binary
//! operators that survive linearization over the field. Its rendering, and an
//! integer-valued semantics used to state what a rendered constraint means.

use vstd::prelude::*;

use crate::strings::{dec_str, join_sep, join_with, str_seqs, u64_to_dec};

verus! {

/// A reference to a column by name; `next` marks a next-row access, printed
/// as a trailing prime.
pub struct AlgebraicReference {
    pub name: String,
    pub next: bool,
}

/// The binary operators that remain meaningful on linearized polynomials.
pub enum AlgebraicBinaryOperator {
    Add,
    Sub,
    Mul,
    Pow,
}

/// The unary operators that remain meaningful on linearized polynomials.
pub enum AlgebraicUnaryOperator {
    Minus,
}

/// A post-analysis expression: no lambdas, no function calls.
pub enum AlgebraicExpression {
    Reference(AlgebraicReference),
    PublicReference(String),
    Number(u64),
    BinaryOperation(
        Box<AlgebraicExpression>,
        AlgebraicBinaryOperator,
        Box<AlgebraicExpression>,
    ),
    UnaryOperation(AlgebraicUnaryOperator, Box<AlgebraicExpression>),
}

/// The symbol of a binary operator.
pub open spec fn spec_algebraic_binary_op(op: AlgebraicBinaryOperator) -> Seq<char> {
    match op {
        AlgebraicBinaryOperator::Add => "+"@,
        AlgebraicBinaryOperator::Sub => "-"@,
        AlgebraicBinaryOperator::Mul => "*"@,
        AlgebraicBinaryOperator::Pow => "**"@,
    }
}

/// The symbol of a unary operator, prefixed without a space.
pub open spec fn spec_algebraic_unary_op(op: AlgebraicUnaryOperator) -> Seq<char> {
    match op {
        AlgebraicUnaryOperator::Minus => "-"@,
    }
}

/// The rendering of a column reference: the name, with a trailing prime for a
/// next-row access.
pub open spec fn spec_render_algebraic_reference(r: AlgebraicReference) -> Seq<char> {
    if r.next {
        r.name@ + "'"@
    } else {
        r.name@
    }
}

/// The rendering of a post-analysis expression. Every binary operation is
/// parenthesized unconditionally; a public reference carries a leading colon.
pub open spec fn spec_render_algebraic(e: AlgebraicExpression) -> Seq<char>
    decreases e,
{
    match e {
        AlgebraicExpression::Reference(r) => spec_render_algebraic_reference(r),
        AlgebraicExpression::PublicReference(name) => ":"@ + name@,
        AlgebraicExpression::Number(value) => dec_str(value as nat),
        AlgebraicExpression::BinaryOperation(left, op, right) => "("@ + spec_render_algebraic(*left)
            + " "@ + spec_algebraic_binary_op(op) + " "@ + spec_render_algebraic(*right) + ")"@,
        AlgebraicExpression::UnaryOperation(op, exp) => spec_algebraic_unary_op(op)
            + spec_render_algebraic(*exp),
    }
}

/// The comma-joined rendering of a list of post-analysis expressions.
pub open spec fn spec_render_algebraic_list(es: Seq<AlgebraicExpression>) -> Seq<char> {
    join_sep(es.map_values(|e: AlgebraicExpression| spec_render_algebraic(e)), ", "@)
}

impl AlgebraicBinaryOperator {
    /// The printed symbol of this operator.
    pub fn symbol(&self) -> (r: &'static str)
        ensures
            r@ == spec_algebraic_binary_op(*self),
    {
        match self {
            AlgebraicBinaryOperator::Add => "+",
            AlgebraicBinaryOperator::Sub => "-",
            AlgebraicBinaryOperator::Mul => "*",
            AlgebraicBinaryOperator::Pow => "**",
        }
    }
}

impl AlgebraicUnaryOperator {
    /// The printed symbol of this operator.
    pub fn symbol(&self) -> (r: &'static str)
        ensures
            r@ == spec_algebraic_unary_op(*self),
    {
        match self {
            AlgebraicUnaryOperator::Minus => "-",
        }
    }
}

impl AlgebraicReference {
    /// Renders this column reference.
    pub fn render(&self) -> (r: String)
        ensures
            r@ == spec_render_algebraic_reference(*self),
    {
        let mut r = self.name.clone();
        if self.next {
            r.append("'");
        }
        r
    }
}

impl AlgebraicExpression {
    /// Renders this expression, parenthesizing every binary operation.
    pub fn render(&self) -> (r: String)
        ensures
            r@ == spec_render_algebraic(*self),
        decreases *self,
    {
        match self {
            AlgebraicExpression::Reference(reference) => reference.render(),
            AlgebraicExpression::PublicReference(name) => {
                let mut r = ":".to_owned();
                r.append(name.as_str());
                r
            },
            AlgebraicExpression::Number(value) => u64_to_dec(*value),
            AlgebraicExpression::BinaryOperation(left, op, right) => {
                let mut r = "(".to_owned();
                let l = left.render();
                r.append(l.as_str());
                r.append(" ");
                r.append(op.symbol());
                r.append(" ");
                let rr = right.render();
                r.append(rr.as_str());
                r.append(")");
                proof {
                    assert(r@ =~= spec_render_algebraic(*self));
                }
                r
            },
            AlgebraicExpression::UnaryOperation(op, exp) => {
                let mut r = op.symbol().to_owned();
                let inner = exp.render();
                r.append(inner.as_str());
                r
            },
        }
    }
}

/// Renders a comma-joined list of post-analysis expressions.
pub fn render_algebraic_list(es: &Vec<AlgebraicExpression>) -> (r: String)
    ensures
        r@ == spec_render_algebraic_list(es@),
{
    let mut parts: Vec<String> = Vec::new();
    let mut i: usize = 0;
    while i < es.len()
        invariant
            i <= es@.len(),
            parts@.len() == i,
            forall|j: int| 0 <= j < i ==> parts@[j]@ == spec_render_algebraic(es@[j]),
        decreases es@.len() - i,
    {
        let p = es[i].render();
        parts.push(p);
        i = i + 1;
    }
    let r = join_with(&parts, ", ");
    proof {
        assert(str_seqs(parts@) =~= es@.map_values(
            |e: AlgebraicExpression| spec_render_algebraic(e),
        ));
    }
    r
}

/// Integer exponentiation with exponents at or below zero mapped to one.
pub open spec fn pow_int(b: int, e: int) -> int
    decreases (if e > 0 {
        e
    } else {
        0
    }),
{
    if e <= 0 {
        1
    } else {
        b * pow_int(b, e - 1)
    }
}

/// The value of a post-analysis expression under an assignment of column
/// cells (by name and row offset) and public values, over the integers.
pub open spec fn spec_eval_algebraic(
    e: AlgebraicExpression,
    cols: spec_fn(Seq<char>, bool) -> int,
    pubs: spec_fn(Seq<char>) -> int,
) -> int
    decreases e,
{
    match e {
        AlgebraicExpression::Reference(r) => cols(r.name@, r.next),
        AlgebraicExpression::PublicReference(name) => pubs(name@),
        AlgebraicExpression::Number(value) => value as int,
        AlgebraicExpression::BinaryOperation(left, op, right) => {
            let a = spec_eval_algebraic(*left, cols, pubs);
            let b = spec_eval_algebraic(*right, cols, pubs);
            match op {
                AlgebraicBinaryOperator::Add => a + b,
                AlgebraicBinaryOperator::Sub => a - b,
                AlgebraicBinaryOperator::Mul => a * b,
                AlgebraicBinaryOperator::Pow => pow_int(a, b),
            }
        },
        AlgebraicExpression::UnaryOperation(op, exp) => {
            let a = spec_eval_algebraic(*exp, cols, pubs);
            match op {
                AlgebraicUnaryOperator::Minus => -a,
            }
        },
    }
}

} // verus!
