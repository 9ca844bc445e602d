//! The four constraint kinds and their rendering, over either expression
//! representation: a polynomial identity displays its constrained expression
//! (rewriting `a - b = 0` to `a = b` cosmetically), and the lookup,
//! permutation and connection identities display their two selected
//! expression lists around `in`, `is` and `connect`.

use vstd::prelude::*;

use crate::algebraic::{
    render_algebraic_list, spec_render_algebraic, spec_render_algebraic_list, AlgebraicBinaryOperator,
    AlgebraicExpression,
};
use crate::expression::{
    render_expression_list, spec_render_expression, spec_render_expression_list, BinaryOperator,
    Expression,
};

verus! {

/// The four constraint kinds.
pub enum IdentityKind {
    Polynomial,
    Plookup,
    Permutation,
    Connect,
}

/// An optional selector expression gating an ordered list of expressions.
/// The order is semantically significant: it pairs positionally with the
/// other side of the identity.
pub struct SelectedExpressions<E> {
    pub selector: Option<E>,
    pub expressions: Vec<E>,
}

/// A constraint. A polynomial identity stores its constrained expression as
/// the left selector; the other kinds relate the two sides.
pub struct Identity<E> {
    pub kind: IdentityKind,
    pub left: SelectedExpressions<E>,
    pub right: SelectedExpressions<E>,
}

/// A well-formed identity: a polynomial identity carries its constrained
/// expression as the left selector.
pub open spec fn spec_wf_identity<E>(i: Identity<E>) -> bool {
    i.kind matches IdentityKind::Polynomial ==> i.left.selector is Some
}

/// The rendering of a selected expression list over post-analysis
/// expressions: the selector (when present) followed by the braced,
/// comma-joined expressions.
pub open spec fn spec_render_selected_algebraic(s: SelectedExpressions<AlgebraicExpression>)
    -> Seq<char> {
    let sel = match s.selector {
        Some(e) => spec_render_algebraic(e) + " "@,
        None => Seq::<char>::empty(),
    };
    sel + "{ "@ + spec_render_algebraic_list(s.expressions@) + " }"@
}

/// The rendering of a selected expression list over pre-analysis expressions.
pub open spec fn spec_render_selected_expression(s: SelectedExpressions<Expression>)
    -> Seq<char> {
    let sel = match s.selector {
        Some(e) => spec_render_expression(e) + " "@,
        None => Seq::<char>::empty(),
    };
    sel + "{ "@ + spec_render_expression_list(s.expressions@) + " }"@
}

/// The rendering of an identity over post-analysis expressions.
pub open spec fn spec_render_identity_algebraic(i: Identity<AlgebraicExpression>) -> Seq<char>
    recommends
        spec_wf_identity(i),
{
    match i.kind {
        IdentityKind::Polynomial => {
            let e = i.left.selector->Some_0;
            match e {
                AlgebraicExpression::BinaryOperation(left, op, right) => match op {
                    AlgebraicBinaryOperator::Sub => spec_render_algebraic(*left) + " = "@
                        + spec_render_algebraic(*right) + ";"@,
                    _ => spec_render_algebraic(e) + " = 0;"@,
                },
                _ => spec_render_algebraic(e) + " = 0;"@,
            }
        },
        IdentityKind::Plookup => spec_render_selected_algebraic(i.left) + " in "@
            + spec_render_selected_algebraic(i.right) + ";"@,
        IdentityKind::Permutation => spec_render_selected_algebraic(i.left) + " is "@
            + spec_render_selected_algebraic(i.right) + ";"@,
        IdentityKind::Connect => spec_render_selected_algebraic(i.left) + " connect "@
            + spec_render_selected_algebraic(i.right) + ";"@,
    }
}

/// The rendering of an identity over pre-analysis expressions.
pub open spec fn spec_render_identity_expression(i: Identity<Expression>) -> Seq<char>
    recommends
        spec_wf_identity(i),
{
    match i.kind {
        IdentityKind::Polynomial => {
            let e = i.left.selector->Some_0;
            match e {
                Expression::BinaryOperation(left, op, right) => match op {
                    BinaryOperator::Sub => spec_render_expression(*left) + " = "@
                        + spec_render_expression(*right) + ";"@,
                    _ => spec_render_expression(e) + " = 0;"@,
                },
                _ => spec_render_expression(e) + " = 0;"@,
            }
        },
        IdentityKind::Plookup => spec_render_selected_expression(i.left) + " in "@
            + spec_render_selected_expression(i.right) + ";"@,
        IdentityKind::Permutation => spec_render_selected_expression(i.left) + " is "@
            + spec_render_selected_expression(i.right) + ";"@,
        IdentityKind::Connect => spec_render_selected_expression(i.left) + " connect "@
            + spec_render_selected_expression(i.right) + ";"@,
    }
}

impl SelectedExpressions<AlgebraicExpression> {
    /// Renders this selected expression list.
    pub fn render(&self) -> (r: String)
        ensures
            r@ == spec_render_selected_algebraic(*self),
    {
        let mut r = String::new();
        if let Some(sel) = &self.selector {
            let s = sel.render();
            r.append(s.as_str());
            r.append(" ");
        }
        r.append("{ ");
        let list = render_algebraic_list(&self.expressions);
        r.append(list.as_str());
        r.append(" }");
        proof {
            assert(r@ =~= spec_render_selected_algebraic(*self));
        }
        r
    }
}

impl SelectedExpressions<Expression> {
    /// Renders this selected expression list.
    pub fn render(&self) -> (r: String)
        ensures
            r@ == spec_render_selected_expression(*self),
    {
        let mut r = String::new();
        if let Some(sel) = &self.selector {
            let s = sel.render();
            r.append(s.as_str());
            r.append(" ");
        }
        r.append("{ ");
        let list = render_expression_list(&self.expressions);
        r.append(list.as_str());
        r.append(" }");
        proof {
            assert(r@ =~= spec_render_selected_expression(*self));
        }
        r
    }
}

impl Identity<AlgebraicExpression> {
    /// The constrained expression of a polynomial identity.
    pub fn expression_for_poly_id(&self) -> (r: &AlgebraicExpression)
        requires
            self.kind matches IdentityKind::Polynomial,
            self.left.selector is Some,
        ensures
            *r == self.left.selector->Some_0,
    {
        self.left.selector.as_ref().unwrap()
    }

    /// Renders this identity as a constraint statement.
    pub fn render(&self) -> (r: String)
        requires
            spec_wf_identity(*self),
        ensures
            r@ == spec_render_identity_algebraic(*self),
    {
        match self.kind {
            IdentityKind::Polynomial => {
                let expression = self.expression_for_poly_id();
                match expression {
                    AlgebraicExpression::BinaryOperation(left, AlgebraicBinaryOperator::Sub, right) => {
                        let mut r = left.render();
                        r.append(" = ");
                        let rhs = right.render();
                        r.append(rhs.as_str());
                        r.append(";");
                        proof {
                            assert(r@ =~= spec_render_identity_algebraic(*self));
                        }
                        r
                    },
                    _ => {
                        let mut r = expression.render();
                        r.append(" = 0;");
                        proof {
                            assert(r@ =~= spec_render_identity_algebraic(*self));
                        }
                        r
                    },
                }
            },
            IdentityKind::Plookup => {
                let mut r = self.left.render();
                r.append(" in ");
                let rhs = self.right.render();
                r.append(rhs.as_str());
                r.append(";");
                proof {
                    assert(r@ =~= spec_render_identity_algebraic(*self));
                }
                r
            },
            IdentityKind::Permutation => {
                let mut r = self.left.render();
                r.append(" is ");
                let rhs = self.right.render();
                r.append(rhs.as_str());
                r.append(";");
                proof {
                    assert(r@ =~= spec_render_identity_algebraic(*self));
                }
                r
            },
            IdentityKind::Connect => {
                let mut r = self.left.render();
                r.append(" connect ");
                let rhs = self.right.render();
                r.append(rhs.as_str());
                r.append(";");
                proof {
                    assert(r@ =~= spec_render_identity_algebraic(*self));
                }
                r
            },
        }
    }
}

impl Identity<Expression> {
    /// The constrained expression of a polynomial identity.
    pub fn expression_for_poly_id(&self) -> (r: &Expression)
        requires
            self.kind matches IdentityKind::Polynomial,
            self.left.selector is Some,
        ensures
            *r == self.left.selector->Some_0,
    {
        self.left.selector.as_ref().unwrap()
    }

    /// Renders this identity as a constraint statement.
    pub fn render(&self) -> (r: String)
        requires
            spec_wf_identity(*self),
        ensures
            r@ == spec_render_identity_expression(*self),
    {
        match self.kind {
            IdentityKind::Polynomial => {
                let expression = self.expression_for_poly_id();
                match expression {
                    Expression::BinaryOperation(left, BinaryOperator::Sub, right) => {
                        let mut r = left.render();
                        r.append(" = ");
                        let rhs = right.render();
                        r.append(rhs.as_str());
                        r.append(";");
                        proof {
                            assert(r@ =~= spec_render_identity_expression(*self));
                        }
                        r
                    },
                    _ => {
                        let mut r = expression.render();
                        r.append(" = 0;");
                        proof {
                            assert(r@ =~= spec_render_identity_expression(*self));
                        }
                        r
                    },
                }
            },
            IdentityKind::Plookup => {
                let mut r = self.left.render();
                r.append(" in ");
                let rhs = self.right.render();
                r.append(rhs.as_str());
                r.append(";");
                proof {
                    assert(r@ =~= spec_render_identity_expression(*self));
                }
                r
            },
            IdentityKind::Permutation => {
                let mut r = self.left.render();
                r.append(" is ");
                let rhs = self.right.render();
                r.append(rhs.as_str());
                r.append(";");
                proof {
                    assert(r@ =~= spec_render_identity_expression(*self));
                }
                r
            },
            IdentityKind::Connect => {
                let mut r = self.left.render();
                r.append(" connect ");
                let rhs = self.right.render();
                r.append(rhs.as_str());
                r.append(";");
                proof {
                    assert(r@ =~= spec_render_identity_expression(*self));
                }
                r
            },
        }
    }
}

} // verus!
