//! The general pre-analysis expression tree: references, literals, lambdas,
//! function calls and arbitrary operators, with its rendering. A definition
//! body that is a single-parameter lambda gets the special unwrapped "outer
//! function" rendering used for column generators.

use vstd::prelude::*;

use crate::strings::{dec_str, join_sep, join_with, str_seqs, u64_to_dec};

verus! {

/// A reference to a named column.
pub struct PolynomialReference {
    pub name: String,
}

/// A resolved reference: either a local variable of an enclosing lambda
/// (by index and name) or a column.
pub enum Reference {
    LocalVar(u64, String),
    Poly(PolynomialReference),
}

/// The binary operators of the surface language.
pub enum BinaryOperator {
    Add,
    Sub,
    Mul,
    Div,
    Mod,
    Pow,
    BinaryAnd,
    BinaryOr,
    BinaryXor,
    ShiftLeft,
    ShiftRight,
    LogicalAnd,
    LogicalOr,
    Less,
    LessEqual,
    Equal,
    NotEqual,
    GreaterEqual,
    Greater,
}

/// The unary operators of the surface language.
pub enum UnaryOperator {
    Minus,
    LogicalNot,
}

/// A lambda literal: a parameter list and a body.
pub struct LambdaExpr {
    pub params: Vec<String>,
    pub body: Box<Expression>,
}

/// A function call: a callee expression applied to arguments.
pub struct FunctionCallExpr {
    pub function: Box<Expression>,
    pub arguments: Vec<Expression>,
}

/// A pre-analysis expression.
pub enum Expression {
    Reference(Reference),
    PublicReference(String),
    Number(u64),
    LambdaExpression(LambdaExpr),
    BinaryOperation(Box<Expression>, BinaryOperator, Box<Expression>),
    UnaryOperation(UnaryOperator, Box<Expression>),
    FunctionCall(FunctionCallExpr),
}

/// The symbol of a binary operator.
pub open spec fn spec_binary_op(op: BinaryOperator) -> Seq<char> {
    match op {
        BinaryOperator::Add => "+"@,
        BinaryOperator::Sub => "-"@,
        BinaryOperator::Mul => "*"@,
        BinaryOperator::Div => "/"@,
        BinaryOperator::Mod => "%"@,
        BinaryOperator::Pow => "**"@,
        BinaryOperator::BinaryAnd => "&"@,
        BinaryOperator::BinaryOr => "|"@,
        BinaryOperator::BinaryXor => "^"@,
        BinaryOperator::ShiftLeft => "<<"@,
        BinaryOperator::ShiftRight => ">>"@,
        BinaryOperator::LogicalAnd => "&&"@,
        BinaryOperator::LogicalOr => "||"@,
        BinaryOperator::Less => "<"@,
        BinaryOperator::LessEqual => "<="@,
        BinaryOperator::Equal => "=="@,
        BinaryOperator::NotEqual => "!="@,
        BinaryOperator::GreaterEqual => ">="@,
        BinaryOperator::Greater => ">"@,
    }
}

/// The symbol of a unary operator, prefixed without a space.
pub open spec fn spec_unary_op(op: UnaryOperator) -> Seq<char> {
    match op {
        UnaryOperator::Minus => "-"@,
        UnaryOperator::LogicalNot => "!"@,
    }
}

/// The rendering of a resolved reference: its bare name.
pub open spec fn spec_render_reference(r: Reference) -> Seq<char> {
    match r {
        Reference::LocalVar(_index, name) => name@,
        Reference::Poly(p) => p.name@,
    }
}

/// The rendering of a pre-analysis expression. Binary operations are
/// parenthesized unconditionally; a lambda renders as a parenthesized
/// arrow-function literal.
pub open spec fn spec_render_expression(e: Expression) -> Seq<char>
    decreases e, 0nat,
{
    match e {
        Expression::Reference(r) => spec_render_reference(r),
        Expression::PublicReference(name) => ":"@ + name@,
        Expression::Number(value) => dec_str(value as nat),
        Expression::LambdaExpression(lambda) => "(|"@ + join_sep(str_seqs(lambda.params@), ", "@)
            + "| "@ + spec_render_expression(*lambda.body) + ")"@,
        Expression::BinaryOperation(left, op, right) => "("@ + spec_render_expression(*left) + " "@
            + spec_binary_op(op) + " "@ + spec_render_expression(*right) + ")"@,
        Expression::UnaryOperation(op, exp) => spec_unary_op(op) + spec_render_expression(*exp),
        Expression::FunctionCall(call) => spec_render_expression(*call.function) + "("@
            + spec_render_expression_list(call.arguments@) + ")"@,
    }
}

/// The comma-joined rendering of a list of pre-analysis expressions.
pub open spec fn spec_render_expression_list(es: Seq<Expression>) -> Seq<char>
    decreases es, 1nat,
{
    if es.len() == 0 {
        Seq::empty()
    } else if es.len() == 1 {
        spec_render_expression(es[0])
    } else {
        spec_render_expression(es[0]) + ", "@ + spec_render_expression_list(es.drop_first())
    }
}

/// The view of an optional qualifier keyword.
pub open spec fn spec_opt_str(q: Option<&str>) -> Option<Seq<char>> {
    match q {
        Some(s) => Some(s@),
        None => None,
    }
}

/// The "outer function" rendering of a definition body. A single-parameter
/// lambda is unwrapped to `(params)[ qualifier] body`, with the body in
/// braces when there is no qualifier; anything else renders as
/// ` =[qualifier] expr`, the qualifier keyword directly after the equals
/// sign.
pub open spec fn spec_render_outer_function(e: Expression, q: Option<Seq<char>>) -> Seq<char> {
    match e {
        Expression::LambdaExpression(lambda) => {
            if lambda.params@.len() == 1 {
                let tail = match q {
                    Some(s) => " "@ + s + " "@ + spec_render_expression(*lambda.body),
                    None => " "@ + "{ "@ + spec_render_expression(*lambda.body) + " }"@,
                };
                "("@ + join_sep(str_seqs(lambda.params@), ", "@) + ")"@ + tail
            } else {
                spec_render_outer_plain(e, q)
            }
        },
        _ => spec_render_outer_plain(e, q),
    }
}

/// The non-lambda form of the outer-function rendering: an equals sign, the
/// qualifier keyword directly after it when present, then the expression.
pub open spec fn spec_render_outer_plain(e: Expression, q: Option<Seq<char>>) -> Seq<char> {
    let qpart = match q {
        Some(s) => s,
        None => Seq::<char>::empty(),
    };
    " ="@ + qpart + " "@ + spec_render_expression(e)
}

impl BinaryOperator {
    /// The printed symbol of this operator.
    pub fn symbol(&self) -> (r: &'static str)
        ensures
            r@ == spec_binary_op(*self),
    {
        match self {
            BinaryOperator::Add => "+",
            BinaryOperator::Sub => "-",
            BinaryOperator::Mul => "*",
            BinaryOperator::Div => "/",
            BinaryOperator::Mod => "%",
            BinaryOperator::Pow => "**",
            BinaryOperator::BinaryAnd => "&",
            BinaryOperator::BinaryOr => "|",
            BinaryOperator::BinaryXor => "^",
            BinaryOperator::ShiftLeft => "<<",
            BinaryOperator::ShiftRight => ">>",
            BinaryOperator::LogicalAnd => "&&",
            BinaryOperator::LogicalOr => "||",
            BinaryOperator::Less => "<",
            BinaryOperator::LessEqual => "<=",
            BinaryOperator::Equal => "==",
            BinaryOperator::NotEqual => "!=",
            BinaryOperator::GreaterEqual => ">=",
            BinaryOperator::Greater => ">",
        }
    }
}

impl UnaryOperator {
    /// The printed symbol of this operator.
    pub fn symbol(&self) -> (r: &'static str)
        ensures
            r@ == spec_unary_op(*self),
    {
        match self {
            UnaryOperator::Minus => "-",
            UnaryOperator::LogicalNot => "!",
        }
    }
}

impl Reference {
    /// Renders this reference as its bare name.
    pub fn render(&self) -> (r: String)
        ensures
            r@ == spec_render_reference(*self),
    {
        match self {
            Reference::LocalVar(_index, name) => name.clone(),
            Reference::Poly(p) => p.render(),
        }
    }
}

impl PolynomialReference {
    /// Renders this column reference as its name.
    pub fn render(&self) -> (r: String)
        ensures
            r@ == self.name@,
    {
        self.name.clone()
    }
}

impl Expression {
    /// Renders this expression, parenthesizing every binary operation.
    pub fn render(&self) -> (r: String)
        ensures
            r@ == spec_render_expression(*self),
        decreases *self, 0nat,
    {
        match self {
            Expression::Reference(reference) => reference.render(),
            Expression::PublicReference(name) => {
                let mut r = ":".to_owned();
                r.append(name.as_str());
                r
            },
            Expression::Number(value) => u64_to_dec(*value),
            Expression::LambdaExpression(lambda) => {
                let mut r = "(|".to_owned();
                let params = join_with(&lambda.params, ", ");
                r.append(params.as_str());
                r.append("| ");
                let body = lambda.body.render();
                r.append(body.as_str());
                r.append(")");
                proof {
                    assert(r@ =~= spec_render_expression(*self));
                }
                r
            },
            Expression::BinaryOperation(left, op, right) => {
                let mut r = "(".to_owned();
                let l = left.render();
                r.append(l.as_str());
                r.append(" ");
                r.append(op.symbol());
                r.append(" ");
                let rr = right.render();
                r.append(rr.as_str());
                r.append(")");
                proof {
                    assert(r@ =~= spec_render_expression(*self));
                }
                r
            },
            Expression::UnaryOperation(op, exp) => {
                let mut r = op.symbol().to_owned();
                let inner = exp.render();
                r.append(inner.as_str());
                r
            },
            Expression::FunctionCall(call) => {
                let mut r = call.function.render();
                r.append("(");
                let args = render_expression_list(&call.arguments);
                r.append(args.as_str());
                r.append(")");
                proof {
                    assert(r@ =~= spec_render_expression(*self));
                }
                r
            },
        }
    }
}

/// Renders a comma-joined list of pre-analysis expressions.
pub fn render_expression_list(es: &Vec<Expression>) -> (r: String)
    ensures
        r@ == spec_render_expression_list(es@),
    decreases es@, 1nat,
{
    let mut parts: Vec<String> = Vec::new();
    let mut i: usize = 0;
    while i < es.len()
        invariant
            i <= es@.len(),
            parts@.len() == i,
            forall|j: int| 0 <= j < i ==> parts@[j]@ == spec_render_expression(es@[j]),
        decreases es@.len() - i,
    {
        let p = es[i].render();
        parts.push(p);
        i = i + 1;
    }
    let r = join_with(&parts, ", ");
    proof {
        lemma_join_matches_expression_list(str_seqs(parts@), es@);
    }
    r
}

/// A comma-joined list whose pieces are the renderings of `es` joins to the
/// rendering of the whole list.
proof fn lemma_join_matches_expression_list(ss: Seq<Seq<char>>, es: Seq<Expression>)
    requires
        ss.len() == es.len(),
        forall|j: int| 0 <= j < es.len() ==> ss[j] == spec_render_expression(es[j]),
    ensures
        join_sep(ss, ", "@) == spec_render_expression_list(es),
    decreases es.len(),
{
    if es.len() > 1 {
        assert(forall|j: int|
            0 <= j < es.drop_first().len() ==> ss.drop_first()[j] == spec_render_expression(
                es.drop_first()[j],
            ));
        lemma_join_matches_expression_list(ss.drop_first(), es.drop_first());
    }
}

/// Renders a definition body as an "outer function": a single-parameter
/// lambda is unwrapped to parameter-list-then-body syntax; anything else is
/// written after an equals sign, with the qualifier keyword between.
pub fn format_outer_function(e: &Expression, qualifier: Option<&str>) -> (r: String)
    ensures
        r@ == spec_render_outer_function(*e, spec_opt_str(qualifier)),
{
    match e {
        Expression::LambdaExpression(lambda) if lambda.params.len() == 1 => {
            let mut r = "(".to_owned();
            let params = join_with(&lambda.params, ", ");
            r.append(params.as_str());
            r.append(")");
            match qualifier {
                Some(q) => {
                    r.append(" ");
                    r.append(q);
                    r.append(" ");
                    let body = lambda.body.render();
                    r.append(body.as_str());
                },
                None => {
                    r.append(" ");
                    r.append("{ ");
                    let body = lambda.body.render();
                    r.append(body.as_str());
                    r.append(" }");
                },
            }
            proof {
                assert(r@ =~= spec_render_outer_function(*e, spec_opt_str(qualifier)));
            }
            r
        },
        _ => {
            let mut r = " =".to_owned();
            if let Some(q) = qualifier {
                r.append(q);
            }
            r.append(" ");
            let body = e.render();
            r.append(body.as_str());
            proof {
                assert(r@ =~= spec_render_outer_function(*e, spec_opt_str(qualifier)));
            }
            r
        },
    }
}

} // verus!
