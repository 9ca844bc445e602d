//! The library's stated laws: the printed form of a polynomial identity
//! means the same constraint as the stored one, a namespace header is never
//! repeated inside a run of same-namespace statements, the short form `col`
//! denotes exactly one type, an array-sized witness column is printed as a
//! bare unconstrained declaration, and a printed number can be read back.

use vstd::prelude::*;

use crate::algebraic::{spec_eval_algebraic, AlgebraicBinaryOperator, AlgebraicExpression};
use crate::expression::{spec_render_expression, Expression};
use crate::identity::{Identity, IdentityKind};
use crate::printer::{
    spec_def_body, spec_indent, spec_ns_after, spec_render_from, spec_stmt_body, spec_stmt_header,
    spec_stmt_namespace, spec_wf_def_entry, Analyzed, DefinitionEntry,
};
use crate::strings::{dec_digit, dec_str};
use crate::symbols::{FunctionValueDefinition, PolynomialType, StatementIdentifier, SymbolKind};
use crate::types::{spec_is_col, spec_render_type, spec_type_is_col, Type};

verus! {

/// The meaning of the printed form of a polynomial identity over an
/// assignment of columns and publics: `l = r` where the subtraction rewrite
/// applied, `e = 0` everywhere else.
pub open spec fn spec_displayed_constraint_holds(
    e: AlgebraicExpression,
    cols: spec_fn(Seq<char>, bool) -> int,
    pubs: spec_fn(Seq<char>) -> int,
) -> bool {
    match e {
        AlgebraicExpression::BinaryOperation(left, op, right) => match op {
            AlgebraicBinaryOperator::Sub => spec_eval_algebraic(*left, cols, pubs)
                == spec_eval_algebraic(*right, cols, pubs),
            _ => spec_eval_algebraic(e, cols, pubs) == 0,
        },
        _ => spec_eval_algebraic(e, cols, pubs) == 0,
    }
}

/// The subtraction rewrite is purely cosmetic: under every assignment of
/// columns and publics, the constraint a polynomial identity stores
/// (its expression equals zero) holds exactly when the printed form holds.
pub proof fn lemma_polynomial_display_equivalent(
    i: Identity<AlgebraicExpression>,
    cols: spec_fn(Seq<char>, bool) -> int,
    pubs: spec_fn(Seq<char>) -> int,
)
    requires
        i.kind matches IdentityKind::Polynomial,
        i.left.selector is Some,
    ensures
        (spec_eval_algebraic(i.left.selector->Some_0, cols, pubs) == 0)
            <==> spec_displayed_constraint_holds(i.left.selector->Some_0, cols, pubs),
{
}

/// Namespace header emission is idempotent within a contiguous run of
/// same-namespace statements: a statement whose namespace equals the one the
/// previous statement moved the printer into emits no header at all.
pub proof fn lemma_namespace_header_idempotent(
    a: Analyzed,
    s1: StatementIdentifier,
    s2: StatementIdentifier,
    ns: Seq<Seq<char>>,
)
    requires
        spec_stmt_namespace(s1) is Some,
        spec_stmt_namespace(s2) == spec_stmt_namespace(s1),
    ensures
        spec_stmt_header(a, s2, spec_ns_after(s1, ns)) == Seq::<char>::empty(),
{
}

/// Two consecutive statements of the source order that sit in the same
/// namespace produce exactly one header between them: the whole output of
/// the pair is one header (empty when the printer is already there) and the
/// two bodies.
pub proof fn lemma_same_namespace_run_single_header(a: Analyzed, i: int, ns: Seq<Seq<char>>)
    requires
        0 <= i,
        i + 1 < a.source_order@.len(),
        spec_stmt_namespace(a.source_order@[i]) is Some,
        spec_stmt_namespace(a.source_order@[i + 1]) == spec_stmt_namespace(a.source_order@[i]),
    ensures
        ({
            let s1 = a.source_order@[i];
            let s2 = a.source_order@[i + 1];
            let inner = spec_ns_after(s1, ns);
            spec_render_from(a, i, ns) == spec_stmt_header(a, s1, ns) + spec_stmt_body(a, s1, inner)
                + spec_stmt_body(a, s2, inner) + spec_render_from(a, i + 2, inner)
        }),
{
    let s1 = a.source_order@[i];
    let s2 = a.source_order@[i + 1];
    let inner = spec_ns_after(s1, ns);
    lemma_namespace_header_idempotent(a, s1, s2, ns);
    assert(spec_ns_after(s2, inner) == inner);
    assert(spec_render_from(a, i + 1, inner) == spec_stmt_header(a, s2, inner) + spec_stmt_body(
        a,
        s2,
        inner,
    ) + spec_render_from(a, i + 2, inner));
    assert(spec_stmt_header(a, s1, ns) + spec_stmt_body(a, s1, inner) + (Seq::<char>::empty()
        + spec_stmt_body(a, s2, inner) + spec_render_from(a, i + 2, inner)) =~= spec_stmt_header(
        a,
        s1,
        ns,
    ) + spec_stmt_body(a, s1, inner) + spec_stmt_body(a, s2, inner) + spec_render_from(
        a,
        i + 2,
        inner,
    ));
}

/// Every type's rendering holds at least one character.
pub proof fn lemma_render_type_nonempty(t: Type)
    ensures
        spec_render_type(t).len() >= 1,
{
    reveal_strlit("bool");
    reveal_strlit("int");
    reveal_strlit("fe");
    reveal_strlit("string");
    reveal_strlit("expr");
    reveal_strlit("constr");
    reveal_strlit("col");
    reveal_strlit(")");
    reveal_strlit("]");
    reveal_strlit(" -> ");
}

/// The short form `col` denotes exactly one type: a type renders as `col`
/// if and only if it is the zero-argument, field-element-returning function
/// type, so feeding `col` back through a parser of this grammar can only
/// reconstruct that type.
pub proof fn lemma_col_rendering_unique(t: Type)
    ensures
        (spec_render_type(t) == "col"@) <==> spec_type_is_col(t),
{
    reveal_strlit("bool");
    reveal_strlit("int");
    reveal_strlit("fe");
    reveal_strlit("string");
    reveal_strlit("expr");
    reveal_strlit("constr");
    reveal_strlit("col");
    reveal_strlit("(");
    reveal_strlit(")");
    reveal_strlit("]");
    reveal_strlit(" -> ");
    match t {
        Type::Bool => {
            assert(spec_render_type(t).len() == 4);
        },
        Type::Int => {
            assert(spec_render_type(t)[0] == 'i');
            assert("col"@[0] == 'c');
            assert(spec_render_type(t) != "col"@);
        },
        Type::Fe => {
            assert(spec_render_type(t).len() == 2);
        },
        Type::Str => {
            assert(spec_render_type(t).len() == 6);
        },
        Type::Expr => {
            assert(spec_render_type(t).len() == 4);
        },
        Type::Constr => {
            assert(spec_render_type(t).len() == 6);
        },
        Type::Array(ar) => {
            let s = spec_render_type(t);
            assert(s[s.len() - 1] == ']');
            if s == "col"@ {
                assert(s.len() == 3);
                assert(s[2] == 'l');
                assert(false);
            }
        },
        Type::Tuple(tu) => {
            let s = spec_render_type(t);
            assert(s[0] == '(');
            if s == "col"@ {
                assert(s[0] == 'c');
                assert(false);
            }
        },
        Type::Function(ft) => {
            if !spec_is_col(ft) {
                let s = spec_render_type(t);
                lemma_render_type_nonempty(*ft.value);
                assert(s.len() >= 5);
            }
        },
    }
}

/// Whether `c` is a decimal digit.
pub open spec fn spec_is_dec_digit(c: char) -> bool {
    c == '0' || c == '1' || c == '2' || c == '3' || c == '4' || c == '5' || c == '6' || c == '7'
        || c == '8' || c == '9'
}

/// The value of a decimal digit; ten for anything else.
pub open spec fn spec_digit_value(c: char) -> nat {
    if c == '0' {
        0
    } else if c == '1' {
        1
    } else if c == '2' {
        2
    } else if c == '3' {
        3
    } else if c == '4' {
        4
    } else if c == '5' {
        5
    } else if c == '6' {
        6
    } else if c == '7' {
        7
    } else if c == '8' {
        8
    } else if c == '9' {
        9
    } else {
        10
    }
}

/// The number a digit string denotes, most significant digit first.
pub open spec fn spec_dec_value(s: Seq<char>) -> nat
    decreases s.len(),
{
    if s.len() == 0 {
        0
    } else {
        spec_dec_value(s.drop_last()) * 10 + spec_digit_value(s.last())
    }
}

/// Reading back a printed number yields the number: the decimal rendering
/// consists of digits alone, and its value is the rendered value.
pub proof fn lemma_dec_round_trip(n: nat)
    ensures
        spec_dec_value(dec_str(n)) == n,
        forall|i: int| 0 <= i < dec_str(n).len() ==> spec_is_dec_digit(#[trigger] dec_str(n)[i]),
    decreases n,
{
    if n < 10 {
        let s = dec_str(n);
        assert(s =~= seq![dec_digit(n)]);
        assert(s.drop_last() =~= Seq::<char>::empty());
        assert(s.last() == dec_digit(n));
        assert(spec_digit_value(dec_digit(n)) == n);
        assert(spec_dec_value(s) == spec_dec_value(s.drop_last()) * 10 + spec_digit_value(s.last()));
        assert(spec_dec_value(s.drop_last()) == 0);
        assert(spec_is_dec_digit(dec_digit(n)));
    } else {
        lemma_dec_round_trip(n / 10);
        let s = dec_str(n);
        let prefix = dec_str(n / 10);
        assert(s =~= prefix + seq![dec_digit(n % 10)]);
        assert(s.drop_last() =~= prefix);
        assert(s.last() == dec_digit(n % 10));
        assert(spec_dec_value(s) == spec_dec_value(s.drop_last()) * 10 + spec_digit_value(s.last()));
        assert(spec_digit_value(dec_digit(n % 10)) == n % 10);
        assert(spec_dec_value(s) == n / 10 * 10 + n % 10);
        assert(n / 10 * 10 + n % 10 == n);
        assert(forall|i: int| 0 <= i < s.len() ==> spec_is_dec_digit(#[trigger] s[i])) by {
            assert(forall|i: int| 0 <= i < s.len() - 1 ==> #[trigger] s[i] == prefix[i]);
            assert(spec_is_dec_digit(dec_digit(n % 10)));
        }
    }
}

/// The decimal rendering is injective: two numbers with the same rendering
/// are the same number.
pub proof fn lemma_dec_str_injective(a: nat, b: nat)
    requires
        dec_str(a) == dec_str(b),
    ensures
        a == b,
{
    lemma_dec_round_trip(a);
    lemma_dec_round_trip(b);
}

/// Re-reading the number printed for a literal constant expression yields
/// the constant's value.
pub proof fn lemma_number_round_trip(v: u64)
    ensures
        spec_dec_value(spec_render_expression(Expression::Number(v))) == v,
{
    lemma_dec_round_trip(v as nat);
}

/// A witness column with a declared array length is an unconstrained free
/// variable: under the printer's well-formedness it carries no definition,
/// and its printed declaration is exactly `col witness <name>[<n>];`.
pub proof fn lemma_witness_array_unconstrained(
    e: DefinitionEntry,
    local: Seq<char>,
    indented: bool,
    n: u64,
)
    requires
        spec_wf_def_entry(e),
        e.symbol.kind matches SymbolKind::Poly(PolynomialType::Committed),
        e.symbol.length == Some(n),
    ensures
        e.definition is None,
        spec_def_body(e, local, indented) == spec_indent(indented) + "col witness "@ + local
            + "["@ + dec_str(n as nat) + "]"@ + ";\n"@,
{
    reveal_strlit("col ");
    reveal_strlit("witness ");
    reveal_strlit("col witness ");
    assert(spec_def_body(e, local, indented) =~= spec_indent(indented) + "col witness "@ + local
        + "["@ + dec_str(n as nat) + "]"@ + ";\n"@);
}

/// Whether a text holds no space character.
pub open spec fn spec_space_free(s: Seq<char>) -> bool {
    forall|i: int| 0 <= i < s.len() ==> s[i] != ' '
}

/// The body line printed for a constant named `name` holding the literal
/// value `v`, at global scope.
pub open spec fn spec_constant_line(name: Seq<char>, v: nat) -> Seq<char> {
    "constant "@ + name + " = "@ + dec_str(v) + ";\n"@
}

/// The printed line of a global literal constant is exactly the constant
/// line of its local name and value.
pub proof fn lemma_constant_body_shape(e: DefinitionEntry, local: Seq<char>, v: u64)
    requires
        e.symbol.kind matches SymbolKind::Constant,
        e.definition matches Some(FunctionValueDefinition::Expression(te)) && te.e
            == Expression::Number(v),
    ensures
        spec_def_body(e, local, false) == spec_constant_line(local, v as nat),
{
    assert(spec_def_body(e, local, false) =~= spec_constant_line(local, v as nat));
}

/// A rendered constant line can be read back: for space-free names, the
/// printed `constant <name> = <value>;` line determines the name and the
/// value, so re-parsing it can only yield the constant it was printed from.
pub proof fn lemma_constant_line_determined(n1: Seq<char>, v1: nat, n2: Seq<char>, v2: nat)
    requires
        spec_space_free(n1),
        spec_space_free(n2),
        spec_constant_line(n1, v1) == spec_constant_line(n2, v2),
    ensures
        n1 == n2,
        v1 == v2,
{
    reveal_strlit("constant ");
    reveal_strlit(" = ");
    reveal_strlit(";\n");
    let s1 = spec_constant_line(n1, v1);
    let s2 = spec_constant_line(n2, v2);
    let d1 = dec_str(v1);
    let d2 = dec_str(v2);
    assert(s1.len() == 9 + n1.len() + 3 + d1.len() + 2);
    assert(s2.len() == 9 + n2.len() + 3 + d2.len() + 2);
    assert(s1[9 + n1.len() as int] == ' ');
    assert(s2[9 + n2.len() as int] == ' ');
    if n1.len() < n2.len() {
        assert(s2[9 + n1.len() as int] == n2[n1.len() as int]);
        assert(false);
    }
    if n2.len() < n1.len() {
        assert(s1[9 + n2.len() as int] == n1[n2.len() as int]);
        assert(false);
    }
    assert(n1 =~= n2) by {
        assert(forall|j: int| 0 <= j < n1.len() ==> s1[9 + j] == n1[j]);
        assert(forall|j: int| 0 <= j < n2.len() ==> s2[9 + j] == n2[j]);
    }
    assert(d1 =~= d2) by {
        assert(forall|k: int| 0 <= k < d1.len() ==> s1[9 + n1.len() as int + 3 + k] == d1[k]);
        assert(forall|k: int| 0 <= k < d2.len() ==> s2[9 + n2.len() as int + 3 + k] == d2[k]);
    }
    lemma_dec_str_injective(v1, v2);
}

} // verus!
