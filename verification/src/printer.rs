//! The canonical printer: a single pass over the source-order statement list
//! that reconstructs namespace boundaries and renders every definition,
//! public declaration and identity by its kind-specific rule. The printer
//! assumes a well-formed table set; `is_well_formed` decides that
//! precondition and `render_checked` refuses an input that breaks it.

use vstd::prelude::*;

use crate::algebraic::{spec_render_algebraic, spec_render_algebraic_list, render_algebraic_list,
    AlgebraicExpression};
use crate::identity::{spec_render_identity_algebraic, spec_wf_identity, Identity, IdentityKind};
use crate::expression::spec_render_expression;
use crate::strings::{dec_str, join_sep, join_with, str_seqs, str_vecs_equal, u64_to_dec};
use crate::symbols::{spec_local_of, spec_namespace_of, spec_path_view,
    spec_render_definition_value, FunctionValueDefinition, PolynomialType, PublicDeclaration,
    StatementIdentifier, Symbol, SymbolKind, SymbolPath};
use crate::types::{spec_type_is_col, Type};

verus! {

/// A row of the general symbol table: a fully-qualified path, the symbol,
/// and its optional definition.
pub struct DefinitionEntry {
    pub path: SymbolPath,
    pub symbol: Symbol,
    pub definition: Option<FunctionValueDefinition>,
}

/// A row of the intermediate-column table: the column's path, its symbol,
/// and one defining expression per array element (exactly one for a scalar
/// column).
pub struct IntermediateEntry {
    pub path: SymbolPath,
    pub symbol: Symbol,
    pub definition: Vec<AlgebraicExpression>,
}

/// The analyzed intermediate representation: the tables, the identity list,
/// the global degree, and the source-order statement list that fixes the
/// emission order.
pub struct Analyzed {
    pub degree: Option<u64>,
    pub definitions: Vec<DefinitionEntry>,
    pub intermediate_columns: Vec<IntermediateEntry>,
    pub public_declarations: Vec<PublicDeclaration>,
    pub identities: Vec<Identity<AlgebraicExpression>>,
    pub source_order: Vec<StatementIdentifier>,
}

/// The degree attached to the whole representation, zero when unset.
pub open spec fn spec_degree(a: Analyzed) -> nat {
    match a.degree {
        Some(d) => d as nat,
        None => 0,
    }
}

/// The index of the first general-table entry with the given path, if any.
pub open spec fn spec_find_def_from(
    defs: Seq<DefinitionEntry>,
    pv: Seq<Seq<char>>,
    i: int,
) -> Option<int>
    decreases defs.len() - i,
{
    if i < 0 || i >= defs.len() {
        None
    } else if spec_path_view(defs[i].path) == pv {
        Some(i)
    } else {
        spec_find_def_from(defs, pv, i + 1)
    }
}

/// The index of the first general-table entry with the given path, if any.
pub open spec fn spec_find_def(defs: Seq<DefinitionEntry>, pv: Seq<Seq<char>>) -> Option<int> {
    spec_find_def_from(defs, pv, 0)
}

/// The index of the first intermediate-table entry with the given path.
pub open spec fn spec_find_inter_from(
    inters: Seq<IntermediateEntry>,
    pv: Seq<Seq<char>>,
    i: int,
) -> Option<int>
    decreases inters.len() - i,
{
    if i < 0 || i >= inters.len() {
        None
    } else if spec_path_view(inters[i].path) == pv {
        Some(i)
    } else {
        spec_find_inter_from(inters, pv, i + 1)
    }
}

/// The index of the first intermediate-table entry with the given path.
pub open spec fn spec_find_inter(inters: Seq<IntermediateEntry>, pv: Seq<Seq<char>>)
    -> Option<int> {
    spec_find_inter_from(inters, pv, 0)
}

/// The index of the first public declaration with the given name.
pub open spec fn spec_find_public_from(
    decls: Seq<PublicDeclaration>,
    pv: Seq<Seq<char>>,
    i: int,
) -> Option<int>
    decreases decls.len() - i,
{
    if i < 0 || i >= decls.len() {
        None
    } else if spec_path_view(decls[i].name) == pv {
        Some(i)
    } else {
        spec_find_public_from(decls, pv, i + 1)
    }
}

/// The index of the first public declaration with the given name.
pub open spec fn spec_find_public(decls: Seq<PublicDeclaration>, pv: Seq<Seq<char>>)
    -> Option<int> {
    spec_find_public_from(decls, pv, 0)
}

/// A well-formed general-table entry. A witness column with a declared array
/// length is a free variable and must have no definition; an array-sized
/// fixed column must carry an expression typed with a printed annotation
/// (the column function type is elided when printed, so it does not count)
/// from which the length is recoverable; a constant's definition is exactly
/// a field-element-typed expression; an intermediate column never sits in
/// the general table.
pub open spec fn spec_wf_def_entry(e: DefinitionEntry) -> bool {
    match e.symbol.kind {
        SymbolKind::Poly(pt) => match pt {
            PolynomialType::Intermediate => false,
            PolynomialType::Committed => e.symbol.length is Some ==> e.definition is None,
            PolynomialType::Constant => e.symbol.length is Some ==> (match e.definition {
                Some(FunctionValueDefinition::Expression(te)) => match te.ty {
                    Some(ty) => !spec_type_is_col(ty),
                    None => false,
                },
                _ => false,
            }),
        },
        SymbolKind::Constant => match e.definition {
            Some(FunctionValueDefinition::Expression(te)) => te.ty matches Some(Type::Fe),
            _ => false,
        },
        SymbolKind::Other => true,
    }
}

/// A well-formed intermediate-table entry: it is an intermediate column, and
/// it carries one defining expression per declared array element — exactly
/// one when no length is declared.
pub open spec fn spec_wf_inter_entry(e: IntermediateEntry) -> bool {
    &&& e.symbol.kind matches SymbolKind::Poly(PolynomialType::Intermediate)
    &&& match e.symbol.length {
        Some(n) => e.definition@.len() == n,
        None => e.definition@.len() == 1,
    }
}

/// A well-formed statement: its name resolves in exactly one table and the
/// entry found there keeps its kind's invariants.
pub open spec fn spec_wf_statement(a: Analyzed, s: StatementIdentifier) -> bool {
    match s {
        StatementIdentifier::Definition(p) => {
            &&& p.segments@.len() >= 1
            &&& match spec_find_def(a.definitions@, spec_path_view(p)) {
                Some(k) => spec_find_inter(a.intermediate_columns@, spec_path_view(p)) is None
                    && spec_wf_def_entry(a.definitions@[k]),
                None => match spec_find_inter(a.intermediate_columns@, spec_path_view(p)) {
                    Some(k) => spec_wf_inter_entry(a.intermediate_columns@[k]),
                    None => false,
                },
            }
        },
        StatementIdentifier::PublicDeclaration(p) => {
            &&& p.segments@.len() >= 1
            &&& spec_find_public(a.public_declarations@, spec_path_view(p)) is Some
        },
        StatementIdentifier::Identity(i) => {
            &&& i < a.identities@.len()
            &&& spec_wf_identity(a.identities@[i as int])
        },
    }
}

/// A well-formed representation: every statement of the source order is
/// well formed.
pub open spec fn spec_wf_analyzed(a: Analyzed) -> bool {
    forall|i: int|
        0 <= i < a.source_order@.len() ==> spec_wf_statement(a, #[trigger] a.source_order@[i])
}

/// The indentation applied inside a non-empty namespace.
pub open spec fn spec_indent(indented: bool) -> Seq<char> {
    if indented {
        "    "@
    } else {
        Seq::<char>::empty()
    }
}

/// A namespace header line.
pub open spec fn spec_ns_header(ns: Seq<Seq<char>>, degree: nat) -> Seq<char> {
    "namespace "@ + join_sep(ns, "."@) + "("@ + dec_str(degree) + ");\n"@
}

/// The namespace a statement moves the printer into, if it moves it at all.
pub open spec fn spec_stmt_namespace(s: StatementIdentifier) -> Option<Seq<Seq<char>>> {
    match s {
        StatementIdentifier::Definition(p) => Some(spec_namespace_of(p)),
        StatementIdentifier::PublicDeclaration(p) => Some(spec_namespace_of(p)),
        StatementIdentifier::Identity(_) => None,
    }
}

/// The tracked namespace after a statement.
pub open spec fn spec_ns_after(s: StatementIdentifier, ns: Seq<Seq<char>>) -> Seq<Seq<char>> {
    match spec_stmt_namespace(s) {
        Some(n) => n,
        None => ns,
    }
}

/// The header a statement emits: a namespace line exactly when it moves the
/// printer into a different namespace.
pub open spec fn spec_stmt_header(a: Analyzed, s: StatementIdentifier, ns: Seq<Seq<char>>)
    -> Seq<char> {
    match spec_stmt_namespace(s) {
        Some(n) => if n == ns {
            Seq::<char>::empty()
        } else {
            spec_ns_header(n, spec_degree(a))
        },
        None => Seq::<char>::empty(),
    }
}

/// The body line of a general-table definition.
pub open spec fn spec_def_body(e: DefinitionEntry, local: Seq<char>, indented: bool)
    -> Seq<char>
    recommends
        spec_wf_def_entry(e),
{
    match e.symbol.kind {
        SymbolKind::Poly(pt) => {
            let kind_word = match pt {
                PolynomialType::Committed => "witness "@,
                PolynomialType::Constant => "fixed "@,
                PolynomialType::Intermediate => Seq::<char>::empty(),
            };
            let len_part = match e.symbol.length {
                Some(l) => match pt {
                    PolynomialType::Committed => "["@ + dec_str(l as nat) + "]"@,
                    _ => Seq::<char>::empty(),
                },
                None => Seq::<char>::empty(),
            };
            let def_part = match e.definition {
                Some(v) => spec_render_definition_value(v),
                None => Seq::<char>::empty(),
            };
            spec_indent(indented) + "col "@ + kind_word + local + len_part + def_part + ";\n"@
        },
        SymbolKind::Constant => {
            let expr_part = match e.definition {
                Some(FunctionValueDefinition::Expression(te)) => spec_render_expression(te.e),
                _ => Seq::<char>::empty(),
            };
            spec_indent(indented) + "constant "@ + local + " = "@ + expr_part + ";\n"@
        },
        SymbolKind::Other => {
            let def_part = match e.definition {
                Some(v) => spec_render_definition_value(v),
                None => Seq::<char>::empty(),
            };
            spec_indent(indented) + "let "@ + local + def_part + ";\n"@
        },
    }
}

/// The body line of an intermediate column: with a declared length, the
/// bracketed length and the bracketed list of its defining expressions;
/// without one, its single defining expression.
pub open spec fn spec_inter_body(e: IntermediateEntry, local: Seq<char>, indented: bool)
    -> Seq<char>
    recommends
        spec_wf_inter_entry(e),
{
    match e.symbol.length {
        Some(l) => spec_indent(indented) + "col "@ + local + "["@ + dec_str(l as nat) + "]"@
            + " = ["@
            + spec_render_algebraic_list(e.definition@) + "];\n"@,
        None => spec_indent(indented) + "col "@ + local + " = "@ + spec_render_algebraic(
            e.definition@[0],
        ) + ";\n"@,
    }
}

/// The body line of a public declaration.
pub open spec fn spec_public_body(d: PublicDeclaration, local: Seq<char>, indented: bool)
    -> Seq<char> {
    let idx_part = match d.array_index {
        Some(i) => "["@ + dec_str(i as nat) + "]"@,
        None => Seq::<char>::empty(),
    };
    spec_indent(indented) + "public "@ + local + " = "@ + d.polynomial.name@ + idx_part + "("@
        + dec_str(d.index as nat) + ");\n"@
}

/// The body a statement emits, after any namespace header.
pub open spec fn spec_stmt_body(a: Analyzed, s: StatementIdentifier, ns_after: Seq<Seq<char>>)
    -> Seq<char>
    recommends
        spec_wf_statement(a, s),
{
    match s {
        StatementIdentifier::Definition(p) => {
            let pv = spec_path_view(p);
            let local = spec_local_of(p);
            match spec_find_def(a.definitions@, pv) {
                Some(k) => spec_def_body(a.definitions@[k], local, ns_after.len() > 0),
                None => match spec_find_inter(a.intermediate_columns@, pv) {
                    Some(k) => spec_inter_body(
                        a.intermediate_columns@[k],
                        local,
                        ns_after.len() > 0,
                    ),
                    None => Seq::<char>::empty(),
                },
            }
        },
        StatementIdentifier::PublicDeclaration(p) => {
            match spec_find_public(a.public_declarations@, spec_path_view(p)) {
                Some(k) => spec_public_body(
                    a.public_declarations@[k],
                    spec_local_of(p),
                    ns_after.len() > 0,
                ),
                None => Seq::<char>::empty(),
            }
        },
        StatementIdentifier::Identity(i) => if i < a.identities@.len() {
            "    "@ + spec_render_identity_algebraic(a.identities@[i as int]) + "\n"@
        } else {
            Seq::<char>::empty()
        },
    }
}

/// The output of the statements from position `i` on, entered with the
/// tracked namespace `ns`.
pub open spec fn spec_render_from(a: Analyzed, i: int, ns: Seq<Seq<char>>) -> Seq<char>
    decreases a.source_order@.len() - i,
{
    if i < 0 || i >= a.source_order@.len() {
        Seq::<char>::empty()
    } else {
        let s = a.source_order@[i];
        let ns2 = spec_ns_after(s, ns);
        spec_stmt_header(a, s, ns) + spec_stmt_body(a, s, ns2) + spec_render_from(a, i + 1, ns2)
    }
}

/// The full canonical rendering: all statements, entered at global scope.
pub open spec fn spec_render_analyzed(a: Analyzed) -> Seq<char> {
    spec_render_from(a, 0, Seq::empty())
}

/// The view of an optional index.
pub open spec fn spec_opt_idx(r: Option<usize>) -> Option<int> {
    match r {
        Some(k) => Some(k as int),
        None => None,
    }
}

/// Finds the first general-table entry with the given path.
fn find_def(defs: &Vec<DefinitionEntry>, p: &SymbolPath) -> (r: Option<usize>)
    ensures
        spec_opt_idx(r) == spec_find_def(defs@, spec_path_view(*p)),
        r matches Some(k) ==> k < defs@.len(),
{
    let ghost pv = spec_path_view(*p);
    let mut i: usize = 0;
    while i < defs.len()
        invariant
            pv == spec_path_view(*p),
            i <= defs@.len(),
            spec_find_def_from(defs@, pv, 0) == spec_find_def_from(defs@, pv, i as int),
        decreases defs@.len() - i,
    {
        if str_vecs_equal(&defs[i].path.segments, &p.segments) {
            proof {
                assert(spec_find_def_from(defs@, pv, i as int) == Some(i as int));
            }
            return Some(i);
        }
        proof {
            assert(spec_find_def_from(defs@, pv, i as int) == spec_find_def_from(defs@, pv, i as int + 1));
        }
        i = i + 1;
    }
    None
}

/// Finds the first intermediate-table entry with the given path.
fn find_inter(inters: &Vec<IntermediateEntry>, p: &SymbolPath) -> (r: Option<usize>)
    ensures
        spec_opt_idx(r) == spec_find_inter(inters@, spec_path_view(*p)),
        r matches Some(k) ==> k < inters@.len(),
{
    let ghost pv = spec_path_view(*p);
    let mut i: usize = 0;
    while i < inters.len()
        invariant
            pv == spec_path_view(*p),
            i <= inters@.len(),
            spec_find_inter_from(inters@, pv, 0) == spec_find_inter_from(inters@, pv, i as int),
        decreases inters@.len() - i,
    {
        if str_vecs_equal(&inters[i].path.segments, &p.segments) {
            proof {
                assert(spec_find_inter_from(inters@, pv, i as int) == Some(i as int));
            }
            return Some(i);
        }
        proof {
            assert(spec_find_inter_from(inters@, pv, i as int) == spec_find_inter_from(inters@, pv, i as int + 1));
        }
        i = i + 1;
    }
    None
}

/// Finds the first public declaration with the given name.
fn find_public(decls: &Vec<PublicDeclaration>, p: &SymbolPath) -> (r: Option<usize>)
    ensures
        spec_opt_idx(r) == spec_find_public(decls@, spec_path_view(*p)),
        r matches Some(k) ==> k < decls@.len(),
{
    let ghost pv = spec_path_view(*p);
    let mut i: usize = 0;
    while i < decls.len()
        invariant
            pv == spec_path_view(*p),
            i <= decls@.len(),
            spec_find_public_from(decls@, pv, 0) == spec_find_public_from(decls@, pv, i as int),
        decreases decls@.len() - i,
    {
        if str_vecs_equal(&decls[i].name.segments, &p.segments) {
            proof {
                assert(spec_find_public_from(decls@, pv, i as int) == Some(i as int));
            }
            return Some(i);
        }
        proof {
            assert(spec_find_public_from(decls@, pv, i as int) == spec_find_public_from(decls@, pv, i as int + 1));
        }
        i = i + 1;
    }
    None
}

/// Splits a qualified name into namespace and local name; emits a namespace
/// header and updates the tracked namespace when the name's namespace
/// differs from it.
fn update_namespace(p: &SymbolPath, degree: u64, current: &mut Vec<String>, out: &mut String)
    -> (local: String)
    requires
        p.segments@.len() >= 1,
    ensures
        local@ == spec_local_of(*p),
        str_seqs(final(current)@) == spec_namespace_of(*p),
        final(out)@ == old(out)@ + (if spec_namespace_of(*p) == str_seqs(old(current)@) {
            Seq::<char>::empty()
        } else {
            spec_ns_header(spec_namespace_of(*p), degree as nat)
        }),
{
    let ns = p.namespace();
    let local = p.local_name();
    if !str_vecs_equal(&ns, current) {
        out.append("namespace ");
        let joined = join_with(&ns, ".");
        out.append(joined.as_str());
        out.append("(");
        let d = u64_to_dec(degree);
        out.append(d.as_str());
        out.append(");\n");
        *current = ns;
        proof {
            assert(out@ =~= old(out)@ + spec_ns_header(spec_namespace_of(*p), degree as nat));
        }
    }
    local
}

/// Renders one general-table definition line.
fn render_def_entry(e: &DefinitionEntry, local: &str, indented: bool, out: &mut String)
    requires
        spec_wf_def_entry(*e),
    ensures
        final(out)@ == old(out)@ + spec_def_body(*e, local@, indented),
{
    match &e.symbol.kind {
        SymbolKind::Poly(pt) => {
            if indented {
                out.append("    ");
            }
            out.append("col ");
            match pt {
                PolynomialType::Committed => out.append("witness "),
                PolynomialType::Constant => out.append("fixed "),
                PolynomialType::Intermediate => {
                    proof {
                        assert(false);
                    }
                },
            }
            out.append(local);
            if let Some(l) = e.symbol.length {
                match pt {
                    PolynomialType::Committed => {
                        out.append("[");
                        let n = u64_to_dec(l);
                        out.append(n.as_str());
                        out.append("]");
                    },
                    _ => {},
                }
            }
            if let Some(v) = &e.definition {
                let d = v.render();
                out.append(d.as_str());
            }
            out.append(";\n");
            proof {
                assert(out@ =~= old(out)@ + spec_def_body(*e, local@, indented));
            }
        },
        SymbolKind::Constant => {
            if indented {
                out.append("    ");
            }
            out.append("constant ");
            out.append(local);
            out.append(" = ");
            match &e.definition {
                Some(FunctionValueDefinition::Expression(te)) => {
                    let s = te.e.render();
                    out.append(s.as_str());
                },
                _ => {
                    proof {
                        assert(false);
                    }
                },
            }
            out.append(";\n");
            proof {
                assert(out@ =~= old(out)@ + spec_def_body(*e, local@, indented));
            }
        },
        SymbolKind::Other => {
            if indented {
                out.append("    ");
            }
            out.append("let ");
            out.append(local);
            if let Some(v) = &e.definition {
                let d = v.render();
                out.append(d.as_str());
            }
            out.append(";\n");
            proof {
                assert(out@ =~= old(out)@ + spec_def_body(*e, local@, indented));
            }
        },
    }
}

/// Renders one intermediate-column line.
fn render_inter_entry(e: &IntermediateEntry, local: &str, indented: bool, out: &mut String)
    requires
        spec_wf_inter_entry(*e),
    ensures
        final(out)@ == old(out)@ + spec_inter_body(*e, local@, indented),
{
    if indented {
        out.append("    ");
    }
    out.append("col ");
    out.append(local);
    if let Some(l) = e.symbol.length {
        out.append("[");
        let n = u64_to_dec(l);
        out.append(n.as_str());
        out.append("]");
        out.append(" = [");
        let list = render_algebraic_list(&e.definition);
        out.append(list.as_str());
        out.append("];\n");
    } else {
        out.append(" = ");
        let s = e.definition[0].render();
        out.append(s.as_str());
        out.append(";\n");
    }
    proof {
        assert(out@ =~= old(out)@ + spec_inter_body(*e, local@, indented));
    }
}

/// Renders one public-declaration line.
fn render_public_entry(d: &PublicDeclaration, local: &str, indented: bool, out: &mut String)
    ensures
        final(out)@ == old(out)@ + spec_public_body(*d, local@, indented),
{
    if indented {
        out.append("    ");
    }
    out.append("public ");
    out.append(local);
    out.append(" = ");
    let name = d.polynomial.render();
    out.append(name.as_str());
    if let Some(i) = d.array_index {
        out.append("[");
        let n = u64_to_dec(i);
        out.append(n.as_str());
        out.append("]");
    }
    out.append("(");
    let row = u64_to_dec(d.index);
    out.append(row.as_str());
    out.append(");\n");
    proof {
        assert(out@ =~= old(out)@ + spec_public_body(*d, local@, indented));
    }
}

/// Renders one statement: its namespace header, if one is due, then its
/// body.
fn render_statement(
    a: &Analyzed,
    s: &StatementIdentifier,
    degree: u64,
    current: &mut Vec<String>,
    out: &mut String,
)
    requires
        spec_wf_statement(*a, *s),
        degree as nat == spec_degree(*a),
    ensures
        str_seqs(final(current)@) == spec_ns_after(*s, str_seqs(old(current)@)),
        final(out)@ == old(out)@ + spec_stmt_header(*a, *s, str_seqs(old(current)@))
            + spec_stmt_body(*a, *s, spec_ns_after(*s, str_seqs(old(current)@))),
{
    match s {
        StatementIdentifier::Definition(p) => {
            match find_def(&a.definitions, p) {
                Some(k) => {
                    let local = update_namespace(p, degree, current, out);
                    render_def_entry(&a.definitions[k], local.as_str(), current.len() > 0, out);
                },
                None => {
                    match find_inter(&a.intermediate_columns, p) {
                        Some(k) => {
                            let local = update_namespace(p, degree, current, out);
                            render_inter_entry(
                                &a.intermediate_columns[k],
                                local.as_str(),
                                current.len() > 0,
                                out,
                            );
                        },
                        None => {
                            proof {
                                assert(false);
                            }
                        },
                    }
                },
            }
            proof {
                assert(out@ =~= old(out)@ + spec_stmt_header(*a, *s, str_seqs(old(current)@))
                    + spec_stmt_body(*a, *s, spec_ns_after(*s, str_seqs(old(current)@))));
            }
        },
        StatementIdentifier::PublicDeclaration(p) => {
            match find_public(&a.public_declarations, p) {
                Some(k) => {
                    let local = update_namespace(p, degree, current, out);
                    render_public_entry(
                        &a.public_declarations[k],
                        local.as_str(),
                        current.len() > 0,
                        out,
                    );
                },
                None => {
                    proof {
                        assert(false);
                    }
                },
            }
            proof {
                assert(out@ =~= old(out)@ + spec_stmt_header(*a, *s, str_seqs(old(current)@))
                    + spec_stmt_body(*a, *s, spec_ns_after(*s, str_seqs(old(current)@))));
            }
        },
        StatementIdentifier::Identity(i) => {
            out.append("    ");
            let line = a.identities[*i].render();
            out.append(line.as_str());
            out.append("\n");
            proof {
                assert(out@ =~= old(out)@ + spec_stmt_header(*a, *s, str_seqs(old(current)@))
                    + spec_stmt_body(*a, *s, spec_ns_after(*s, str_seqs(old(current)@))));
            }
        },
    }
}

impl Analyzed {
    /// Renders the whole representation as canonical source text. Assumes a
    /// well-formed table set; `render_checked` is the total entry point.
    pub fn render(&self) -> (r: String)
        requires
            spec_wf_analyzed(*self),
        ensures
            r@ == spec_render_analyzed(*self),
    {
        let degree: u64 = match self.degree {
            Some(d) => d,
            None => 0,
        };
        let mut out = String::new();
        let mut current: Vec<String> = Vec::new();
        let mut i: usize = 0;
        proof {
            assert(Seq::<char>::empty() + spec_render_analyzed(*self) =~= spec_render_analyzed(
                *self,
            ));
            assert(str_seqs(current@) =~= Seq::<Seq<char>>::empty());
        }
        while i < self.source_order.len()
            invariant
                spec_wf_analyzed(*self),
                degree as nat == spec_degree(*self),
                i <= self.source_order@.len(),
                spec_render_analyzed(*self) == out@ + spec_render_from(
                    *self,
                    i as int,
                    str_seqs(current@),
                ),
            decreases self.source_order@.len() - i,
        {
            let ghost ns0 = str_seqs(current@);
            let ghost out0 = out@;
            proof {
                assert(spec_wf_statement(*self, self.source_order@[i as int]));
            }
            render_statement(self, &self.source_order[i], degree, &mut current, &mut out);
            proof {
                let s = self.source_order@[i as int];
                let ns2 = spec_ns_after(s, ns0);
                assert(spec_render_from(*self, i as int, ns0) == spec_stmt_header(*self, s, ns0)
                    + spec_stmt_body(*self, s, ns2) + spec_render_from(*self, i as int + 1, ns2));
                assert(out0 + spec_render_from(*self, i as int, ns0) =~= out@ + spec_render_from(
                    *self,
                    i as int + 1,
                    ns2,
                ));
            }
            i = i + 1;
        }
        proof {
            assert(out@ + spec_render_from(*self, i as int, str_seqs(current@)) =~= out@);
        }
        out
    }

    /// Decides whether this representation keeps every structural invariant
    /// the printer relies on.
    pub fn is_well_formed(&self) -> (r: bool)
        ensures
            r == spec_wf_analyzed(*self),
    {
        let mut i: usize = 0;
        while i < self.source_order.len()
            invariant
                i <= self.source_order@.len(),
                forall|j: int|
                    0 <= j < i ==> spec_wf_statement(*self, #[trigger] self.source_order@[j]),
            decreases self.source_order@.len() - i,
        {
            if !self.check_statement(&self.source_order[i]) {
                proof {
                    assert(!spec_wf_statement(*self, self.source_order@[i as int]));
                    assert(!spec_wf_analyzed(*self));
                }
                return false;
            }
            i = i + 1;
        }
        true
    }

    /// Decides whether one statement is well formed.
    fn check_statement(&self, s: &StatementIdentifier) -> (r: bool)
        ensures
            r == spec_wf_statement(*self, *s),
    {
        match s {
            StatementIdentifier::Definition(p) => {
                if p.segments.len() == 0 {
                    return false;
                }
                match find_def(&self.definitions, p) {
                    Some(k) => {
                        if find_inter(&self.intermediate_columns, p).is_some() {
                            false
                        } else {
                            check_def_entry(&self.definitions[k])
                        }
                    },
                    None => match find_inter(&self.intermediate_columns, p) {
                        Some(k) => check_inter_entry(&self.intermediate_columns[k]),
                        None => false,
                    },
                }
            },
            StatementIdentifier::PublicDeclaration(p) => {
                if p.segments.len() == 0 {
                    return false;
                }
                find_public(&self.public_declarations, p).is_some()
            },
            StatementIdentifier::Identity(i) => {
                if *i >= self.identities.len() {
                    return false;
                }
                match &self.identities[*i].kind {
                    IdentityKind::Polynomial => self.identities[*i].left.selector.is_some(),
                    _ => true,
                }
            },
        }
    }

    /// Renders the representation after checking the printer's structural
    /// preconditions, refusing an ill-formed input instead of rendering it
    /// wrongly.
    pub fn render_checked(&self) -> (r: Option<String>)
        ensures
            match r {
                Some(s) => spec_wf_analyzed(*self) && s@ == spec_render_analyzed(*self),
                None => !spec_wf_analyzed(*self),
            },
    {
        if self.is_well_formed() {
            Some(self.render())
        } else {
            None
        }
    }
}

/// Decides whether a general-table entry is well formed.
fn check_def_entry(e: &DefinitionEntry) -> (r: bool)
    ensures
        r == spec_wf_def_entry(*e),
{
    match &e.symbol.kind {
        SymbolKind::Poly(pt) => match pt {
            PolynomialType::Intermediate => false,
            PolynomialType::Committed => {
                if e.symbol.length.is_some() {
                    e.definition.is_none()
                } else {
                    true
                }
            },
            PolynomialType::Constant => {
                if e.symbol.length.is_some() {
                    match &e.definition {
                        Some(FunctionValueDefinition::Expression(te)) => match &te.ty {
                            Some(ty) => !ty.is_col(),
                            None => false,
                        },
                        _ => false,
                    }
                } else {
                    true
                }
            },
        },
        SymbolKind::Constant => match &e.definition {
            Some(FunctionValueDefinition::Expression(te)) => match &te.ty {
                Some(Type::Fe) => true,
                _ => false,
            },
            _ => false,
        },
        SymbolKind::Other => true,
    }
}

/// Decides whether an intermediate-table entry is well formed.
fn check_inter_entry(e: &IntermediateEntry) -> (r: bool)
    ensures
        r == spec_wf_inter_entry(*e),
{
    if !matches!(e.symbol.kind, SymbolKind::Poly(PolynomialType::Intermediate)) {
        return false;
    }
    match e.symbol.length {
        Some(n) => e.definition.len() as u64 == n,
        None => e.definition.len() == 1,
    }
}

} // verus!
