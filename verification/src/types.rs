//! The small closed type system of the constraint language, with its
//! precedence-aware textual rendering.

use vstd::prelude::*;

use crate::strings::{dec_str, join_sep, join_with, str_seqs, u64_to_dec};

verus! {

/// A value, composite or function type of the constraint language.
pub enum Type {
    Bool,
    Int,
    Fe,
    Str,
    Expr,
    Constr,
    Array(ArrayType),
    Tuple(TupleType),
    Function(FunctionType),
}

/// An array of a base type, with an optional declared length.
pub struct ArrayType {
    pub base: Box<Type>,
    pub length: Option<u64>,
}

/// A tuple of item types.
pub struct TupleType {
    pub items: Vec<Type>,
}

/// A function type from a parameter list to a result type.
pub struct FunctionType {
    pub params: Vec<Type>,
    pub value: Box<Type>,
}

/// Whether `t` must be parenthesized when it stands where a suffix or a list
/// would make the reading ambiguous: exactly the function types, whose arrow
/// would otherwise swallow what follows.
pub open spec fn spec_needs_parentheses(t: Type) -> bool {
    t matches Type::Function(_)
}

/// The zero-argument, field-element-returning function shape: the canonical
/// type of a column generator, rendered with the short form `col`.
pub open spec fn spec_is_col(ft: FunctionType) -> bool {
    ft.params@.len() == 0 && (*ft.value matches Type::Fe)
}

/// Whether `t` is the column function type.
pub open spec fn spec_type_is_col(t: Type) -> bool {
    t matches Type::Function(ft) && spec_is_col(ft)
}

/// The rendering of a type.
pub open spec fn spec_render_type(t: Type) -> Seq<char>
    decreases t, 1nat,
{
    match t {
        Type::Bool => "bool"@,
        Type::Int => "int"@,
        Type::Fe => "fe"@,
        Type::Str => "string"@,
        Type::Expr => "expr"@,
        Type::Constr => "constr"@,
        Type::Array(ar) => spec_render_array_type(ar),
        Type::Tuple(tu) => spec_render_tuple_type(tu),
        Type::Function(fun) => spec_render_function_type(fun),
    }
}

/// The rendering of a type, parenthesized when it needs to be.
pub open spec fn spec_render_paren_type(t: Type) -> Seq<char>
    decreases t, 2nat,
{
    if spec_needs_parentheses(t) {
        "("@ + spec_render_type(t) + ")"@
    } else {
        spec_render_type(t)
    }
}

/// The rendering of an array type: the base (parenthesized if needed),
/// then the length between brackets, the brackets empty when no length is
/// declared.
pub open spec fn spec_render_array_type(ar: ArrayType) -> Seq<char>
    decreases ar, 3nat,
{
    let len_part = match ar.length {
        Some(l) => dec_str(l as nat),
        None => Seq::<char>::empty(),
    };
    spec_render_paren_type(*ar.base) + "["@ + len_part + "]"@
}

/// The rendering of a tuple type: its items, comma-joined, in parentheses.
pub open spec fn spec_render_tuple_type(tu: TupleType) -> Seq<char>
    decreases tu, 3nat,
{
    "("@ + spec_render_type_list(tu.items@) + ")"@
}

/// The rendering of a function type: `col` for the column shape, otherwise
/// the parenthesized parameter list, an arrow, and the result type.
pub open spec fn spec_render_function_type(ft: FunctionType) -> Seq<char>
    decreases ft, 3nat,
{
    if spec_is_col(ft) {
        "col"@
    } else {
        "("@ + spec_render_type_list(ft.params@) + ")"@ + " -> "@ + spec_render_type(*ft.value)
    }
}

/// The comma-joined rendering of a list of types, each parenthesized when it
/// needs to be.
pub open spec fn spec_render_type_list(ts: Seq<Type>) -> Seq<char>
    decreases ts, 3nat,
{
    if ts.len() == 0 {
        Seq::empty()
    } else if ts.len() == 1 {
        spec_render_paren_type(ts[0])
    } else {
        spec_render_paren_type(ts[0]) + ", "@ + spec_render_type_list(ts.drop_first())
    }
}

impl Type {
    /// Whether this type must be parenthesized where a suffix follows it.
    pub fn needs_parentheses(&self) -> (r: bool)
        ensures
            r == spec_needs_parentheses(*self),
    {
        matches!(self, Type::Function(_))
    }

    /// The column function type.
    pub fn col() -> (r: Type)
        ensures
            spec_type_is_col(r),
    {
        Type::Function(FunctionType::col())
    }

    /// Whether this type is the column function type.
    pub fn is_col(&self) -> (r: bool)
        ensures
            r == spec_type_is_col(*self),
    {
        match self {
            Type::Function(ft) => ft.is_col(),
            _ => false,
        }
    }

    /// Renders this type.
    pub fn render(&self) -> (r: String)
        ensures
            r@ == spec_render_type(*self),
        decreases *self, 1nat,
    {
        match self {
            Type::Bool => "bool".to_owned(),
            Type::Int => "int".to_owned(),
            Type::Fe => "fe".to_owned(),
            Type::Str => "string".to_owned(),
            Type::Expr => "expr".to_owned(),
            Type::Constr => "constr".to_owned(),
            Type::Array(ar) => ar.render(),
            Type::Tuple(tu) => tu.render(),
            Type::Function(fun) => fun.render(),
        }
    }
}

/// Renders a type, parenthesized when it needs to be.
pub fn render_paren_type(t: &Type) -> (r: String)
    ensures
        r@ == spec_render_paren_type(*t),
    decreases *t, 2nat,
{
    if t.needs_parentheses() {
        let mut r = "(".to_owned();
        let inner = t.render();
        r.append(inner.as_str());
        r.append(")");
        proof {
            assert(r@ =~= spec_render_paren_type(*t));
        }
        r
    } else {
        t.render()
    }
}

impl ArrayType {
    /// Renders this array type.
    pub fn render(&self) -> (r: String)
        ensures
            r@ == spec_render_array_type(*self),
        decreases *self, 3nat,
    {
        let mut r = render_paren_type(&self.base);
        r.append("[");
        if let Some(l) = self.length {
            let n = u64_to_dec(l);
            r.append(n.as_str());
        }
        r.append("]");
        proof {
            assert(r@ =~= spec_render_array_type(*self));
        }
        r
    }
}

impl TupleType {
    /// Renders this tuple type.
    pub fn render(&self) -> (r: String)
        ensures
            r@ == spec_render_tuple_type(*self),
        decreases *self, 3nat,
    {
        let mut r = "(".to_owned();
        let inner = format_list_of_types(&self.items);
        r.append(inner.as_str());
        r.append(")");
        proof {
            assert(r@ =~= spec_render_tuple_type(*self));
        }
        r
    }
}

impl FunctionType {
    /// The zero-argument, field-element-returning function type.
    pub fn col() -> (r: FunctionType)
        ensures
            spec_is_col(r),
    {
        FunctionType { params: Vec::new(), value: Box::new(Type::Fe) }
    }

    /// Whether this function type has the column shape, checked structurally.
    pub fn is_col(&self) -> (r: bool)
        ensures
            r == spec_is_col(*self),
    {
        self.params.len() == 0 && matches!(*self.value, Type::Fe)
    }

    /// Renders this function type: `col` for the column shape, otherwise
    /// `(params) -> value`.
    pub fn render(&self) -> (r: String)
        ensures
            r@ == spec_render_function_type(*self),
        decreases *self, 3nat,
    {
        if self.is_col() {
            "col".to_owned()
        } else {
            let mut r = "(".to_owned();
            let params = format_list_of_types(&self.params);
            r.append(params.as_str());
            r.append(")");
            r.append(" -> ");
            let v = self.value.render();
            r.append(v.as_str());
            proof {
                assert(r@ =~= spec_render_function_type(*self));
            }
            r
        }
    }
}

/// Renders a comma-joined list of types, parenthesizing each item that needs
/// it.
pub fn format_list_of_types(types: &Vec<Type>) -> (r: String)
    ensures
        r@ == spec_render_type_list(types@),
    decreases types@, 3nat,
{
    let mut parts: Vec<String> = Vec::new();
    let mut i: usize = 0;
    while i < types.len()
        invariant
            i <= types@.len(),
            parts@.len() == i,
            forall|j: int| 0 <= j < i ==> parts@[j]@ == spec_render_paren_type(types@[j]),
        decreases types@.len() - i,
    {
        let p = render_paren_type(&types[i]);
        parts.push(p);
        i = i + 1;
    }
    let r = join_with(&parts, ", ");
    proof {
        lemma_join_matches_type_list(str_seqs(parts@), types@);
    }
    r
}

/// A comma-joined list whose pieces are the parenthesized renderings of `ts`
/// joins to the rendering of the whole list.
proof fn lemma_join_matches_type_list(ss: Seq<Seq<char>>, ts: Seq<Type>)
    requires
        ss.len() == ts.len(),
        forall|j: int| 0 <= j < ts.len() ==> ss[j] == spec_render_paren_type(ts[j]),
    ensures
        join_sep(ss, ", "@) == spec_render_type_list(ts),
    decreases ts.len(),
{
    if ts.len() > 1 {
        assert(forall|j: int|
            0 <= j < ts.drop_first().len() ==> ss.drop_first()[j] == spec_render_paren_type(
                ts.drop_first()[j],
            ));
        lemma_join_matches_type_list(ss.drop_first(), ts.drop_first());
    }
}

} // verus!
