//! End-to-end printing of whole analyzed representations, and the checked
//! entry point's refusal of ill-formed input.

use pil_printer::algebraic::{AlgebraicBinaryOperator, AlgebraicExpression, AlgebraicReference};
use pil_printer::expression::{Expression, LambdaExpr, PolynomialReference};
use pil_printer::identity::{Identity, IdentityKind, SelectedExpressions};
use pil_printer::printer::{Analyzed, DefinitionEntry, IntermediateEntry};
use pil_printer::symbols::{
    FunctionValueDefinition, PolynomialType, PublicDeclaration, RepeatedArray,
    StatementIdentifier, Symbol, SymbolKind, SymbolPath, TypedExpression,
};
use pil_printer::types::Type;

fn path(segments: &[&str]) -> SymbolPath {
    SymbolPath {
        segments: segments.iter().map(|s| s.to_string()).collect(),
    }
}

fn col_ref(name: &str) -> AlgebraicExpression {
    AlgebraicExpression::Reference(AlgebraicReference {
        name: name.to_string(),
        next: false,
    })
}

fn empty_analyzed() -> Analyzed {
    Analyzed {
        degree: Some(8),
        definitions: Vec::new(),
        intermediate_columns: Vec::new(),
        public_declarations: Vec::new(),
        identities: Vec::new(),
        source_order: Vec::new(),
    }
}

fn constant_entry(p: SymbolPath, value: u64) -> DefinitionEntry {
    DefinitionEntry {
        path: p,
        symbol: Symbol {
            kind: SymbolKind::Constant,
            length: None,
        },
        definition: Some(FunctionValueDefinition::Expression(TypedExpression {
            e: Expression::Number(value),
            ty: Some(Type::Fe),
        })),
    }
}

#[test]
fn empty_representation_renders_nothing() {
    let a = empty_analyzed();
    assert_eq!(a.render_checked().expect("well formed").as_str(), "");
}

#[test]
fn global_fixed_column_with_generator() {
    // A global-scope fixed column named ONE whose definition is a
    // single-parameter lambda of the column type.
    let one = DefinitionEntry {
        path: path(&["ONE"]),
        symbol: Symbol {
            kind: SymbolKind::Poly(PolynomialType::Constant),
            length: None,
        },
        definition: Some(FunctionValueDefinition::Expression(TypedExpression {
            e: Expression::LambdaExpression(LambdaExpr {
                params: vec!["i".to_string()],
                body: Box::new(Expression::Number(1)),
            }),
            ty: Some(Type::col()),
        })),
    };
    let mut a = empty_analyzed();
    a.definitions = vec![one];
    a.source_order = vec![StatementIdentifier::Definition(path(&["ONE"]))];
    let out = a.render_checked().expect("well formed");
    assert_eq!(out.as_str(), "col fixed ONE(i) { 1 };\n");
}

#[test]
fn constant_line_renders_and_reads_back() {
    let mut a = empty_analyzed();
    a.definitions = vec![constant_entry(path(&["N", "C"]), 42)];
    a.source_order = vec![StatementIdentifier::Definition(path(&["N", "C"]))];
    let out = a.render_checked().expect("well formed");
    assert_eq!(out.as_str(), "namespace N(8);\n    constant C = 42;\n");
    // The printed expression parses back to the defined value.
    let line = out.as_str().lines().nth(1).unwrap();
    let expr = line
        .trim_start()
        .strip_prefix("constant C = ")
        .unwrap()
        .strip_suffix(';')
        .unwrap();
    assert_eq!(expr.parse::<u64>().unwrap(), 42);
}

#[test]
fn global_constant_is_not_indented() {
    let mut a = empty_analyzed();
    a.definitions = vec![constant_entry(path(&["C"]), 7)];
    a.source_order = vec![StatementIdentifier::Definition(path(&["C"]))];
    let out = a.render_checked().expect("well formed");
    assert_eq!(out.as_str(), "constant C = 7;\n");
}

#[test]
fn namespace_header_emitted_once_per_run() {
    let mut a = empty_analyzed();
    a.definitions = vec![
        constant_entry(path(&["Foo", "A"]), 1),
        constant_entry(path(&["Foo", "B"]), 2),
    ];
    a.source_order = vec![
        StatementIdentifier::Definition(path(&["Foo", "A"])),
        StatementIdentifier::Definition(path(&["Foo", "B"])),
    ];
    let out = a.render_checked().expect("well formed");
    assert_eq!(
        out.as_str(),
        "namespace Foo(8);\n    constant A = 1;\n    constant B = 2;\n"
    );
    assert_eq!(out.as_str().matches("namespace").count(), 1);
}

#[test]
fn namespace_switch_emits_new_header() {
    let mut a = empty_analyzed();
    a.definitions = vec![
        constant_entry(path(&["Foo", "A"]), 1),
        constant_entry(path(&["Foo", "Bar", "B"]), 2),
    ];
    a.source_order = vec![
        StatementIdentifier::Definition(path(&["Foo", "A"])),
        StatementIdentifier::Definition(path(&["Foo", "Bar", "B"])),
    ];
    let out = a.render_checked().expect("well formed");
    assert_eq!(
        out.as_str(),
        "namespace Foo(8);\n    constant A = 1;\n\
         namespace Foo.Bar(8);\n    constant B = 2;\n"
    );
}

#[test]
fn switch_back_to_global_scope_emits_bare_header() {
    let mut a = empty_analyzed();
    a.definitions = vec![
        constant_entry(path(&["Foo", "A"]), 1),
        constant_entry(path(&["C"]), 7),
    ];
    a.source_order = vec![
        StatementIdentifier::Definition(path(&["Foo", "A"])),
        StatementIdentifier::Definition(path(&["C"])),
    ];
    let out = a.render_checked().expect("well formed");
    assert_eq!(
        out.as_str(),
        "namespace Foo(8);\n    constant A = 1;\nnamespace (8);\nconstant C = 7;\n"
    );
}

#[test]
fn degree_defaults_to_zero() {
    let mut a = empty_analyzed();
    a.degree = None;
    a.definitions = vec![constant_entry(path(&["N", "C"]), 1)];
    a.source_order = vec![StatementIdentifier::Definition(path(&["N", "C"]))];
    let out = a.render_checked().expect("well formed");
    assert_eq!(out.as_str(), "namespace N(0);\n    constant C = 1;\n");
}

#[test]
fn witness_column_with_length_has_bracket_suffix() {
    let w = DefinitionEntry {
        path: path(&["N", "w"]),
        symbol: Symbol {
            kind: SymbolKind::Poly(PolynomialType::Committed),
            length: Some(4),
        },
        definition: None,
    };
    let mut a = empty_analyzed();
    a.definitions = vec![w];
    a.source_order = vec![StatementIdentifier::Definition(path(&["N", "w"]))];
    let out = a.render_checked().expect("well formed");
    assert_eq!(out.as_str(), "namespace N(8);\n    col witness w[4];\n");
}

#[test]
fn witness_array_with_definition_is_refused() {
    // A witness column with a declared array length is a free variable: a
    // definition on it must trip the fatal path, not render.
    let w = DefinitionEntry {
        path: path(&["N", "w"]),
        symbol: Symbol {
            kind: SymbolKind::Poly(PolynomialType::Committed),
            length: Some(4),
        },
        definition: Some(FunctionValueDefinition::Expression(TypedExpression {
            e: Expression::Number(0),
            ty: None,
        })),
    };
    let mut a = empty_analyzed();
    a.definitions = vec![w];
    a.source_order = vec![StatementIdentifier::Definition(path(&["N", "w"]))];
    assert!(!a.is_well_formed());
    assert!(a.render_checked().is_none());
}

#[test]
fn global_scope_column_and_let_lines_are_not_indented() {
    let w = DefinitionEntry {
        path: path(&["w"]),
        symbol: Symbol {
            kind: SymbolKind::Poly(PolynomialType::Committed),
            length: None,
        },
        definition: None,
    };
    let l = DefinitionEntry {
        path: path(&["x"]),
        symbol: Symbol {
            kind: SymbolKind::Other,
            length: None,
        },
        definition: None,
    };
    let inter = IntermediateEntry {
        path: path(&["t"]),
        symbol: Symbol {
            kind: SymbolKind::Poly(PolynomialType::Intermediate),
            length: None,
        },
        definition: vec![col_ref("w")],
    };
    let mut a = empty_analyzed();
    a.definitions = vec![w, l];
    a.intermediate_columns = vec![inter];
    a.source_order = vec![
        StatementIdentifier::Definition(path(&["w"])),
        StatementIdentifier::Definition(path(&["x"])),
        StatementIdentifier::Definition(path(&["t"])),
    ];
    let out = a.render_checked().expect("well formed");
    assert_eq!(out.as_str(), "col witness w;\nlet x;\ncol t = w;\n");
}

#[test]
fn fixed_array_with_col_typed_definition_is_refused() {
    // The column function type is elided when printed, so an array-sized
    // fixed column annotated with it would print no type to recover the
    // length from.
    let f = DefinitionEntry {
        path: path(&["N", "F"]),
        symbol: Symbol {
            kind: SymbolKind::Poly(PolynomialType::Constant),
            length: Some(2),
        },
        definition: Some(FunctionValueDefinition::Expression(TypedExpression {
            e: Expression::LambdaExpression(LambdaExpr {
                params: vec!["i".to_string()],
                body: Box::new(Expression::Number(0)),
            }),
            ty: Some(Type::col()),
        })),
    };
    let mut a = empty_analyzed();
    a.definitions = vec![f];
    a.source_order = vec![StatementIdentifier::Definition(path(&["N", "F"]))];
    assert!(a.render_checked().is_none());
}

#[test]
fn witness_column_with_query() {
    let w = DefinitionEntry {
        path: path(&["N", "w"]),
        symbol: Symbol {
            kind: SymbolKind::Poly(PolynomialType::Committed),
            length: None,
        },
        definition: Some(FunctionValueDefinition::Query(Expression::LambdaExpression(
            LambdaExpr {
                params: vec!["i".to_string()],
                body: Box::new(Expression::Number(0)),
            },
        ))),
    };
    let mut a = empty_analyzed();
    a.definitions = vec![w];
    a.source_order = vec![StatementIdentifier::Definition(path(&["N", "w"]))];
    let out = a.render_checked().expect("well formed");
    assert_eq!(out.as_str(), "namespace N(8);\n    col witness w(i) query 0;\n");
}

#[test]
fn fixed_column_with_repeated_array() {
    let f = DefinitionEntry {
        path: path(&["N", "F"]),
        symbol: Symbol {
            kind: SymbolKind::Poly(PolynomialType::Constant),
            length: None,
        },
        definition: Some(FunctionValueDefinition::Array(vec![
            RepeatedArray {
                pattern: vec![Expression::Number(1), Expression::Number(2)],
                repeated: false,
            },
            RepeatedArray {
                pattern: vec![Expression::Number(0)],
                repeated: true,
            },
        ])),
    };
    let mut a = empty_analyzed();
    a.definitions = vec![f];
    a.source_order = vec![StatementIdentifier::Definition(path(&["N", "F"]))];
    let out = a.render_checked().expect("well formed");
    assert_eq!(
        out.as_str(),
        "namespace N(8);\n    col fixed F = [1, 2] + [0]*;\n"
    );
}

#[test]
fn fixed_array_without_typed_definition_is_refused() {
    // An array-sized fixed column must carry a typed expression so the
    // length is recoverable from the printed type.
    let f = DefinitionEntry {
        path: path(&["N", "F"]),
        symbol: Symbol {
            kind: SymbolKind::Poly(PolynomialType::Constant),
            length: Some(2),
        },
        definition: Some(FunctionValueDefinition::Expression(TypedExpression {
            e: Expression::Number(0),
            ty: None,
        })),
    };
    let mut a = empty_analyzed();
    a.definitions = vec![f];
    a.source_order = vec![StatementIdentifier::Definition(path(&["N", "F"]))];
    assert!(a.render_checked().is_none());
}

#[test]
fn let_binding_with_typed_expression() {
    let entry = DefinitionEntry {
        path: path(&["N", "n"]),
        symbol: Symbol {
            kind: SymbolKind::Other,
            length: None,
        },
        definition: Some(FunctionValueDefinition::Expression(TypedExpression {
            e: Expression::Number(5),
            ty: Some(Type::Int),
        })),
    };
    let mut a = empty_analyzed();
    a.definitions = vec![entry];
    a.source_order = vec![StatementIdentifier::Definition(path(&["N", "n"]))];
    let out = a.render_checked().expect("well formed");
    assert_eq!(out.as_str(), "namespace N(8);\n    let n: int = 5;\n");
}

#[test]
fn let_binding_without_definition() {
    let entry = DefinitionEntry {
        path: path(&["N", "x"]),
        symbol: Symbol {
            kind: SymbolKind::Other,
            length: None,
        },
        definition: None,
    };
    let mut a = empty_analyzed();
    a.definitions = vec![entry];
    a.source_order = vec![StatementIdentifier::Definition(path(&["N", "x"]))];
    let out = a.render_checked().expect("well formed");
    assert_eq!(out.as_str(), "namespace N(8);\n    let x;\n");
}

#[test]
fn intermediate_array_renders_each_element() {
    let inter = IntermediateEntry {
        path: path(&["N", "t"]),
        symbol: Symbol {
            kind: SymbolKind::Poly(PolynomialType::Intermediate),
            length: Some(2),
        },
        definition: vec![col_ref("x"), col_ref("y")],
    };
    let mut a = empty_analyzed();
    a.intermediate_columns = vec![inter];
    a.source_order = vec![StatementIdentifier::Definition(path(&["N", "t"]))];
    let out = a.render_checked().expect("well formed");
    assert_eq!(out.as_str(), "namespace N(8);\n    col t[2] = [x, y];\n");
}

#[test]
fn scalar_intermediate_renders_single_expression() {
    let inter = IntermediateEntry {
        path: path(&["N", "t"]),
        symbol: Symbol {
            kind: SymbolKind::Poly(PolynomialType::Intermediate),
            length: None,
        },
        definition: vec![col_ref("x")],
    };
    let mut a = empty_analyzed();
    a.intermediate_columns = vec![inter];
    a.source_order = vec![StatementIdentifier::Definition(path(&["N", "t"]))];
    let out = a.render_checked().expect("well formed");
    assert_eq!(out.as_str(), "namespace N(8);\n    col t = x;\n");
}

#[test]
fn intermediate_with_mismatched_count_is_refused() {
    let inter = IntermediateEntry {
        path: path(&["N", "t"]),
        symbol: Symbol {
            kind: SymbolKind::Poly(PolynomialType::Intermediate),
            length: Some(3),
        },
        definition: vec![col_ref("x"), col_ref("y")],
    };
    let mut a = empty_analyzed();
    a.intermediate_columns = vec![inter];
    a.source_order = vec![StatementIdentifier::Definition(path(&["N", "t"]))];
    assert!(a.render_checked().is_none());

    let scalar_two = IntermediateEntry {
        path: path(&["N", "u"]),
        symbol: Symbol {
            kind: SymbolKind::Poly(PolynomialType::Intermediate),
            length: None,
        },
        definition: vec![col_ref("x"), col_ref("y")],
    };
    let mut b = empty_analyzed();
    b.intermediate_columns = vec![scalar_two];
    b.source_order = vec![StatementIdentifier::Definition(path(&["N", "u"]))];
    assert!(b.render_checked().is_none());
}

#[test]
fn public_declaration_renders() {
    let decl = PublicDeclaration {
        name: path(&["out"]),
        polynomial: PolynomialReference {
            name: "x".to_string(),
        },
        array_index: None,
        index: 3,
    };
    let mut a = empty_analyzed();
    a.public_declarations = vec![decl];
    a.source_order = vec![StatementIdentifier::PublicDeclaration(path(&["out"]))];
    let out = a.render_checked().expect("well formed");
    assert_eq!(out.as_str(), "public out = x(3);\n");
}

#[test]
fn public_declaration_with_array_index_and_namespace() {
    let decl = PublicDeclaration {
        name: path(&["N", "out"]),
        polynomial: PolynomialReference {
            name: "N.x".to_string(),
        },
        array_index: Some(1),
        index: 7,
    };
    let mut a = empty_analyzed();
    a.public_declarations = vec![decl];
    a.source_order = vec![StatementIdentifier::PublicDeclaration(path(&["N", "out"]))];
    let out = a.render_checked().expect("well formed");
    assert_eq!(out.as_str(), "namespace N(8);\n    public out = N.x[1](7);\n");
}

#[test]
fn identity_statement_renders_indented() {
    let e = AlgebraicExpression::BinaryOperation(
        Box::new(col_ref("a")),
        AlgebraicBinaryOperator::Sub,
        Box::new(col_ref("b")),
    );
    let id = Identity {
        kind: IdentityKind::Polynomial,
        left: SelectedExpressions {
            selector: Some(e),
            expressions: Vec::new(),
        },
        right: SelectedExpressions {
            selector: None,
            expressions: Vec::new(),
        },
    };
    let mut a = empty_analyzed();
    a.identities = vec![id];
    a.source_order = vec![StatementIdentifier::Identity(0)];
    let out = a.render_checked().expect("well formed");
    assert_eq!(out.as_str(), "    a = b;\n");
}

#[test]
fn unknown_definition_name_is_refused() {
    let mut a = empty_analyzed();
    a.source_order = vec![StatementIdentifier::Definition(path(&["N", "ghost"]))];
    assert!(a.render_checked().is_none());
}

#[test]
fn unknown_public_name_is_refused() {
    let mut a = empty_analyzed();
    a.source_order = vec![StatementIdentifier::PublicDeclaration(path(&["out"]))];
    assert!(a.render_checked().is_none());
}

#[test]
fn identity_index_out_of_range_is_refused() {
    let mut a = empty_analyzed();
    a.source_order = vec![StatementIdentifier::Identity(0)];
    assert!(a.render_checked().is_none());
}

#[test]
fn polynomial_identity_without_expression_is_refused() {
    let id: Identity<AlgebraicExpression> = Identity {
        kind: IdentityKind::Polynomial,
        left: SelectedExpressions {
            selector: None,
            expressions: Vec::new(),
        },
        right: SelectedExpressions {
            selector: None,
            expressions: Vec::new(),
        },
    };
    let mut a = empty_analyzed();
    a.identities = vec![id];
    a.source_order = vec![StatementIdentifier::Identity(0)];
    assert!(a.render_checked().is_none());
}

#[test]
fn intermediate_kind_in_general_table_is_refused() {
    let entry = DefinitionEntry {
        path: path(&["N", "t"]),
        symbol: Symbol {
            kind: SymbolKind::Poly(PolynomialType::Intermediate),
            length: None,
        },
        definition: None,
    };
    let mut a = empty_analyzed();
    a.definitions = vec![entry];
    a.source_order = vec![StatementIdentifier::Definition(path(&["N", "t"]))];
    assert!(a.render_checked().is_none());
}

#[test]
fn constant_with_wrong_payload_is_refused() {
    let entry = DefinitionEntry {
        path: path(&["N", "C"]),
        symbol: Symbol {
            kind: SymbolKind::Constant,
            length: None,
        },
        definition: Some(FunctionValueDefinition::Expression(TypedExpression {
            e: Expression::Number(1),
            ty: Some(Type::Int),
        })),
    };
    let mut a = empty_analyzed();
    a.definitions = vec![entry];
    a.source_order = vec![StatementIdentifier::Definition(path(&["N", "C"]))];
    assert!(a.render_checked().is_none());
}

#[test]
fn mixed_program_prints_in_source_order() {
    let e = AlgebraicExpression::BinaryOperation(
        Box::new(col_ref("N.w")),
        AlgebraicBinaryOperator::Sub,
        Box::new(col_ref("N.F")),
    );
    let id = Identity {
        kind: IdentityKind::Polynomial,
        left: SelectedExpressions {
            selector: Some(e),
            expressions: Vec::new(),
        },
        right: SelectedExpressions {
            selector: None,
            expressions: Vec::new(),
        },
    };
    let w = DefinitionEntry {
        path: path(&["N", "w"]),
        symbol: Symbol {
            kind: SymbolKind::Poly(PolynomialType::Committed),
            length: None,
        },
        definition: None,
    };
    let f = DefinitionEntry {
        path: path(&["N", "F"]),
        symbol: Symbol {
            kind: SymbolKind::Poly(PolynomialType::Constant),
            length: None,
        },
        definition: Some(FunctionValueDefinition::Array(vec![RepeatedArray {
            pattern: vec![Expression::Number(0)],
            repeated: true,
        }])),
    };
    let mut a = empty_analyzed();
    a.definitions = vec![w, f];
    a.identities = vec![id];
    a.source_order = vec![
        StatementIdentifier::Definition(path(&["N", "w"])),
        StatementIdentifier::Definition(path(&["N", "F"])),
        StatementIdentifier::Identity(0),
    ];
    let out = a.render_checked().expect("well formed");
    assert_eq!(
        out.as_str(),
        "namespace N(8);\n    col witness w;\n    col fixed F = [0]*;\n    N.w = N.F;\n"
    );
}
