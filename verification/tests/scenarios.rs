//! End-to-end walks through one analysis round, as a semantic analyzer and a
//! code generator would drive the registry.

use const_registry::ast::{AstStatement, Operator};
use const_registry::index::const_expressions::{ConstExpression, ConstExpressions};

fn literal(value: i128) -> AstStatement {
    AstStatement::LiteralInteger { value }
}

#[test]
fn resolve_an_addition_to_a_literal() {
    let mut registry = ConstExpressions::new();
    let addition = AstStatement::BinaryExpression {
        operator: Operator::Plus,
        left: Box::new(literal(3)),
        right: Box::new(literal(4)),
    };
    let handle = registry.add_expression(addition, "INT".to_string());

    // The analyzer evaluates the expression and stores the outcome.
    registry.mark_resolved(&handle, literal(7)).unwrap();

    assert_eq!(registry.get_constant_int_statement_value(&handle), Ok(7));

    // The code generator drains the entry and owns the node afterwards.
    let removed = registry.remove(&handle).expect("the entry is live");
    assert_eq!(removed, (literal(7), "INT".to_string()));
    assert_eq!(registry.find_expression(&handle), None);
}

#[test]
fn record_an_unresolvable_reference() {
    let mut registry = ConstExpressions::new();
    let node = AstStatement::Reference { name: "Z".to_string() };
    let handle = registry.add_expression(node.clone(), "INT".to_string());

    registry.mark_unresolvable(&handle, "undeclared symbol Z").unwrap();

    match registry.find_const_expression(&handle) {
        Some(ConstExpression::Unresolvable { statement, reason }) => {
            assert_eq!(statement, &node);
            assert_eq!(reason, "undeclared symbol Z");
        }
        _ => panic!("the entry must be unresolvable"),
    }
    // The original, unevaluated node is still the current one.
    assert_eq!(registry.find_expression(&handle), Some(&node));
}

#[test]
fn fixpoint_passes_scan_for_unresolved_entries() {
    let mut registry = ConstExpressions::new();
    let first = registry.add_expression(literal(1), "INT".to_string());
    let second = registry.add_expression(literal(2), "INT".to_string());
    registry.mark_resolved(&first, literal(1)).unwrap();

    // A later pass walks the table and picks out what is still unresolved.
    let mut unresolved = Vec::new();
    let mut walk = registry.into_iter();
    while let Some((handle, _)) = walk.next() {
        if matches!(registry.find_const_expression(&handle), Some(ConstExpression::Unresolved(_)))
        {
            unresolved.push(handle);
        }
    }
    assert_eq!(unresolved, vec![second]);
}
