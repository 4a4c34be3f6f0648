//! Behaviour of the registry operations, one property per test.

use const_registry::ast::{AstStatement, Operator};
use const_registry::index::const_expressions::{ConstError, ConstExpression, ConstExpressions};

fn literal(value: i128) -> AstStatement {
    AstStatement::LiteralInteger { value }
}

fn reference(name: &str) -> AstStatement {
    AstStatement::Reference { name: name.to_string() }
}

fn addition(left: AstStatement, right: AstStatement) -> AstStatement {
    AstStatement::BinaryExpression {
        operator: Operator::Plus,
        left: Box::new(left),
        right: Box::new(right),
    }
}

#[test]
fn insert_yields_node_state_and_type() {
    let mut registry = ConstExpressions::new();
    let node = addition(literal(3), literal(4));
    let handle = registry.add_expression(node.clone(), "INT".to_string());

    assert_eq!(registry.find_expression(&handle), Some(&node));
    assert_eq!(registry.find_expression_target_type(&handle), Some("INT"));
    match registry.find_const_expression(&handle) {
        Some(ConstExpression::Unresolved(statement)) => assert_eq!(statement, &node),
        _ => panic!("a fresh entry must be unresolved"),
    }
}

#[test]
fn mark_resolved_replaces_the_node_wholesale() {
    let mut registry = ConstExpressions::new();
    let original = addition(literal(3), literal(4));
    let handle = registry.add_expression(original.clone(), "INT".to_string());

    registry.mark_resolved(&handle, literal(7)).unwrap();

    assert_eq!(registry.find_expression(&handle), Some(&literal(7)));
    assert_ne!(registry.find_expression(&handle), Some(&original));
    match registry.find_const_expression(&handle) {
        Some(ConstExpression::Resolved(statement)) => assert_eq!(statement, &literal(7)),
        _ => panic!("the entry must be resolved"),
    }
}

#[test]
fn removed_handle_stays_absent_after_reinsertion() {
    let mut registry = ConstExpressions::new();
    let handle = registry.add_expression(literal(1), "INT".to_string());
    assert!(registry.remove(&handle).is_some());

    // The freed slot may be reused, but the old handle must stay dead.
    let reissued = registry.add_expression(literal(2), "INT".to_string());
    assert_ne!(handle, reissued);
    assert_eq!(registry.find_expression(&handle), None);
    assert_eq!(registry.find_expression_target_type(&handle), None);
    assert!(registry.find_const_expression(&handle).is_none());
    assert_eq!(registry.find_expression(&reissued), Some(&literal(2)));
}

#[test]
fn transitions_on_dead_handles_fail_without_corruption() {
    let mut registry = ConstExpressions::new();
    let dead = registry.add_expression(literal(1), "INT".to_string());
    registry.remove(&dead);
    let never_issued = generational_arena::Index::from_raw_parts(17, 23);
    let live = registry.add_expression(literal(5), "DINT".to_string());

    assert_eq!(registry.mark_resolved(&dead, literal(9)), Err(ConstError::HandleNotFound));
    assert_eq!(registry.mark_unresolvable(&dead, "gone"), Err(ConstError::HandleNotFound));
    assert_eq!(registry.mark_resolved(&never_issued, literal(9)), Err(ConstError::HandleNotFound));
    assert_eq!(
        registry.mark_unresolvable(&never_issued, "unknown"),
        Err(ConstError::HandleNotFound)
    );

    // A following valid operation on a different handle still succeeds.
    assert_eq!(registry.mark_resolved(&live, literal(6)), Ok(()));
    assert_eq!(registry.find_expression(&live), Some(&literal(6)));
}

#[test]
fn integer_extraction_is_structural_only() {
    let mut registry = ConstExpressions::new();

    // Unresolved, literal-shaped: extraction succeeds although nothing was
    // ever resolved.
    let unresolved_literal = registry.add_expression(literal(42), "INT".to_string());
    assert_eq!(registry.get_constant_int_statement_value(&unresolved_literal), Ok(42));

    // Resolved, but not literal-shaped: shape mismatch.
    let resolved_reference = registry.add_expression(literal(1), "INT".to_string());
    registry.mark_resolved(&resolved_reference, reference("X")).unwrap();
    assert_eq!(
        registry.get_constant_int_statement_value(&resolved_reference),
        Err(ConstError::ShapeMismatch)
    );

    // Unresolvable, literal-shaped: extraction still succeeds.
    let unresolvable_literal = registry.add_expression(literal(8), "INT".to_string());
    registry.mark_unresolvable(&unresolvable_literal, "stuck").unwrap();
    assert_eq!(registry.get_constant_int_statement_value(&unresolvable_literal), Ok(8));

    // Compound expression that would fold to an integer: still a mismatch.
    let compound = registry.add_expression(addition(literal(1), literal(2)), "INT".to_string());
    assert_eq!(
        registry.get_constant_int_statement_value(&compound),
        Err(ConstError::ShapeMismatch)
    );

    // No entry at all: reported distinctly.
    registry.remove(&unresolved_literal);
    assert_eq!(
        registry.get_constant_int_statement_value(&unresolved_literal),
        Err(ConstError::HandleNotFound)
    );
}

#[test]
fn iteration_covers_live_entries_exactly_once() {
    let mut registry = ConstExpressions::new();
    let mut handles = Vec::new();
    for value in 0..5 {
        handles.push(registry.add_expression(literal(value), "INT".to_string()));
    }
    registry.remove(&handles[1]);
    registry.remove(&handles[3]);

    let mut seen = Vec::new();
    let mut walk = registry.into_iter();
    while let Some((handle, statement)) = walk.next() {
        assert_eq!(registry.find_expression(&handle), Some(&statement));
        assert!(!seen.contains(&handle), "an entry was yielded twice");
        assert_ne!(handle, handles[1]);
        assert_ne!(handle, handles[3]);
        seen.push(handle);
    }
    // 5 inserts minus 2 removes.
    assert_eq!(seen.len(), 3);

    // The walk is restartable per call.
    let mut second = registry.into_iter();
    let mut count = 0;
    while second.next().is_some() {
        count += 1;
    }
    assert_eq!(count, 3);
}

#[test]
fn mark_unresolvable_retains_the_payload() {
    let mut registry = ConstExpressions::new();
    let node = addition(reference("A"), literal(4));
    let handle = registry.add_expression(node.clone(), "INT".to_string());

    registry.mark_unresolvable(&handle, "undeclared symbol A").unwrap();

    match registry.find_const_expression(&handle) {
        Some(ConstExpression::Unresolvable { statement, reason }) => {
            assert_eq!(statement, &node);
            assert_eq!(reason, "undeclared symbol A");
        }
        _ => panic!("the entry must be unresolvable"),
    }
    assert_eq!(registry.find_expression(&handle), Some(&node));

    // The payload is whatever stood immediately before the call: after a
    // resolution, marking unresolvable keeps the resolved node.
    registry.mark_resolved(&handle, literal(7)).unwrap();
    registry.mark_unresolvable(&handle, "re-opened").unwrap();
    assert_eq!(registry.find_expression(&handle), Some(&literal(7)));
}

#[test]
fn maybe_wrappers_forward_absence() {
    let mut registry = ConstExpressions::new();

    assert_eq!(registry.maybe_add_constant_expression(None, "INT"), None);
    let handle = registry
        .maybe_add_constant_expression(Some(literal(11)), "INT")
        .expect("a present node must be registered");
    assert_eq!(registry.find_expression_target_type(&handle), Some("INT"));
    assert_eq!(registry.maybe_get_constant_statement(&Some(handle)), Some(&literal(11)));
    assert_eq!(registry.maybe_get_constant_statement(&None), None);
    assert_eq!(registry.get_constant_statement(&handle), Some(&literal(11)));
}

#[test]
fn an_empty_registry_yields_nothing() {
    let registry = ConstExpressions::new();
    let mut walk = registry.into_iter();
    assert!(walk.next().is_none());
    // The walk stays exhausted.
    assert!(walk.next().is_none());
}

#[test]
fn extraction_carries_the_full_payload_width() {
    let mut registry = ConstExpressions::new();
    let low = registry.add_expression(literal(i128::MIN), "LINT".to_string());
    let high = registry.add_expression(literal(i128::MAX), "LINT".to_string());
    assert_eq!(registry.get_constant_int_statement_value(&low), Ok(i128::MIN));
    assert_eq!(registry.get_constant_int_statement_value(&high), Ok(i128::MAX));
}

#[test]
fn add_constant_expression_registers_like_add_expression() {
    let mut registry = ConstExpressions::new();
    let handle = registry.add_constant_expression(literal(13), "SINT".to_string());
    assert_eq!(registry.get_constant_statement(&handle), Some(&literal(13)));
    assert_eq!(registry.find_expression_target_type(&handle), Some("SINT"));
    match registry.find_const_expression(&handle) {
        Some(ConstExpression::Unresolved(statement)) => assert_eq!(statement, &literal(13)),
        _ => panic!("a fresh entry must be unresolved"),
    }
}

#[test]
fn error_messages_name_the_failure() {
    assert_eq!(ConstError::HandleNotFound.message(), "cannot find constant expression");
    assert_eq!(ConstError::ShapeMismatch.message(), "not an integer literal");
}
