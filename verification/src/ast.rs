//! A minimal expression-tree node, as handed over by the parser.
//!
//! The registry only needs a node type that is duplicable and that has a
//! distinguishable integer-literal shape carrying a wide signed payload; the
//! remaining shapes stand for everything else an expression tree can hold.

use vstd::prelude::*;

verus! {

/// Binary operators that may appear in a constant expression.
#[derive(Clone, Copy, PartialEq, Eq, Structural, Debug)]
pub enum Operator {
    Plus,
    Minus,
    Multiplication,
    Division,
}

/// One node of a parsed expression tree.
#[derive(Debug)]
pub enum AstStatement {
    /// A node without content, e.g. an elided initializer.
    EmptyStatement,
    /// An integer literal with its payload.
    LiteralInteger { value: i128 },
    /// A reference to a named declaration.
    Reference { name: String },
    /// A binary expression over two sub-expressions.
    BinaryExpression { operator: Operator, left: Box<AstStatement>, right: Box<AstStatement> },
}

impl AstStatement {
    /// Structural equality up to string contents: two nodes are alike when
    /// they have the same shape and their payloads read the same.
    pub open spec fn alike(self, other: AstStatement) -> bool
        decreases self,
    {
        match (self, other) {
            (AstStatement::EmptyStatement, AstStatement::EmptyStatement) => true,
            (
                AstStatement::LiteralInteger { value: a },
                AstStatement::LiteralInteger { value: b },
            ) => a == b,
            (AstStatement::Reference { name: a }, AstStatement::Reference { name: b }) => a@ == b@,
            (
                AstStatement::BinaryExpression { operator: op_a, left: l_a, right: r_a },
                AstStatement::BinaryExpression { operator: op_b, left: l_b, right: r_b },
            ) => op_a == op_b && l_a.alike(*l_b) && r_a.alike(*r_b),
            _ => false,
        }
    }
}

impl Clone for AstStatement {
    fn clone(&self) -> (r: Self)
        ensures
            r == *self,
        decreases *self,
    {
        match self {
            AstStatement::EmptyStatement => AstStatement::EmptyStatement,
            AstStatement::LiteralInteger { value } => AstStatement::LiteralInteger {
                value: *value,
            },
            AstStatement::Reference { name } => AstStatement::Reference { name: name.clone() },
            AstStatement::BinaryExpression { operator, left, right } => {
                AstStatement::BinaryExpression {
                    operator: *operator,
                    left: Box::new((**left).clone()),
                    right: Box::new((**right).clone()),
                }
            },
        }
    }
}

impl AstStatement {
    /// Decides [`Self::alike`].
    pub fn is_alike(&self, other: &Self) -> (r: bool)
        ensures
            r == self.alike(*other),
        decreases *self,
    {
        match (self, other) {
            (AstStatement::EmptyStatement, AstStatement::EmptyStatement) => true,
            (
                AstStatement::LiteralInteger { value: a },
                AstStatement::LiteralInteger { value: b },
            ) => *a == *b,
            (AstStatement::Reference { name: a }, AstStatement::Reference { name: b }) => *a == *b,
            (
                AstStatement::BinaryExpression { operator: op_a, left: l_a, right: r_a },
                AstStatement::BinaryExpression { operator: op_b, left: l_b, right: r_b },
            ) => *op_a == *op_b && (**l_a).is_alike(&**l_b) && (**r_a).is_alike(&**r_b),
            _ => false,
        }
    }
}

impl PartialEq for AstStatement {
    fn eq(&self, other: &Self) -> (r: bool) {
        self.is_alike(other)
    }
}

impl vstd::std_specs::cmp::PartialEqSpecImpl for AstStatement {
    open spec fn obeys_eq_spec() -> bool {
        true
    }

    open spec fn eq_spec(&self, other: &Self) -> bool {
        self.alike(*other)
    }
}

} // verus!
