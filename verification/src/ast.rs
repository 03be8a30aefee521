//! The syntax tree that the evaluator walks.

use crate::text::{signed_decimal, signed_decimal_text};
use vstd::prelude::*;

verus! {

/// A binary operator of the syntax tree.
#[derive(Clone, Copy, Debug, PartialEq, Eq, Structural)]
pub enum Op {
    Plus,
    Minus,
    Times,
    DivBy,
    Assign,
}

/// An expression or a statement.
#[derive(Debug, PartialEq, Eq)]
pub enum AST {
    /// An integer constant.
    Value(i32),
    /// The use of a variable.
    ID(String),
    /// An operator between two operands.
    BinOp(Box<AST>, Op, Box<AST>),
    /// The declaration of a variable.
    Decl(String),
    /// Statements in sequence.
    ASTs(Vec<Box<AST>>),
}

impl Op {
    /// The operator as it is written.
    pub open spec fn text(self) -> Seq<char> {
        match self {
            Op::Plus => "+"@,
            Op::Minus => "-"@,
            Op::Times => "*"@,
            Op::DivBy => "/"@,
            Op::Assign => ":="@,
        }
    }

    /// Writes the operator.
    pub fn render(&self) -> (text: String)
        ensures
            text@ == self.text(),
    {
        match self {
            Op::Plus => "+".to_owned(),
            Op::Minus => "-".to_owned(),
            Op::Times => "*".to_owned(),
            Op::DivBy => "/".to_owned(),
            Op::Assign => ":=".to_owned(),
        }
    }
}

/// The text of the statements from index `i` on, each closed by a
/// semicolon.
pub open spec fn statements_text(statements: Seq<Box<AST>>, i: int) -> Seq<char>
    decreases statements, statements.len() - i,
{
    if 0 <= i < statements.len() {
        statements[i].text() + ";"@ + statements_text(statements, i + 1)
    } else {
        Seq::empty()
    }
}

impl AST {
    /// The tree as source text: an operation in brackets, a declaration
    /// behind `let`, statements closed by semicolons.
    pub open spec fn text(self) -> Seq<char>
        decreases self, 0int,
    {
        match self {
            AST::Value(value) => signed_decimal(value as int),
            AST::ID(name) => name@,
            AST::BinOp(lhs, op, rhs) => "("@ + lhs.text() + " "@ + op.text() + " "@ + rhs.text()
                + ")"@,
            AST::Decl(name) => "let "@ + name@,
            AST::ASTs(statements) => statements_text(statements@, 0),
        }
    }

    /// Writes the tree as source text.
    pub fn render(&self) -> (text: String)
        ensures
            text@ == self.text(),
        decreases self,
    {
        match self {
            AST::Value(value) => signed_decimal_text(*value),
            AST::ID(name) => name.clone(),
            AST::BinOp(lhs, op, rhs) => {
                let mut text = "(".to_owned();
                text.append(lhs.render().as_str());
                text.append(" ");
                text.append(op.render().as_str());
                text.append(" ");
                text.append(rhs.render().as_str());
                text.append(")");
                text
            },
            AST::Decl(name) => {
                let mut text = "let ".to_owned();
                text.append(name.as_str());
                text
            },
            AST::ASTs(asts) => {
                let mut text = String::new();
                let mut i: usize = 0;
                while i < asts.len()
                    invariant
                        0 <= i <= asts.len(),
                        *self matches AST::ASTs(statements) && statements == *asts,
                        text@ + statements_text(asts@, i as int) == statements_text(asts@, 0),
                    decreases asts.len() - i,
                {
                    proof {
                        vstd::std_specs::vec::axiom_vec_index_decreases(*asts, i as int);
                    }
                    let ghost before = text@;
                    let statement: &AST = &asts[i];
                    text.append(statement.render().as_str());
                    text.append(";");
                    proof {
                        assert(text@ + statements_text(asts@, i + 1) =~= before + statements_text(
                            asts@,
                            i as int,
                        ));
                    }
                    i += 1;
                }
                proof {
                    assert(text@ + statements_text(asts@, i as int) =~= text@);
                }
                text
            },
        }
    }
}

} // verus!
