//! The evaluator: walks a syntax tree over an environment of variables.

use crate::ast::{Op, AST};
use vstd::hash_map::StringHashMap;
use vstd::prelude::*;

verus! {

/// The variables and their values, by name.
pub type Env = Map<Seq<char>, i32>;

/// The quotient of `a` by `b`, rounded toward zero.
pub open spec fn quotient(a: int, b: int) -> int
    recommends
        b != 0,
{
    if a >= 0 && b > 0 {
        a / b
    } else if a < 0 && b < 0 {
        (-a) / (-b)
    } else if a < 0 {
        -((-a) / b)
    } else {
        -(a / (-b))
    }
}

/// The quotient is what machine division computes. It is no larger in
/// magnitude than the dividend, and as large only for a divisor of one or
/// minus one.
proof fn lemma_quotient(a: int, b: int)
    requires
        b != 0,
    ensures
        quotient(a, b) == (if a >= 0 {
            a / b
        } else {
            -((-a) / b)
        }),
        a >= 0 ==> -a <= quotient(a, b) <= a,
        a < 0 && b > 0 ==> a <= quotient(a, b) <= 0,
        a < 0 && b == -1 ==> quotient(a, b) == -a,
        a < 0 && b < -1 ==> 0 <= quotient(a, b) < -a,
{
    let p = if a >= 0 {
        a
    } else {
        -a
    };
    let d = if b > 0 {
        b
    } else {
        -b
    };
    vstd::arithmetic::div_mod::lemma_div_pos_is_pos(p, d);
    vstd::arithmetic::div_mod::lemma_div_nonincreasing(p, d);
    if p > 0 && d > 1 {
        vstd::arithmetic::div_mod::lemma_div_decreases(p, d);
    }
    if d == 1 {
        vstd::arithmetic::div_mod::lemma_div_basics(p);
    }
    assert(p / (-d) == -(p / d)) by (nonlinear_arith)
        requires
            p >= 0,
            d > 0,
    ;
}

/// The result of an arithmetic operator on `a` and `b`: `None` where the
/// result does not fit the value type or the divisor is zero.
pub open spec fn arithmetic(op: Op, a: i32, b: i32) -> Option<i32>
    recommends
        op != Op::Assign,
{
    let exact = match op {
        Op::Plus => a + b,
        Op::Minus => a - b,
        Op::Times => a * b,
        _ => quotient(a as int, b as int),
    };
    if op == Op::DivBy && b == 0 {
        None
    } else if i32::MIN <= exact <= i32::MAX {
        Some(exact as i32)
    } else {
        None
    }
}

/// Computes `arithmetic`.
fn checked_arithmetic(op: Op, a: i32, b: i32) -> (value: Option<i32>)
    requires
        op != Op::Assign,
    ensures
        value == arithmetic(op, a, b),
{
    match op {
        Op::Plus => a.checked_add(b),
        Op::Minus => a.checked_sub(b),
        Op::Times => a.checked_mul(b),
        _ => {
            if b == 0 {
                None
            } else {
                proof {
                    lemma_quotient(a as int, b as int);
                }
                if a == i32::MIN && b == -1 {
                    None
                } else {
                    Some(a / b)
                }
            }
        },
    }
}

/// The value of the variable `name`: zero where it has none.
pub open spec fn lookup(env: Env, name: Seq<char>) -> i32 {
    if env.contains_key(name) {
        env[name]
    } else {
        0
    }
}

/// The environment after `value` is assigned to `target`: only a variable
/// takes a value; any other target leaves the environment as it is.
pub open spec fn assigned(env: Env, target: AST, value: i32) -> Env {
    match target {
        AST::ID(name) => env.insert(name@, value),
        _ => env,
    }
}

/// How an evaluation ends.
pub struct Outcome {
    /// The value; `None` where the evaluation broke off: on an arithmetic
    /// result that does not fit the value type, a division by zero, or a
    /// sequence without statements.
    pub value: Option<i32>,
    /// The environment at the end, or where the evaluation broke off.
    pub env: Env,
}

/// The evaluation of `ast` in `env`. Operands are evaluated from left to
/// right, each in the environment that the one before it left; what has
/// broken off evaluates nothing further.
pub open spec fn evaluate(ast: AST, env: Env) -> Outcome
    decreases ast, 0int,
{
    match ast {
        AST::Value(value) => Outcome { value: Some(value), env },
        AST::ID(name) => Outcome { value: Some(lookup(env, name@)), env },
        AST::BinOp(lhs, Op::Assign, rhs) => {
            let right = evaluate(*rhs, env);
            match right.value {
                Some(value) => Outcome {
                    value: Some(0i32),
                    env: assigned(right.env, *lhs, value),
                },
                None => right,
            }
        },
        AST::BinOp(lhs, op, rhs) => {
            let left = evaluate(*lhs, env);
            if left.value is None {
                left
            } else {
                let right = evaluate(*rhs, left.env);
                if right.value is None {
                    right
                } else {
                    Outcome {
                        value: arithmetic(op, left.value->0, right.value->0),
                        env: right.env,
                    }
                }
            }
        },
        AST::Decl(name) => Outcome { value: Some(0i32), env: env.insert(name@, 0i32) },
        AST::ASTs(statements) => evaluate_from(statements@, 0, env),
    }
}

/// The evaluation of the statements from index `i` on, in order: its value
/// is that of the last statement. No statement at all is no value.
pub open spec fn evaluate_from(statements: Seq<Box<AST>>, i: int, env: Env) -> Outcome
    decreases statements, statements.len() - i,
{
    if 0 <= i < statements.len() {
        let first = evaluate(*statements[i], env);
        if first.value is None || i + 1 == statements.len() {
            first
        } else {
            evaluate_from(statements, i + 1, first.env)
        }
    } else {
        Outcome { value: None, env }
    }
}

/// An evaluator with its environment.
pub struct Interpreter {
    env: StringHashMap<i32>,
}

impl View for Interpreter {
    type V = Env;

    closed spec fn view(&self) -> Env {
        self.env@
    }
}

impl Interpreter {
    /// An evaluator in whose environment no variable has a value.
    pub fn new() -> (interpreter: Interpreter)
        ensures
            interpreter@ == Map::<Seq<char>, i32>::empty(),
    {
        Interpreter { env: StringHashMap::new() }
    }

    /// Evaluates `ast` and returns its value; the environment takes every
    /// declaration and assignment on the way. For a tree whose evaluation
    /// does not break off.
    pub fn eval(&mut self, ast: &AST) -> (value: i32)
        requires
            evaluate(*ast, old(self)@).value is Some,
        ensures
            evaluate(*ast, old(self)@) == (Outcome { value: Some(value), env: final(self)@ }),
        decreases ast,
    {
        match ast {
            AST::Value(val) => *val,
            AST::ID(name) => match self.env.get(name.as_str()) {
                Some(value) => *value,
                None => 0,
            },
            AST::BinOp(lhs, op, rhs) => match op {
                Op::Plus => {
                    let a: i32 = self.eval(lhs);
                    let b: i32 = self.eval(rhs);
                    a + b
                },
                Op::Minus => {
                    let a: i32 = self.eval(lhs);
                    let b: i32 = self.eval(rhs);
                    a - b
                },
                Op::Times => {
                    let a: i32 = self.eval(lhs);
                    let b: i32 = self.eval(rhs);
                    a * b
                },
                Op::DivBy => {
                    let a: i32 = self.eval(lhs);
                    let b: i32 = self.eval(rhs);
                    proof {
                        lemma_quotient(a as int, b as int);
                    }
                    a / b
                },
                Op::Assign => {
                    let value: i32 = self.eval(rhs);
                    self.assign(lhs, value);
                    0
                },
            },
            AST::Decl(name) => {
                self.env.insert(name.clone(), 0);
                0
            },
            AST::ASTs(asts) => {
                let mut i: usize = 0;
                while i + 1 < asts.len()
                    invariant
                        0 <= i < asts.len(),
                        *ast == AST::ASTs(*asts),
                        evaluate_from(asts@, i as int, self@) == evaluate(*ast, old(self)@),
                        evaluate(*ast, old(self)@).value is Some,
                    decreases asts.len() - i,
                {
                    proof {
                        vstd::std_specs::vec::axiom_vec_index_decreases(*asts, i as int);
                    }
                    self.eval(&asts[i]);
                    i += 1;
                }
                proof {
                    vstd::std_specs::vec::axiom_vec_index_decreases(*asts, i as int);
                }
                self.eval(&asts[i])
            },
        }
    }

    /// Evaluates `ast` as `eval` does, for any tree: returns `None` where
    /// the evaluation breaks off, and the value otherwise. Where it breaks
    /// off, the environment keeps what was declared and assigned up to then.
    pub fn checked_eval(&mut self, ast: &AST) -> (value: Option<i32>)
        ensures
            evaluate(*ast, old(self)@) == (Outcome { value, env: final(self)@ }),
        decreases ast,
    {
        match ast {
            AST::Value(val) => Some(*val),
            AST::ID(name) => match self.env.get(name.as_str()) {
                Some(value) => Some(*value),
                None => Some(0),
            },
            AST::BinOp(lhs, op, rhs) => match op {
                Op::Assign => match self.checked_eval(rhs) {
                    Some(value) => {
                        self.assign(lhs, value);
                        Some(0)
                    },
                    None => None,
                },
                _ => match self.checked_eval(lhs) {
                    Some(a) => match self.checked_eval(rhs) {
                        Some(b) => checked_arithmetic(*op, a, b),
                        None => None,
                    },
                    None => None,
                },
            },
            AST::Decl(name) => {
                self.env.insert(name.clone(), 0);
                Some(0)
            },
            AST::ASTs(asts) => {
                if asts.len() == 0 {
                    assert(evaluate_from(asts@, 0, self@).value is None);
                    return None;
                }
                let mut i: usize = 0;
                while i + 1 < asts.len()
                    invariant
                        0 <= i < asts.len(),
                        *ast == AST::ASTs(*asts),
                        evaluate_from(asts@, i as int, self@) == evaluate(*ast, old(self)@),
                    decreases asts.len() - i,
                {
                    proof {
                        vstd::std_specs::vec::axiom_vec_index_decreases(*asts, i as int);
                    }
                    if self.checked_eval(&asts[i]).is_none() {
                        return None;
                    }
                    i += 1;
                }
                proof {
                    vstd::std_specs::vec::axiom_vec_index_decreases(*asts, i as int);
                }
                self.checked_eval(&asts[i])
            },
        }
    }

    /// Gives the variable that `lhs` names the value `value`. A target that
    /// is no variable is passed over.
    fn assign(&mut self, lhs: &AST, value: i32)
        ensures
            final(self)@ == assigned(old(self)@, *lhs, value),
    {
        if let AST::ID(name) = lhs {
            self.env.insert(name.clone(), value);
        }
    }
}

} // verus!
