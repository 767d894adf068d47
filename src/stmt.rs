//! The statement normalizer: statements and blocks.
use vstd::prelude::*;
use vstd::string::*;
use crate::canonical::{statements_view, option_expression_view, Statement, StmtModel};
use crate::expr::{convert_expr, expr_model, expr_to_string, option_expr_model, rendered_text};
use crate::native::{NativeExpr, NativeForLoop, NativeIf, NativePat, NativeStmt, NativeWhile};

verus! {

/// The name bound by a pattern: the identifier itself, or `fallback` for any
/// other pattern.
pub open spec fn pat_name(p: NativePat, fallback: Seq<char>) -> Seq<char> {
    match p {
        NativePat::Ident { name } => name@,
        NativePat::Other => fallback,
    }
}

/// What a native statement normalizes to: `None` for a kind outside the
/// canonical schema.
pub open spec fn stmt_model(s: NativeStmt) -> Option<StmtModel>
    decreases s,
{
    match s {
        NativeStmt::Local { pat, init } => Some(StmtModel::Let {
            name: pat_name(pat, "unknown"@),
            value: option_expr_model(init),
        }),
        NativeStmt::Expr { expr } => Some(
            match expr {
                NativeExpr::If(i) => if_model(i),
                NativeExpr::ForLoop(f) => for_model(f),
                NativeExpr::While(w) => while_model(w),
                NativeExpr::Return { expr: value } => StmtModel::Return {
                    value: match value {
                        Some(v) => Some(expr_model(*v)),
                        None => None,
                    },
                },
                NativeExpr::Assign { left, left_text, right } => StmtModel::Assign {
                    target: rendered_text(*left, left_text@),
                    value: expr_model(*right),
                },
                _ => StmtModel::Expr { expr: expr_model(expr) },
            },
        ),
        NativeStmt::Other => None,
    }
}

/// A conditional: the `else` branch is kept only when it is a plain block.
pub open spec fn if_model(i: NativeIf) -> StmtModel
    decreases i,
{
    StmtModel::If {
        condition: expr_model(*i.cond),
        then_body: block_model(i.then_branch@),
        else_body: match i.else_branch {
            Some(b) => match *b {
                NativeExpr::Block { stmts } => Some(block_model(stmts@)),
                _ => None,
            },
            None => None,
        },
    }
}

/// A counted loop: a non-identifier loop pattern is named `it`.
pub open spec fn for_model(f: NativeForLoop) -> StmtModel
    decreases f,
{
    StmtModel::For {
        iterator: pat_name(f.pat, "it"@),
        iterable: expr_model(*f.expr),
        body: block_model(f.body@),
    }
}

pub open spec fn while_model(w: NativeWhile) -> StmtModel
    decreases w,
{
    StmtModel::While { condition: expr_model(*w.cond), body: block_model(w.body@) }
}

/// What a block normalizes to: its statements in order, without those
/// outside the canonical schema.
pub open spec fn block_model(s: Seq<NativeStmt>) -> Seq<StmtModel>
    decreases s,
{
    if s.len() == 0 {
        Seq::empty()
    } else {
        let prev = block_model(s.subrange(0, s.len() - 1));
        match stmt_model(s[s.len() - 1]) {
            Some(x) => prev.push(x),
            None => prev,
        }
    }
}

pub open spec fn option_statement_view(s: Option<Statement>) -> Option<StmtModel> {
    match s {
        Some(x) => Some(x.view()),
        None => None,
    }
}

fn pat_to_name(p: &NativePat, fallback: &str) -> (r: String)
    ensures
        r@ == pat_name(*p, fallback@),
{
    match p {
        NativePat::Ident { name } => name.clone(),
        NativePat::Other => String::from_str(fallback),
    }
}

/// Normalizes the statements of a block, in order; statements outside the
/// canonical schema are left out.
pub fn convert_block(stmts: &Vec<NativeStmt>) -> (r: Vec<Statement>)
    ensures
        statements_view(r@) == block_model(stmts@),
    decreases stmts,
{
    let mut out: Vec<Statement> = Vec::new();
    let mut i: usize = 0;
    while i < stmts.len()
        invariant
            i <= stmts.len(),
            statements_view(out@) == block_model(stmts@.subrange(0, i as int)),
        decreases stmts.len() - i,
    {
        proof {
            assert(decreases_to!(*stmts => stmts[i as int]));
        }
        let converted = convert_statement(&stmts[i]);
        let ghost prev = out@;
        match converted {
            Some(st) => {
                out.push(st);
                proof {
                    assert(out@.subrange(0, out@.len() - 1) =~= prev);
                }
            },
            None => {},
        }
        i += 1;
        proof {
            assert(stmts@.subrange(0, i as int).subrange(0, i - 1) =~= stmts@.subrange(0, i - 1));
        }
    }
    proof {
        assert(stmts@.subrange(0, i as int) =~= stmts@);
    }
    out
}

/// Normalizes one statement; `None` for a kind outside the canonical schema.
pub fn convert_statement(stmt: &NativeStmt) -> (r: Option<Statement>)
    ensures
        option_statement_view(r) == stmt_model(*stmt),
    decreases stmt,
{
    match stmt {
        NativeStmt::Local { pat, init } => {
            let name = pat_to_name(pat, "unknown");
            let value = match init {
                Some(e) => Some(convert_expr(e)),
                None => None,
            };
            proof {
                assert(option_expression_view(value) == option_expr_model(*init));
            }
            Some(Statement::Let { name, value })
        },
        NativeStmt::Expr { expr } => {
            let st = match expr {
                NativeExpr::If(i) => convert_if(i),
                NativeExpr::ForLoop(f) => convert_for(f),
                NativeExpr::While(w) => convert_while(w),
                NativeExpr::Return { expr: value } => {
                    let v = match value {
                        Some(x) => Some(convert_expr(x)),
                        None => None,
                    };
                    Statement::Return { value: v }
                },
                NativeExpr::Assign { left, left_text, right } => {
                    let target = expr_to_string(left, left_text);
                    let value = convert_expr(right);
                    Statement::Assign { target, value }
                },
                _ => Statement::Expr { expr: convert_expr(expr) },
            };
            Some(st)
        },
        NativeStmt::Other => None,
    }
}

/// Normalizes a conditional; an `else if` chain is not unwrapped.
pub fn convert_if(expr_if: &NativeIf) -> (r: Statement)
    ensures
        r.view() == if_model(*expr_if),
    decreases expr_if,
{
    let condition = convert_expr(&expr_if.cond);
    let then_body = convert_block(&expr_if.then_branch);
    let else_body = match &expr_if.else_branch {
        Some(b) => match &**b {
            NativeExpr::Block { stmts } => {
                proof {
                    assert(decreases_to!(*expr_if => expr_if.else_branch));
                }
                Some(convert_block(stmts))
            },
            _ => None,
        },
        None => None,
    };
    Statement::If { condition, then_body, else_body }
}

/// Normalizes a counted loop.
pub fn convert_for(expr_for: &NativeForLoop) -> (r: Statement)
    ensures
        r.view() == for_model(*expr_for),
    decreases expr_for,
{
    let iterator = pat_to_name(&expr_for.pat, "it");
    let iterable = convert_expr(&expr_for.expr);
    let body = convert_block(&expr_for.body);
    Statement::For { iterator, iterable, body }
}

/// Normalizes a conditional loop.
pub fn convert_while(expr_while: &NativeWhile) -> (r: Statement)
    ensures
        r.view() == while_model(*expr_while),
    decreases expr_while,
{
    let condition = convert_expr(&expr_while.cond);
    let body = convert_block(&expr_while.body);
    Statement::While { condition, body }
}

} // verus!
