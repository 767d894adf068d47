//! Expressions: the operator table, path joining, and the expression normalizer.
use vstd::prelude::*;
use vstd::string::*;
use crate::canonical::{expressions_view, ExprModel, Expression};
use crate::native::{NativeBinOp, NativeExpr};

verus! {

/// The canonical spelling of a native operator: the twelve canonical
/// operators keep their own token, every other operator reads `unknown`.
pub open spec fn op_spelling(op: NativeBinOp) -> Seq<char> {
    match op {
        NativeBinOp::Add => "+"@,
        NativeBinOp::Sub => "-"@,
        NativeBinOp::Mul => "*"@,
        NativeBinOp::Div => "/"@,
        NativeBinOp::Eq => "=="@,
        NativeBinOp::Ne => "!="@,
        NativeBinOp::Lt => "<"@,
        NativeBinOp::Gt => ">"@,
        NativeBinOp::Le => "<="@,
        NativeBinOp::Ge => ">="@,
        NativeBinOp::And => "&&"@,
        NativeBinOp::Or => "||"@,
        _ => "unknown"@,
    }
}

/// The segments of a path joined by `::`.
pub open spec fn join_path(s: Seq<String>) -> Seq<char>
    decreases s.len(),
{
    if s.len() == 0 {
        Seq::empty()
    } else if s.len() == 1 {
        s[0]@
    } else {
        join_path(s.drop_last()) + "::"@ + s.last()@
    }
}

/// The text of an expression that is only ever printed (a callee, an
/// assignment target): a path is joined by `::`, anything else keeps the
/// front-end's printing `text`.
pub open spec fn rendered_text(e: NativeExpr, text: Seq<char>) -> Seq<char> {
    match e {
        NativeExpr::Path { segments } => join_path(segments@),
        _ => text,
    }
}

pub open spec fn unknown_ident() -> ExprModel {
    ExprModel::Ident { name: "unknown"@ }
}

/// What a native expression normalizes to.
pub open spec fn expr_model(e: NativeExpr) -> ExprModel
    decreases e,
{
    match e {
        NativeExpr::Binary { op, left, right } => ExprModel::Binary {
            op: op_spelling(op),
            left: Box::new(expr_model(*left)),
            right: Box::new(expr_model(*right)),
        },
        NativeExpr::Path { segments } => ExprModel::Ident { name: join_path(segments@) },
        NativeExpr::Lit { spelling } => ExprModel::Literal { value: spelling@ },
        NativeExpr::Call { func, func_text, args } => ExprModel::Call {
            function: rendered_text(*func, func_text@),
            args: exprs_model(args@),
        },
        _ => unknown_ident(),
    }
}

/// What a sequence of native expressions normalizes to, element by element.
pub open spec fn exprs_model(s: Seq<NativeExpr>) -> Seq<ExprModel>
    decreases s,
{
    if s.len() == 0 {
        Seq::empty()
    } else {
        exprs_model(s.subrange(0, s.len() - 1)).push(expr_model(s[s.len() - 1]))
    }
}

pub open spec fn option_expr_model(e: Option<NativeExpr>) -> Option<ExprModel> {
    match e {
        Some(x) => Some(expr_model(x)),
        None => None,
    }
}

/// Looks an operator up in the canonical table.
pub fn binary_op_text(op: NativeBinOp) -> (r: String)
    ensures
        r@ == op_spelling(op),
{
    let s: &str = match op {
        NativeBinOp::Add => "+",
        NativeBinOp::Sub => "-",
        NativeBinOp::Mul => "*",
        NativeBinOp::Div => "/",
        NativeBinOp::Eq => "==",
        NativeBinOp::Ne => "!=",
        NativeBinOp::Lt => "<",
        NativeBinOp::Gt => ">",
        NativeBinOp::Le => "<=",
        NativeBinOp::Ge => ">=",
        NativeBinOp::And => "&&",
        NativeBinOp::Or => "||",
        _ => "unknown",
    };
    String::from_str(s)
}

/// Joins the segments of a path with `::`.
pub fn path_to_string(segments: &Vec<String>) -> (r: String)
    ensures
        r@ == join_path(segments@),
{
    let mut out = String::new();
    let mut i: usize = 0;
    while i < segments.len()
        invariant
            i <= segments.len(),
            out@ == join_path(segments@.subrange(0, i as int)),
        decreases segments.len() - i,
    {
        let ghost before = segments@.subrange(0, i as int);
        if i > 0 {
            out.append("::");
        }
        out.append(segments[i].as_str());
        i += 1;
        proof {
            let now = segments@.subrange(0, i as int);
            assert(now.drop_last() =~= before);
            if i == 1 {
                assert(out@ =~= now[0]@);
            }
        }
    }
    proof {
        assert(segments@.subrange(0, i as int) =~= segments@);
    }
    out
}

/// Renders an expression that is only ever printed: paths are joined,
/// anything else keeps the front-end's printing.
pub fn expr_to_string(e: &NativeExpr, text: &String) -> (r: String)
    ensures
        r@ == rendered_text(*e, text@),
{
    match e {
        NativeExpr::Path { segments } => path_to_string(segments),
        _ => text.clone(),
    }
}

/// Normalizes an expression; kinds outside the canonical schema become the
/// identifier `unknown`.
pub fn convert_expr(e: &NativeExpr) -> (r: Expression)
    ensures
        r.view() == expr_model(*e),
    decreases e,
{
    match e {
        NativeExpr::Binary { op, left, right } => {
            let op_text = binary_op_text(*op);
            let l = convert_expr(left);
            let rt = convert_expr(right);
            Expression::Binary { op: op_text, left: Box::new(l), right: Box::new(rt) }
        },
        NativeExpr::Path { segments } => Expression::Ident { name: path_to_string(segments) },
        NativeExpr::Lit { spelling } => Expression::Literal { value: spelling.clone() },
        NativeExpr::Call { func, func_text, args } => {
            let function = expr_to_string(func, func_text);
            let mut out: Vec<Expression> = Vec::new();
            let mut i: usize = 0;
            while i < args.len()
                invariant
                    *e == (NativeExpr::Call { func: *func, func_text: *func_text, args: *args }),
                    i <= args.len(),
                    expressions_view(out@) == exprs_model(args@.subrange(0, i as int)),
                decreases args.len() - i,
            {
                proof {
                    assert(decreases_to!(*e => (*e)->args));
                    assert(decreases_to!((*e)->args => args[i as int]));
                }
                let a = convert_expr(&args[i]);
                let ghost prev = out@;
                out.push(a);
                i += 1;
                proof {
                    assert(out@.subrange(0, out@.len() - 1) =~= prev);
                    assert(args@.subrange(0, i as int).subrange(0, i - 1) =~= args@.subrange(0, i - 1));
                }
            }
            proof {
                assert(args@.subrange(0, i as int) =~= args@);
            }
            Expression::Call { function, args: out }
        },
        _ => Expression::Ident { name: String::from_str("unknown") },
    }
}

} // verus!
