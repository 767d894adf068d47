//! Laws of the normalizer, stated over the models that the `convert_*`
//! functions are proved to compute.
use vstd::prelude::*;
use crate::canonical::{DeclModel, ExprModel, FileAst, StmtModel, SCHEMA_VERSION};
use crate::decl::{field_model, fields_model, file_model, item_model, methods_model, param_model, params_model};
use crate::expr::{expr_model, exprs_model, op_spelling};
use crate::native::{NativeBinOp, NativeExpr, NativeField, NativeFields, NativeFile, NativeFnArg, NativeImplItem, NativeItem, NativeStmt};
use crate::stmt::{block_model, stmt_model};

verus! {

// ----- determinism -----

/// Normalization is a function of the native tree: two runs on equal trees
/// give documents of the same version with the same declarations.
pub proof fn lemma_deterministic(f: NativeFile, g: NativeFile, d1: FileAst, d2: FileAst)
    requires
        f == g,
        d1.version == SCHEMA_VERSION,
        d1.view() == file_model(f.items@),
        d2.version == SCHEMA_VERSION,
        d2.view() == file_model(g.items@),
    ensures
        d1.version == d2.version,
        d1.view() == d2.view(),
{
}

// ----- empty implementation blocks -----

/// No implementation block without methods appears in a document.
pub proof fn lemma_no_empty_impl(items: Seq<NativeItem>)
    ensures
        forall|k: int|
            0 <= k < file_model(items).len() && (#[trigger] file_model(items)[k]) is Impl
                ==> file_model(items)[k]->Impl_methods.len() > 0,
    decreases items.len(),
{
    if items.len() > 0 {
        lemma_no_empty_impl(items.drop_last());
    }
}

// ----- receivers -----

/// Removing a receiver from a parameter list leaves the normalized
/// parameters unchanged: no parameter ever stands for a receiver.
pub proof fn lemma_receiver_excluded(inputs: Seq<NativeFnArg>, k: int)
    requires
        0 <= k < inputs.len(),
        inputs[k] is Receiver,
    ensures
        params_model(inputs) == params_model(inputs.remove(k)),
{
    let a = inputs.subrange(0, k);
    let b = inputs.subrange(k + 1, inputs.len() as int);
    let r = seq![inputs[k]];
    assert(inputs =~= a + r + b);
    assert(inputs.remove(k) =~= a + b);
    lemma_params_order(a + r, b);
    lemma_params_order(a, r);
    lemma_params_order(a, b);
    assert(r.drop_last() =~= Seq::<NativeFnArg>::empty());
    assert(params_model(r.drop_last()) =~= Seq::empty());
    assert(param_model(r.last()) is None);
    assert(params_model(r) =~= Seq::empty());
    assert(params_model(a) + Seq::empty() =~= params_model(a));
}

// ----- the operator table -----

/// The twelve operators of the canonical table.
pub open spec fn is_canonical_op(op: NativeBinOp) -> bool {
    match op {
        NativeBinOp::Add | NativeBinOp::Sub | NativeBinOp::Mul | NativeBinOp::Div
        | NativeBinOp::Eq | NativeBinOp::Ne | NativeBinOp::Lt | NativeBinOp::Gt
        | NativeBinOp::Le | NativeBinOp::Ge | NativeBinOp::And | NativeBinOp::Or => true,
        _ => false,
    }
}

/// The token that spells an operator in source text (`Other` has none and
/// reads as the empty text).
pub open spec fn op_token(op: NativeBinOp) -> Seq<char> {
    match op {
        NativeBinOp::Add => "+"@,
        NativeBinOp::Sub => "-"@,
        NativeBinOp::Mul => "*"@,
        NativeBinOp::Div => "/"@,
        NativeBinOp::Rem => "%"@,
        NativeBinOp::And => "&&"@,
        NativeBinOp::Or => "||"@,
        NativeBinOp::BitXor => "^"@,
        NativeBinOp::BitAnd => "&"@,
        NativeBinOp::BitOr => "|"@,
        NativeBinOp::Shl => "<<"@,
        NativeBinOp::Shr => ">>"@,
        NativeBinOp::Eq => "=="@,
        NativeBinOp::Lt => "<"@,
        NativeBinOp::Le => "<="@,
        NativeBinOp::Ne => "!="@,
        NativeBinOp::Ge => ">="@,
        NativeBinOp::Gt => ">"@,
        NativeBinOp::AddAssign => "+="@,
        NativeBinOp::SubAssign => "-="@,
        NativeBinOp::MulAssign => "*="@,
        NativeBinOp::DivAssign => "/="@,
        NativeBinOp::RemAssign => "%="@,
        NativeBinOp::BitXorAssign => "^="@,
        NativeBinOp::BitAndAssign => "&="@,
        NativeBinOp::BitOrAssign => "|="@,
        NativeBinOp::ShlAssign => "<<="@,
        NativeBinOp::ShrAssign => ">>="@,
        NativeBinOp::Other => Seq::empty(),
    }
}

/// A canonical operator keeps its own token, and that token leads back to
/// it alone; every other operator reads `unknown`, which no canonical
/// operator does.
pub proof fn lemma_operator_table(a: NativeBinOp, b: NativeBinOp)
    ensures
        is_canonical_op(a) ==> op_spelling(a) == op_token(a),
        is_canonical_op(a) ==> op_spelling(a) != "unknown"@,
        !is_canonical_op(a) ==> op_spelling(a) == "unknown"@,
        is_canonical_op(a) && is_canonical_op(b) && op_spelling(a) == op_spelling(b) ==> a == b,
{
    reveal_strlit("+");
    reveal_strlit("-");
    reveal_strlit("*");
    reveal_strlit("/");
    reveal_strlit("==");
    reveal_strlit("!=");
    reveal_strlit("<");
    reveal_strlit(">");
    reveal_strlit("<=");
    reveal_strlit(">=");
    reveal_strlit("&&");
    reveal_strlit("||");
    reveal_strlit("unknown");
    if is_canonical_op(a) && is_canonical_op(b) && op_spelling(a) == op_spelling(b) {
        let sa = op_spelling(a);
        let sb = op_spelling(b);
        assert(sa.len() == sb.len());
        assert(sa[0] == sb[0]);
        if sa.len() > 1 {
            assert(sa[1] == sb[1]);
        }
    }
    if is_canonical_op(a) {
        assert(op_spelling(a).len() != "unknown"@.len());
    }
}

/// A binary expression stays a binary expression, whatever its operator,
/// with the operator's canonical spelling.
pub proof fn lemma_binary_kept(e: NativeExpr)
    requires
        e is Binary,
    ensures
        expr_model(e) is Binary,
        expr_model(e)->Binary_op == op_spelling(e->Binary_op),
{
}

// ----- closed schema -----

/// The operator spellings that a document can hold.
pub open spec fn is_schema_op(s: Seq<char>) -> bool {
    s == "+"@ || s == "-"@ || s == "*"@ || s == "/"@ || s == "=="@ || s == "!="@ || s == "<"@
        || s == ">"@ || s == "<="@ || s == ">="@ || s == "&&"@ || s == "||"@ || s == "unknown"@
}

/// Every binary node of an expression model carries a schema operator.
pub open spec fn expr_ops_closed(e: ExprModel) -> bool
    decreases e,
{
    match e {
        ExprModel::Binary { op, left, right } => is_schema_op(op) && expr_ops_closed(*left)
            && expr_ops_closed(*right),
        ExprModel::Call { args, .. } => forall|i: int|
            0 <= i < args.len() ==> expr_ops_closed(#[trigger] args[i]),
        _ => true,
    }
}

proof fn lemma_exprs_model_index(s: Seq<NativeExpr>, i: int)
    requires
        0 <= i < s.len(),
    ensures
        exprs_model(s).len() == s.len(),
        exprs_model(s)[i] == expr_model(s[i]),
    decreases s.len(),
{
    lemma_exprs_model_len(s);
    if i < s.len() - 1 {
        lemma_exprs_model_index(s.subrange(0, s.len() - 1), i);
    }
}

proof fn lemma_exprs_model_len(s: Seq<NativeExpr>)
    ensures
        exprs_model(s).len() == s.len(),
    decreases s.len(),
{
    if s.len() > 0 {
        lemma_exprs_model_len(s.subrange(0, s.len() - 1));
    }
}

/// Every operator in a normalized expression, however deep, is one of the
/// twelve canonical spellings or `unknown`.
pub proof fn lemma_expr_ops_closed(e: NativeExpr)
    ensures
        expr_ops_closed(expr_model(e)),
    decreases e,
{
    match e {
        NativeExpr::Binary { op, left, right } => {
            lemma_operator_table(op, op);
            lemma_expr_ops_closed(*left);
            lemma_expr_ops_closed(*right);
            reveal_strlit("+");
            reveal_strlit("-");
            reveal_strlit("*");
            reveal_strlit("/");
            reveal_strlit("==");
            reveal_strlit("!=");
            reveal_strlit("<");
            reveal_strlit(">");
            reveal_strlit("<=");
            reveal_strlit(">=");
            reveal_strlit("&&");
            reveal_strlit("||");
            reveal_strlit("unknown");
        },
        NativeExpr::Call { func, func_text, args } => {
            let m = exprs_model(args@);
            lemma_exprs_model_len(args@);
            assert forall|i: int| 0 <= i < m.len() implies expr_ops_closed(#[trigger] m[i]) by {
                lemma_exprs_model_index(args@, i);
                assert(decreases_to!(e => args));
                lemma_expr_ops_closed(args@[i]);
            }
        },
        _ => {},
    }
}

pub open spec fn option_expr_ops_closed(e: Option<ExprModel>) -> bool {
    match e {
        Some(x) => expr_ops_closed(x),
        None => true,
    }
}

/// Every operator under a statement model is a schema operator.
pub open spec fn stmt_ops_closed(s: StmtModel) -> bool
    decreases s,
{
    match s {
        StmtModel::Let { value, .. } => option_expr_ops_closed(value),
        StmtModel::Assign { value, .. } => expr_ops_closed(value),
        StmtModel::If { condition, then_body, else_body } => expr_ops_closed(condition)
            && (forall|i: int| 0 <= i < then_body.len() ==> stmt_ops_closed(#[trigger] then_body[i]))
            && match else_body {
                Some(b) => forall|i: int| 0 <= i < b.len() ==> stmt_ops_closed(#[trigger] b[i]),
                None => true,
            },
        StmtModel::For { iterable, body, .. } => expr_ops_closed(iterable)
            && forall|i: int| 0 <= i < body.len() ==> stmt_ops_closed(#[trigger] body[i]),
        StmtModel::While { condition, body } => expr_ops_closed(condition)
            && forall|i: int| 0 <= i < body.len() ==> stmt_ops_closed(#[trigger] body[i]),
        StmtModel::Return { value } => option_expr_ops_closed(value),
        StmtModel::Expr { expr } => expr_ops_closed(expr),
    }
}

pub open spec fn body_ops_closed(body: Seq<StmtModel>) -> bool {
    forall|i: int| 0 <= i < body.len() ==> stmt_ops_closed(#[trigger] body[i])
}

/// Every operator under a declaration model is a schema operator.
pub open spec fn decl_ops_closed(d: DeclModel) -> bool {
    match d {
        DeclModel::Struct { .. } => true,
        DeclModel::Impl { methods, .. } => forall|i: int|
            0 <= i < methods.len() ==> body_ops_closed(#[trigger] methods[i].body),
        DeclModel::Function(f) => body_ops_closed(f.body),
    }
}

proof fn lemma_stmt_ops_closed(s: NativeStmt)
    ensures
        stmt_model(s) matches Some(m) ==> stmt_ops_closed(m),
    decreases s,
{
    match s {
        NativeStmt::Local { init, .. } => {
            if let Some(e) = init {
                lemma_expr_ops_closed(e);
            }
        },
        NativeStmt::Expr { expr } => {
            match expr {
                NativeExpr::If(i) => {
                    lemma_expr_ops_closed(*i.cond);
                    assert(decreases_to!(s => i));
                    lemma_block_ops_closed(i.then_branch@);
                    if let Some(b) = i.else_branch {
                        if let NativeExpr::Block { stmts } = *b {
                            lemma_block_ops_closed(stmts@);
                        }
                    }
                },
                NativeExpr::ForLoop(f) => {
                    lemma_expr_ops_closed(*f.expr);
                    lemma_block_ops_closed(f.body@);
                },
                NativeExpr::While(w) => {
                    lemma_expr_ops_closed(*w.cond);
                    lemma_block_ops_closed(w.body@);
                },
                NativeExpr::Return { expr: value } => {
                    if let Some(v) = value {
                        lemma_expr_ops_closed(*v);
                    }
                },
                NativeExpr::Assign { right, .. } => {
                    lemma_expr_ops_closed(*right);
                },
                _ => {
                    lemma_expr_ops_closed(expr);
                },
            }
        },
        NativeStmt::Other => {},
    }
}

proof fn lemma_block_ops_closed(s: Seq<NativeStmt>)
    ensures
        body_ops_closed(block_model(s)),
    decreases s,
{
    if s.len() > 0 {
        lemma_block_ops_closed(s.subrange(0, s.len() - 1));
        lemma_stmt_ops_closed(s[s.len() - 1]);
    }
}

proof fn lemma_methods_ops_closed(s: Seq<NativeImplItem>)
    ensures
        forall|i: int|
            0 <= i < methods_model(s).len() ==> body_ops_closed(#[trigger] methods_model(s)[i].body),
    decreases s.len(),
{
    if s.len() > 0 {
        lemma_methods_ops_closed(s.drop_last());
        let prev = methods_model(s.drop_last());
        if let NativeImplItem::Fn { method } = s.last() {
            lemma_block_ops_closed(method.block@);
            let all = methods_model(s);
            assert forall|i: int| 0 <= i < all.len() implies body_ops_closed(#[trigger] all[i].body) by {
                if i < prev.len() {
                    assert(all[i] == prev[i]);
                }
            }
        }
    }
}

/// Every operator anywhere in a document, however deep, is one of the
/// twelve canonical spellings or `unknown`.
pub proof fn lemma_document_ops_closed(items: Seq<NativeItem>)
    ensures
        forall|k: int| 0 <= k < file_model(items).len() ==> decl_ops_closed(#[trigger] file_model(items)[k]),
    decreases items.len(),
{
    if items.len() > 0 {
        lemma_document_ops_closed(items.drop_last());
        let prev = file_model(items.drop_last());
        match items.last() {
            NativeItem::Impl(b) => lemma_methods_ops_closed(b.items@),
            NativeItem::Fn(f) => lemma_block_ops_closed(f.block@),
            _ => {},
        }
        let all = file_model(items);
        assert forall|k: int| 0 <= k < all.len() implies decl_ops_closed(#[trigger] all[k]) by {
            if k < prev.len() {
                assert(all[k] == prev[k]);
            }
        }
    }
}

// ----- order -----

/// Parameter order is kept: the parameters of two argument lists in a row
/// are those of the first, then those of the second.
pub proof fn lemma_params_order(a: Seq<NativeFnArg>, b: Seq<NativeFnArg>)
    ensures
        params_model(a + b) == params_model(a) + params_model(b),
    decreases b.len(),
{
    if b.len() == 0 {
        assert(a + b =~= a);
        assert(params_model(a) + Seq::empty() =~= params_model(a));
    } else {
        lemma_params_order(a, b.drop_last());
        assert((a + b).drop_last() =~= a + b.drop_last());
        assert((a + b).last() == b.last());
        match param_model(b.last()) {
            Some(p) => {
                assert(params_model(a) + params_model(b.drop_last()).push(p)
                    =~= (params_model(a) + params_model(b.drop_last())).push(p));
            },
            None => {},
        }
    }
}

/// Field order is kept: the fields of a struct are its named fields, one for
/// one, in declaration order.
pub proof fn lemma_fields_order(fields: Vec<NativeField>)
    ensures
        fields_model(NativeFields::Named { fields }).len() == fields.len(),
        forall|k: int|
            0 <= k < fields.len() ==> #[trigger] fields_model(NativeFields::Named { fields })[k]
                == field_model(fields@[k]),
{
}

/// Method order is kept within an implementation block.
pub proof fn lemma_methods_order(a: Seq<NativeImplItem>, b: Seq<NativeImplItem>)
    ensures
        methods_model(a + b) == methods_model(a) + methods_model(b),
    decreases b.len(),
{
    if b.len() == 0 {
        assert(a + b =~= a);
        assert(methods_model(a) + Seq::empty() =~= methods_model(a));
    } else {
        lemma_methods_order(a, b.drop_last());
        assert((a + b).drop_last() =~= a + b.drop_last());
        assert((a + b).last() == b.last());
        let p = methods_model(a);
        let q = methods_model(b.drop_last());
        match b.last() {
            NativeImplItem::Fn { method } => {
                assert(p + q.push(crate::decl::function_model(method)) =~= (p + q).push(
                    crate::decl::function_model(method),
                ));
            },
            NativeImplItem::Other => {},
        }
    }
}

/// Statement order is kept: the statements of two blocks in a row are those
/// of the first, then those of the second.
pub proof fn lemma_block_order(a: Seq<NativeStmt>, b: Seq<NativeStmt>)
    ensures
        block_model(a + b) == block_model(a) + block_model(b),
    decreases b.len(),
{
    if b.len() == 0 {
        assert(a + b =~= a);
        assert(block_model(a) + Seq::empty() =~= block_model(a));
    } else {
        let ab = a + b;
        lemma_block_order(a, b.subrange(0, b.len() - 1));
        assert(ab.subrange(0, ab.len() - 1) =~= a + b.subrange(0, b.len() - 1));
        assert(ab[ab.len() - 1] == b[b.len() - 1]);
        let p = block_model(a);
        let q = block_model(b.subrange(0, b.len() - 1));
        match stmt_model(b[b.len() - 1]) {
            Some(x) => {
                assert(p + q.push(x) =~= (p + q).push(x));
            },
            None => {},
        }
    }
}

/// Declaration order is kept: the declarations of two item lists in a row
/// are those of the first, then those of the second.
pub proof fn lemma_file_order(a: Seq<NativeItem>, b: Seq<NativeItem>)
    ensures
        file_model(a + b) == file_model(a) + file_model(b),
    decreases b.len(),
{
    if b.len() == 0 {
        assert(a + b =~= a);
        assert(file_model(a) + Seq::empty() =~= file_model(a));
    } else {
        lemma_file_order(a, b.drop_last());
        assert((a + b).drop_last() =~= a + b.drop_last());
        assert((a + b).last() == b.last());
        let p = file_model(a);
        let q = file_model(b.drop_last());
        match item_model(b.last()) {
            Some(d) => {
                assert(p + q.push(d) =~= (p + q).push(d));
            },
            None => {},
        }
    }
}

} // verus!
