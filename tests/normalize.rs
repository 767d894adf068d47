use ast_normalizer::canonical::{Expression, Field, FileAst, Function, ItemDecl, Parameter, Statement, SCHEMA_VERSION};
use ast_normalizer::decl::{convert_file, convert_function, convert_impl, convert_params, convert_return_type, convert_struct};
use ast_normalizer::expr::{binary_op_text, convert_expr, expr_to_string, path_to_string};
use ast_normalizer::native::{
    NativeBinOp, NativeExpr, NativeField, NativeFields, NativeFile, NativeFn, NativeFnArg, NativeForLoop, NativeIf,
    NativeImpl, NativeImplItem, NativeItem, NativePat, NativeReturnType, NativeStmt, NativeStruct, NativeWhile,
};
use ast_normalizer::stmt::{convert_block, convert_statement};

fn s(x: &str) -> String {
    x.to_string()
}

fn path(x: &str) -> NativeExpr {
    NativeExpr::Path { segments: x.split("::").map(s).collect() }
}

fn lit(x: &str) -> NativeExpr {
    NativeExpr::Lit { spelling: s(x) }
}

fn bin(op: NativeBinOp, l: NativeExpr, r: NativeExpr) -> NativeExpr {
    NativeExpr::Binary { op, left: Box::new(l), right: Box::new(r) }
}

fn ident(x: &str) -> Expression {
    Expression::Ident { name: s(x) }
}

fn typed(name: &str, ty: &str) -> NativeFnArg {
    NativeFnArg::Typed { pat: NativePat::Ident { name: s(name) }, ty: s(ty) }
}

fn param(name: &str, ty: &str) -> Parameter {
    Parameter { name: s(name), param_type: s(ty) }
}

fn expr_stmt(e: NativeExpr) -> NativeStmt {
    NativeStmt::Expr { expr: e }
}

fn ret(e: NativeExpr) -> NativeStmt {
    expr_stmt(NativeExpr::Return { expr: Some(Box::new(e)) })
}

fn func(name: &str, inputs: Vec<NativeFnArg>, output: NativeReturnType, block: Vec<NativeStmt>) -> NativeFn {
    NativeFn { ident: s(name), inputs, output, block }
}

fn user_struct() -> NativeItem {
    NativeItem::Struct(NativeStruct {
        ident: s("User"),
        fields: NativeFields::Named {
            fields: vec![NativeField { name: s("id"), ty: s("Str") }, NativeField { name: s("age"), ty: s("Num") }],
        },
    })
}

fn add_fn() -> NativeFn {
    func(
        "add",
        vec![typed("x", "Num"), typed("y", "Num")],
        NativeReturnType::Type { ty: s("Num") },
        vec![ret(bin(NativeBinOp::Add, path("x"), path("y")))],
    )
}

fn expected_add() -> Function {
    Function {
        name: s("add"),
        params: vec![param("x", "Num"), param("y", "Num")],
        return_type: s("Num"),
        body: vec![Statement::Return {
            value: Some(Expression::Binary { op: s("+"), left: Box::new(ident("x")), right: Box::new(ident("y")) }),
        }],
    }
}

#[test]
fn struct_with_named_fields() {
    let file = NativeFile { items: vec![user_struct()] };
    let doc = convert_file(&file);
    assert_eq!(
        doc.items,
        vec![ItemDecl::Struct {
            name: s("User"),
            fields: vec![
                Field { name: s("id"), field_type: s("Str") },
                Field { name: s("age"), field_type: s("Num") },
            ],
        }]
    );
}

#[test]
fn function_returning_a_sum() {
    let file = NativeFile { items: vec![NativeItem::Fn(add_fn())] };
    let doc = convert_file(&file);
    assert_eq!(doc.items, vec![ItemDecl::Function(expected_add())]);
}

#[test]
fn impl_without_methods_is_dropped() {
    let empty_impl = NativeItem::Impl(NativeImpl { self_ty: s("User"), items: vec![NativeImplItem::Other] });
    let file = NativeFile { items: vec![user_struct(), empty_impl, NativeItem::Fn(add_fn())] };
    let doc = convert_file(&file);
    assert_eq!(doc.items.len(), 2);
    assert!(doc.items.iter().all(|d| !matches!(d, ItemDecl::Impl { .. })));
    assert_eq!(convert_impl(&NativeImpl { self_ty: s("User"), items: vec![] }), None);
}

#[test]
fn receiver_is_not_a_parameter() {
    let method = func(
        "scale",
        vec![NativeFnArg::Receiver, typed("a", "Num"), typed("b", "Num")],
        NativeReturnType::Default,
        vec![],
    );
    let imp = NativeImpl { self_ty: s("Point"), items: vec![NativeImplItem::Fn { method }] };
    match convert_impl(&imp) {
        Some(ItemDecl::Impl { target, methods }) => {
            assert_eq!(target, "Point");
            assert_eq!(methods.len(), 1);
            assert_eq!(methods[0].params, vec![param("a", "Num"), param("b", "Num")]);
            assert_eq!(methods[0].return_type, "()");
        }
        other => panic!("expected an impl, got {:?}", other),
    }
}

#[test]
fn closure_in_return_degrades_to_unknown() {
    let f = func("make", vec![], NativeReturnType::Default, vec![ret(NativeExpr::Other)]);
    let out = convert_function(&f);
    assert_eq!(out.body, vec![Statement::Return { value: Some(ident("unknown")) }]);
}

#[test]
fn all_twelve_operators_keep_their_spelling() {
    let table = [
        (NativeBinOp::Add, "+"),
        (NativeBinOp::Sub, "-"),
        (NativeBinOp::Mul, "*"),
        (NativeBinOp::Div, "/"),
        (NativeBinOp::Eq, "=="),
        (NativeBinOp::Ne, "!="),
        (NativeBinOp::Lt, "<"),
        (NativeBinOp::Gt, ">"),
        (NativeBinOp::Le, "<="),
        (NativeBinOp::Ge, ">="),
        (NativeBinOp::And, "&&"),
        (NativeBinOp::Or, "||"),
    ];
    for (op, text) in table {
        assert_eq!(binary_op_text(op), text);
    }
}

#[test]
fn other_operators_read_unknown_and_keep_the_node() {
    for op in [NativeBinOp::Rem, NativeBinOp::BitXor, NativeBinOp::Shl, NativeBinOp::AddAssign, NativeBinOp::Other] {
        assert_eq!(binary_op_text(op), "unknown");
        let e = convert_expr(&bin(op, lit("1"), lit("2")));
        assert_eq!(
            e,
            Expression::Binary {
                op: s("unknown"),
                left: Box::new(Expression::Literal { value: s("1") }),
                right: Box::new(Expression::Literal { value: s("2") }),
            }
        );
    }
}

#[test]
fn normalizing_twice_gives_the_same_document() {
    let make = || NativeFile { items: vec![user_struct(), NativeItem::Fn(add_fn()), NativeItem::Other] };
    let a: FileAst = convert_file(&make());
    let b: FileAst = convert_file(&make());
    assert_eq!(a, b);
    assert_eq!(a.version, SCHEMA_VERSION);
}

#[test]
fn declaration_order_is_kept() {
    let g = func("g", vec![], NativeReturnType::Default, vec![]);
    let file = NativeFile { items: vec![NativeItem::Fn(add_fn()), NativeItem::Other, user_struct(), NativeItem::Fn(g)] };
    let doc = convert_file(&file);
    assert_eq!(doc.items.len(), 3);
    assert!(matches!(&doc.items[0], ItemDecl::Function(f) if f.name == "add"));
    assert!(matches!(&doc.items[1], ItemDecl::Struct { name, .. } if name == "User"));
    assert!(matches!(&doc.items[2], ItemDecl::Function(f) if f.name == "g"));
}

#[test]
fn statement_order_is_kept_and_unmodeled_statements_are_omitted() {
    let block = vec![
        NativeStmt::Local { pat: NativePat::Ident { name: s("a") }, init: Some(lit("1")) },
        NativeStmt::Other,
        expr_stmt(NativeExpr::Assign { left: Box::new(path("a")), left_text: s("a"), right: Box::new(lit("2")) }),
        ret(path("a")),
    ];
    assert_eq!(
        convert_block(&block),
        vec![
            Statement::Let { name: s("a"), value: Some(Expression::Literal { value: s("1") }) },
            Statement::Assign { target: s("a"), value: Expression::Literal { value: s("2") } },
            Statement::Return { value: Some(ident("a")) },
        ]
    );
}

#[test]
fn parameter_order_is_kept() {
    let inputs = vec![typed("c", "C"), NativeFnArg::Typed { pat: NativePat::Other, ty: s("T") }, typed("a", "A"), typed("b", "B")];
    assert_eq!(convert_params(&inputs), vec![param("c", "C"), param("a", "A"), param("b", "B")]);
}

#[test]
fn tuple_and_unit_structs_have_no_fields() {
    for fields in [NativeFields::Unnamed, NativeFields::Unit] {
        let out = convert_struct(&NativeStruct { ident: s("P"), fields });
        assert_eq!(out, ItemDecl::Struct { name: s("P"), fields: vec![] });
    }
}

#[test]
fn empty_file_gives_empty_document() {
    let doc = convert_file(&NativeFile { items: vec![] });
    assert!(doc.items.is_empty());
    assert_eq!(doc.version, 1);
}

#[test]
fn else_if_chain_is_not_unwrapped() {
    let inner = NativeExpr::If(NativeIf { cond: Box::new(path("b")), then_branch: vec![], else_branch: None });
    let st = expr_stmt(NativeExpr::If(NativeIf {
        cond: Box::new(path("a")),
        then_branch: vec![ret(lit("1"))],
        else_branch: Some(Box::new(inner)),
    }));
    assert_eq!(
        convert_statement(&st),
        Some(Statement::If {
            condition: ident("a"),
            then_body: vec![Statement::Return { value: Some(Expression::Literal { value: s("1") }) }],
            else_body: None,
        })
    );
}

#[test]
fn plain_else_block_is_kept() {
    let st = expr_stmt(NativeExpr::If(NativeIf {
        cond: Box::new(path("a")),
        then_branch: vec![],
        else_branch: Some(Box::new(NativeExpr::Block { stmts: vec![expr_stmt(path("z")), NativeStmt::Other] })),
    }));
    assert_eq!(
        convert_statement(&st),
        Some(Statement::If { condition: ident("a"), then_body: vec![], else_body: Some(vec![Statement::Expr { expr: ident("z") }]) })
    );
}

#[test]
fn loops_and_placeholder_names() {
    let for_ident = expr_stmt(NativeExpr::ForLoop(NativeForLoop {
        pat: NativePat::Ident { name: s("i") },
        expr: Box::new(path("items")),
        body: vec![expr_stmt(path("i"))],
    }));
    let for_tuple = expr_stmt(NativeExpr::ForLoop(NativeForLoop { pat: NativePat::Other, expr: Box::new(path("pairs")), body: vec![] }));
    let while_loop = expr_stmt(NativeExpr::While(NativeWhile {
        cond: Box::new(bin(NativeBinOp::Lt, path("i"), lit("10"))),
        body: vec![],
    }));
    let destructure = NativeStmt::Local { pat: NativePat::Other, init: None };
    assert_eq!(
        convert_block(&vec![for_ident, for_tuple, while_loop, destructure]),
        vec![
            Statement::For { iterator: s("i"), iterable: ident("items"), body: vec![Statement::Expr { expr: ident("i") }] },
            Statement::For { iterator: s("it"), iterable: ident("pairs"), body: vec![] },
            Statement::While {
                condition: Expression::Binary {
                    op: s("<"),
                    left: Box::new(ident("i")),
                    right: Box::new(Expression::Literal { value: s("10") }),
                },
                body: vec![],
            },
            Statement::Let { name: s("unknown"), value: None },
        ]
    );
}

#[test]
fn return_without_value_stays_empty() {
    let st = expr_stmt(NativeExpr::Return { expr: None });
    assert_eq!(convert_statement(&st), Some(Statement::Return { value: None }));
}

#[test]
fn statement_kinds_in_expression_position_read_unknown() {
    let nested = NativeExpr::Block { stmts: vec![] };
    assert_eq!(convert_expr(&nested), ident("unknown"));
    let call = NativeExpr::Call { func: Box::new(path("f")), func_text: s("f"), args: vec![NativeExpr::Return { expr: None }] };
    assert_eq!(convert_expr(&call), Expression::Call { function: s("f"), args: vec![ident("unknown")] });
}

#[test]
fn paths_are_joined() {
    assert_eq!(path_to_string(&vec![s("std"), s("mem"), s("swap")]), "std::mem::swap");
    assert_eq!(path_to_string(&vec![s("x")]), "x");
    assert_eq!(path_to_string(&vec![]), "");
    assert_eq!(convert_expr(&path("a::b")), ident("a::b"));
}

#[test]
fn callee_and_target_text() {
    let call = NativeExpr::Call {
        func: Box::new(path("Vec::new")),
        func_text: s("Vec :: new"),
        args: vec![lit("1"), path("y")],
    };
    assert_eq!(
        convert_expr(&call),
        Expression::Call { function: s("Vec::new"), args: vec![Expression::Literal { value: s("1") }, ident("y")] }
    );
    assert_eq!(expr_to_string(&NativeExpr::Other, &s("self . x")), "self . x");
    let assign = expr_stmt(NativeExpr::Assign { left: Box::new(NativeExpr::Other), left_text: s("self . x"), right: Box::new(lit("0")) });
    assert_eq!(
        convert_statement(&assign),
        Some(Statement::Assign { target: s("self . x"), value: Expression::Literal { value: s("0") } })
    );
}

#[test]
fn return_type_defaults_to_unit() {
    assert_eq!(convert_return_type(&NativeReturnType::Default), "()");
    assert_eq!(convert_return_type(&NativeReturnType::Type { ty: s("Vec < u8 >") }), "Vec < u8 >");
}

fn expr_ops(e: &Expression, out: &mut Vec<String>) {
    match e {
        Expression::Binary { op, left, right } => {
            out.push(op.clone());
            expr_ops(left, out);
            expr_ops(right, out);
        }
        Expression::Call { args, .. } => args.iter().for_each(|a| expr_ops(a, out)),
        _ => {}
    }
}

fn stmt_ops(s: &Statement, out: &mut Vec<String>) {
    match s {
        Statement::Let { value, .. } | Statement::Return { value } => value.iter().for_each(|e| expr_ops(e, out)),
        Statement::Assign { value, .. } => expr_ops(value, out),
        Statement::If { condition, then_body, else_body } => {
            expr_ops(condition, out);
            then_body.iter().chain(else_body.iter().flatten()).for_each(|b| stmt_ops(b, out));
        }
        Statement::For { iterable, body, .. } => {
            expr_ops(iterable, out);
            body.iter().for_each(|b| stmt_ops(b, out));
        }
        Statement::While { condition, body } => {
            expr_ops(condition, out);
            body.iter().for_each(|b| stmt_ops(b, out));
        }
        Statement::Expr { expr } => expr_ops(expr, out),
    }
}

#[test]
fn every_operator_in_a_document_is_in_the_table() {
    let deep = bin(
        NativeBinOp::Or,
        bin(NativeBinOp::BitAnd, path("a"), lit("1")),
        NativeExpr::Call { func: Box::new(path("f")), func_text: s("f"), args: vec![bin(NativeBinOp::ShrAssign, path("x"), lit("2"))] },
    );
    let body = vec![
        expr_stmt(NativeExpr::While(NativeWhile { cond: Box::new(bin(NativeBinOp::Ge, path("n"), lit("0"))), body: vec![expr_stmt(deep)] })),
        ret(bin(NativeBinOp::Rem, path("n"), lit("3"))),
    ];
    let method = func("m", vec![NativeFnArg::Receiver], NativeReturnType::Default, body);
    let file = NativeFile {
        items: vec![NativeItem::Impl(NativeImpl { self_ty: s("S"), items: vec![NativeImplItem::Fn { method }] })],
    };
    let doc = convert_file(&file);
    let mut ops = Vec::new();
    for d in &doc.items {
        if let ItemDecl::Impl { methods, .. } = d {
            methods.iter().flat_map(|m| m.body.iter()).for_each(|st| stmt_ops(st, &mut ops));
        }
    }
    let expected: Vec<String> = [">=", "||", "unknown", "unknown", "unknown"].into_iter().map(s).collect();
    assert_eq!(ops, expected);
}
