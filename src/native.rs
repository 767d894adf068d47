//! The native syntax tree that the normalizer reads.
//!
//! A front-end parses source text and hands over a tree of these values. It
//! mirrors the shape of the source grammar only as far as the normalizer looks
//! into it: every construct the normalizer does not model is carried as an
//! `Other` variant, and every type annotation, literal and non-path expression
//! that is only ever printed arrives as the front-end's own text.
use vstd::prelude::*;

verus! {

/// A binary operator of the source language, with its compound-assignment forms.
#[derive(Clone, Copy, Debug, PartialEq, Eq)]
pub enum NativeBinOp {
    Add,
    Sub,
    Mul,
    Div,
    Rem,
    And,
    Or,
    BitXor,
    BitAnd,
    BitOr,
    Shl,
    Shr,
    Eq,
    Lt,
    Le,
    Ne,
    Ge,
    Gt,
    AddAssign,
    SubAssign,
    MulAssign,
    DivAssign,
    RemAssign,
    BitXorAssign,
    BitAndAssign,
    BitOrAssign,
    ShlAssign,
    ShrAssign,
    /// An operator that this tree has no name for.
    Other,
}

/// A binding pattern: a plain identifier, or anything else.
#[derive(Debug, PartialEq, Eq)]
pub enum NativePat {
    Ident { name: String },
    Other,
}

/// An expression of the source language.
#[derive(Debug, PartialEq, Eq)]
pub enum NativeExpr {
    Binary { op: NativeBinOp, left: Box<NativeExpr>, right: Box<NativeExpr> },
    /// A path such as `a::b::c`, as its identifier segments.
    Path { segments: Vec<String> },
    /// A literal, as spelled in the source.
    Lit { spelling: String },
    /// A call; `func_text` is the front-end's printing of the callee.
    Call { func: Box<NativeExpr>, func_text: String, args: Vec<NativeExpr> },
    /// An assignment; `left_text` is the front-end's printing of the target.
    Assign { left: Box<NativeExpr>, left_text: String, right: Box<NativeExpr> },
    If(NativeIf),
    ForLoop(NativeForLoop),
    While(NativeWhile),
    Return { expr: Option<Box<NativeExpr>> },
    Block { stmts: Vec<NativeStmt> },
    /// Any other kind of expression (closures, indexing, struct literals, ...).
    Other,
}

/// `if cond { then_branch } else else_branch`.
#[derive(Debug, PartialEq, Eq)]
pub struct NativeIf {
    pub cond: Box<NativeExpr>,
    pub then_branch: Vec<NativeStmt>,
    /// A block expression, or another `if` for an `else if` chain.
    pub else_branch: Option<Box<NativeExpr>>,
}

/// `for pat in expr { body }`.
#[derive(Debug, PartialEq, Eq)]
pub struct NativeForLoop {
    pub pat: NativePat,
    pub expr: Box<NativeExpr>,
    pub body: Vec<NativeStmt>,
}

/// `while cond { body }`.
#[derive(Debug, PartialEq, Eq)]
pub struct NativeWhile {
    pub cond: Box<NativeExpr>,
    pub body: Vec<NativeStmt>,
}

/// A statement inside a block.
#[derive(Debug, PartialEq, Eq)]
pub enum NativeStmt {
    /// `let pat = init;`
    Local { pat: NativePat, init: Option<NativeExpr> },
    /// An expression in statement position, with or without a semicolon.
    Expr { expr: NativeExpr },
    /// Items and macro invocations nested in a block.
    Other,
}

/// A named field of a struct; `ty` is the front-end's printing of its type.
#[derive(Debug, PartialEq, Eq)]
pub struct NativeField {
    pub name: String,
    pub ty: String,
}

/// The fields of a struct declaration.
#[derive(Debug, PartialEq, Eq)]
pub enum NativeFields {
    Named { fields: Vec<NativeField> },
    Unnamed,
    Unit,
}

/// An entry in a function's parameter list.
#[derive(Debug, PartialEq, Eq)]
pub enum NativeFnArg {
    /// The receiver of a method (`self`, `&self`, `&mut self`, ...).
    Receiver,
    Typed { pat: NativePat, ty: String },
}

/// A function's return annotation.
#[derive(Debug, PartialEq, Eq)]
pub enum NativeReturnType {
    /// No `->` annotation.
    Default,
    Type { ty: String },
}

/// A free function or a method.
#[derive(Debug, PartialEq, Eq)]
pub struct NativeFn {
    pub ident: String,
    pub inputs: Vec<NativeFnArg>,
    pub output: NativeReturnType,
    pub block: Vec<NativeStmt>,
}

/// `struct ident fields`.
#[derive(Debug, PartialEq, Eq)]
pub struct NativeStruct {
    pub ident: String,
    pub fields: NativeFields,
}

/// An entry of an implementation block.
#[derive(Debug, PartialEq, Eq)]
pub enum NativeImplItem {
    Fn { method: NativeFn },
    /// Associated constants, types and macros.
    Other,
}

/// `impl ... for self_ty { items }`; `self_ty` is the front-end's printing.
#[derive(Debug, PartialEq, Eq)]
pub struct NativeImpl {
    pub self_ty: String,
    pub items: Vec<NativeImplItem>,
}

/// A top-level item.
#[derive(Debug, PartialEq, Eq)]
pub enum NativeItem {
    Struct(NativeStruct),
    Impl(NativeImpl),
    Fn(NativeFn),
    /// Modules, traits, `use`, constants, macros and the rest.
    Other,
}

/// A whole source file.
#[derive(Debug, PartialEq, Eq)]
pub struct NativeFile {
    pub items: Vec<NativeItem>,
}

} // verus!
