//! The canonical document: a small, closed schema of declarations, statements
//! and expressions, and its mathematical model.
use vstd::prelude::*;

verus! {

/// The version of the canonical schema that documents carry.
pub const SCHEMA_VERSION: u32 = 1;

/// An expression of the canonical schema.
#[derive(Debug, PartialEq, Eq)]
pub enum Expression {
    Binary { op: String, left: Box<Expression>, right: Box<Expression> },
    Ident { name: String },
    Literal { value: String },
    Call { function: String, args: Vec<Expression> },
}

/// A statement of the canonical schema.
#[derive(Debug, PartialEq, Eq)]
pub enum Statement {
    Let { name: String, value: Option<Expression> },
    Assign { target: String, value: Expression },
    If { condition: Expression, then_body: Vec<Statement>, else_body: Option<Vec<Statement>> },
    For { iterator: String, iterable: Expression, body: Vec<Statement> },
    While { condition: Expression, body: Vec<Statement> },
    Return { value: Option<Expression> },
    Expr { expr: Expression },
}

#[derive(Debug, PartialEq, Eq)]
pub struct Field {
    pub name: String,
    pub field_type: String,
}

#[derive(Debug, PartialEq, Eq)]
pub struct Parameter {
    pub name: String,
    pub param_type: String,
}

#[derive(Debug, PartialEq, Eq)]
pub struct Function {
    pub name: String,
    pub params: Vec<Parameter>,
    pub return_type: String,
    pub body: Vec<Statement>,
}

/// A top-level declaration of the canonical schema.
#[derive(Debug, PartialEq, Eq)]
pub enum ItemDecl {
    Struct { name: String, fields: Vec<Field> },
    /// Never built with an empty `methods`.
    Impl { target: String, methods: Vec<Function> },
    Function(Function),
}

/// A canonical document: the declarations of one source file, in order.
#[derive(Debug, PartialEq, Eq)]
pub struct FileAst {
    pub version: u32,
    pub items: Vec<ItemDecl>,
}

// ----- the model -----

pub enum ExprModel {
    Binary { op: Seq<char>, left: Box<ExprModel>, right: Box<ExprModel> },
    Ident { name: Seq<char> },
    Literal { value: Seq<char> },
    Call { function: Seq<char>, args: Seq<ExprModel> },
}

pub enum StmtModel {
    Let { name: Seq<char>, value: Option<ExprModel> },
    Assign { target: Seq<char>, value: ExprModel },
    If { condition: ExprModel, then_body: Seq<StmtModel>, else_body: Option<Seq<StmtModel>> },
    For { iterator: Seq<char>, iterable: ExprModel, body: Seq<StmtModel> },
    While { condition: ExprModel, body: Seq<StmtModel> },
    Return { value: Option<ExprModel> },
    Expr { expr: ExprModel },
}

/// A field or a parameter: a name and the text of its type.
pub struct TypedName {
    pub name: Seq<char>,
    pub ty: Seq<char>,
}

pub struct FunctionModel {
    pub name: Seq<char>,
    pub params: Seq<TypedName>,
    pub return_type: Seq<char>,
    pub body: Seq<StmtModel>,
}

pub enum DeclModel {
    Struct { name: Seq<char>, fields: Seq<TypedName> },
    Impl { target: Seq<char>, methods: Seq<FunctionModel> },
    Function(FunctionModel),
}

impl Expression {
    pub open spec fn view(&self) -> ExprModel
        decreases self,
    {
        match self {
            Expression::Binary { op, left, right } => ExprModel::Binary {
                op: op@,
                left: Box::new(left.view()),
                right: Box::new(right.view()),
            },
            Expression::Ident { name } => ExprModel::Ident { name: name@ },
            Expression::Literal { value } => ExprModel::Literal { value: value@ },
            Expression::Call { function, args } => ExprModel::Call {
                function: function@,
                args: expressions_view(args@),
            },
        }
    }
}

pub open spec fn expressions_view(s: Seq<Expression>) -> Seq<ExprModel>
    decreases s,
{
    if s.len() == 0 {
        Seq::empty()
    } else {
        expressions_view(s.subrange(0, s.len() - 1)).push(s[s.len() - 1].view())
    }
}

pub open spec fn option_expression_view(e: Option<Expression>) -> Option<ExprModel> {
    match e {
        Some(x) => Some(x.view()),
        None => None,
    }
}

impl Statement {
    pub open spec fn view(&self) -> StmtModel
        decreases self,
    {
        match self {
            Statement::Let { name, value } => StmtModel::Let {
                name: name@,
                value: option_expression_view(*value),
            },
            Statement::Assign { target, value } => StmtModel::Assign {
                target: target@,
                value: value.view(),
            },
            Statement::If { condition, then_body, else_body } => StmtModel::If {
                condition: condition.view(),
                then_body: statements_view(then_body@),
                else_body: match else_body {
                    Some(b) => Some(statements_view(b@)),
                    None => None,
                },
            },
            Statement::For { iterator, iterable, body } => StmtModel::For {
                iterator: iterator@,
                iterable: iterable.view(),
                body: statements_view(body@),
            },
            Statement::While { condition, body } => StmtModel::While {
                condition: condition.view(),
                body: statements_view(body@),
            },
            Statement::Return { value } => StmtModel::Return { value: option_expression_view(*value) },
            Statement::Expr { expr } => StmtModel::Expr { expr: expr.view() },
        }
    }
}

pub open spec fn statements_view(s: Seq<Statement>) -> Seq<StmtModel>
    decreases s,
{
    if s.len() == 0 {
        Seq::empty()
    } else {
        statements_view(s.subrange(0, s.len() - 1)).push(s[s.len() - 1].view())
    }
}

impl Field {
    pub open spec fn view(&self) -> TypedName {
        TypedName { name: self.name@, ty: self.field_type@ }
    }
}

impl Parameter {
    pub open spec fn view(&self) -> TypedName {
        TypedName { name: self.name@, ty: self.param_type@ }
    }
}

pub open spec fn fields_view(s: Seq<Field>) -> Seq<TypedName> {
    s.map_values(|f: Field| f.view())
}

pub open spec fn parameters_view(s: Seq<Parameter>) -> Seq<TypedName> {
    s.map_values(|p: Parameter| p.view())
}

impl Function {
    pub open spec fn view(&self) -> FunctionModel {
        FunctionModel {
            name: self.name@,
            params: parameters_view(self.params@),
            return_type: self.return_type@,
            body: statements_view(self.body@),
        }
    }
}

pub open spec fn functions_view(s: Seq<Function>) -> Seq<FunctionModel> {
    s.map_values(|f: Function| f.view())
}

impl ItemDecl {
    pub open spec fn view(&self) -> DeclModel {
        match self {
            ItemDecl::Struct { name, fields } => DeclModel::Struct {
                name: name@,
                fields: fields_view(fields@),
            },
            ItemDecl::Impl { target, methods } => DeclModel::Impl {
                target: target@,
                methods: functions_view(methods@),
            },
            ItemDecl::Function(f) => DeclModel::Function(f.view()),
        }
    }
}

pub open spec fn items_view(s: Seq<ItemDecl>) -> Seq<DeclModel> {
    s.map_values(|d: ItemDecl| d.view())
}

impl FileAst {
    pub open spec fn view(&self) -> Seq<DeclModel> {
        items_view(self.items@)
    }
}

} // verus!
