//! The abstract syntax tree of the source language.

use vstd::prelude::*;

use crate::ast::types::BTExpression;
use crate::ast::types::BTag;
use crate::ast::types::OpTag;
use crate::ast::types::QualifiedName;
use crate::bytecode::FloatSize;
use crate::bytecode::IntSize;

pub mod types;

verus! {

#[derive(Debug, Clone, Copy, PartialEq, Eq)]
pub enum PrimitiveType {
    Integer { signed: bool, size: IntSize },
    Float(FloatSize),
    Char(IntSize),
    Bool,
}

#[derive(Debug, PartialEq, Eq)]
pub enum Tpe {
    Name(OpTag<String>),
    Pointer(BTag<Tpe>),
}

#[derive(Debug, PartialEq, Eq)]
pub enum Literal {
    String(OpTag<String>),
    Numeric(OpTag<String>),
    Char(OpTag<String>),
    Boolean(OpTag<String>),
}

#[derive(Debug, Clone, Copy, PartialEq, Eq)]
pub enum Comp {
    LessThan,
    LessThanEq,
    Eq,
    GreaterThanEq,
    GreaterThan,
    NotEq,
}

#[derive(Debug, PartialEq, Eq)]
pub enum MethodName {
    Normal(OpTag<String>),
    Plus,
    Minus,
    Times,
    Divide,
    Modulo,
    Comparison(Comp),
    Dereference,
    Reference,
    Ternery,
    BoolAnd,
    BoolOr,
    BoolNot,
    BoolXor,
    BitAnd,
    BitOr,
    BitNot,
    BitXor,
    BitShl,
    BitShr,
    BitUShr,
    Cast,
    Bitcast,
    ArrayIndex,
    Return,
    ExprAssign,
    /// A compound assignment such as `+=`, by the operation it applies.
    ExprAssignOp(Box<MethodName>),
}

#[derive(Debug, PartialEq, Eq)]
pub enum Expression {
    Literal(OpTag<Literal>),
    MethodCall {
        receiver: Option<BTExpression>,
        name: OpTag<MethodName>,
        args: Vec<OpTag<Expression>>,
        type_params: Vec<OpTag<Tpe>>,
    },
    VarAccess(OpTag<String>),
    FieldAccess { left: BTExpression, name: OpTag<String> },
    VarDef { name: OpTag<String>, explicit_type: Option<OpTag<Tpe>>, value: BTExpression },
}

#[derive(Debug, PartialEq, Eq)]
pub enum Statement {
    ExpressionEval(OpTag<Expression>),
    If {
        condition: OpTag<Expression>,
        block: Vec<OpTag<Statement>>,
        else_block: Option<Vec<OpTag<Statement>>>,
    },
    Label(OpTag<String>),
    While { condition: OpTag<Expression>, block: Vec<OpTag<Statement>> },
}

#[derive(Debug, Clone)]
pub struct FunctionDef {
    pub name: OpTag<String>,
    pub parameters: Vec<(OpTag<String>, OpTag<Tpe>)>,
    pub return_tpe: Option<OpTag<Tpe>>,
    pub block: Vec<OpTag<Statement>>,
}

#[derive(Debug, Clone)]
pub enum Declaration {
    Func(FunctionDef),
}

#[derive(Debug, Clone)]
pub struct ImportStatement {
    pub path: QualifiedName,
    pub alias: Option<String>,
}

#[derive(Debug, Clone)]
pub struct ParsedFile {
    pub package: Option<QualifiedName>,
    pub imports: Vec<ImportStatement>,
    pub decls: Vec<Declaration>,
}

impl Clone for Tpe {
    fn clone(&self) -> (copy: Self)
        ensures
            copy == *self,
        decreases self,
    {
        match self {
            Tpe::Name(name) => Tpe::Name(OpTag { value: name.value.clone(), loc: name.loc }),
            Tpe::Pointer(inner) => Tpe::Pointer(
                Box::new(OpTag { value: inner.value.clone(), loc: inner.loc }),
            ),
        }
    }
}

impl Clone for MethodName {
    fn clone(&self) -> (copy: Self)
        ensures
            copy == *self,
        decreases self,
    {
        match self {
            MethodName::Normal(name) => MethodName::Normal(
                OpTag { value: name.value.clone(), loc: name.loc },
            ),
            MethodName::Plus => MethodName::Plus,
            MethodName::Minus => MethodName::Minus,
            MethodName::Times => MethodName::Times,
            MethodName::Divide => MethodName::Divide,
            MethodName::Modulo => MethodName::Modulo,
            MethodName::Comparison(comp) => MethodName::Comparison(*comp),
            MethodName::Dereference => MethodName::Dereference,
            MethodName::Reference => MethodName::Reference,
            MethodName::Ternery => MethodName::Ternery,
            MethodName::BoolAnd => MethodName::BoolAnd,
            MethodName::BoolOr => MethodName::BoolOr,
            MethodName::BoolNot => MethodName::BoolNot,
            MethodName::BoolXor => MethodName::BoolXor,
            MethodName::BitAnd => MethodName::BitAnd,
            MethodName::BitOr => MethodName::BitOr,
            MethodName::BitNot => MethodName::BitNot,
            MethodName::BitXor => MethodName::BitXor,
            MethodName::BitShl => MethodName::BitShl,
            MethodName::BitShr => MethodName::BitShr,
            MethodName::BitUShr => MethodName::BitUShr,
            MethodName::Cast => MethodName::Cast,
            MethodName::Bitcast => MethodName::Bitcast,
            MethodName::ArrayIndex => MethodName::ArrayIndex,
            MethodName::Return => MethodName::Return,
            MethodName::ExprAssign => MethodName::ExprAssign,
            MethodName::ExprAssignOp(inner) => MethodName::ExprAssignOp(Box::new((**inner).clone())),
        }
    }
}

impl Clone for Literal {
    fn clone(&self) -> (copy: Self)
        ensures
            copy == *self,
    {
        match self {
            Literal::String(text) => Literal::String(
                OpTag { value: text.value.clone(), loc: text.loc },
            ),
            Literal::Numeric(text) => Literal::Numeric(
                OpTag { value: text.value.clone(), loc: text.loc },
            ),
            Literal::Char(text) => Literal::Char(OpTag { value: text.value.clone(), loc: text.loc }),
            Literal::Boolean(text) => Literal::Boolean(
                OpTag { value: text.value.clone(), loc: text.loc },
            ),
        }
    }
}

/// A copy of `name`.
fn clone_name(name: &OpTag<String>) -> (copy: OpTag<String>)
    ensures
        copy == *name,
{
    OpTag { value: name.value.clone(), loc: name.loc }
}

/// A copy of each of `items`.
fn clone_types(items: &Vec<OpTag<Tpe>>) -> (copies: Vec<OpTag<Tpe>>)
    ensures
        copies@ == items@,
{
    let mut copies: Vec<OpTag<Tpe>> = Vec::new();
    let mut idx: usize = 0;
    while idx < items.len()
        invariant
            idx <= items.len(),
            copies@ == items@.subrange(0, idx as int),
        decreases items.len() - idx,
    {
        let item = &items[idx];
        copies.push(OpTag { value: item.value.clone(), loc: item.loc });
        idx = idx + 1;
        assert(copies@ =~= items@.subrange(0, idx as int));
    }
    assert(items@.subrange(0, idx as int) =~= items@);
    copies
}

impl Expression {
    /// Whether `other` is the same expression as this: the same tree with
    /// the same places. Lists compare by what they hold.
    pub open spec fn alike(self, other: Expression) -> bool
        decreases self,
    {
        match self {
            Expression::Literal(literal) => other == self,
            Expression::MethodCall { receiver, name, args, type_params } => {
                &&& other matches Expression::MethodCall {
                    receiver: other_receiver,
                    name: other_name,
                    args: other_args,
                    type_params: other_type_params,
                }
                &&& match receiver {
                    Some(inner) => other_receiver matches Some(other_inner) && inner.loc
                        == other_inner.loc && inner.value.alike(other_inner.value),
                    None => other_receiver is None,
                }
                &&& name == other_name
                &&& type_params@ == other_type_params@
                &&& args@.len() == other_args@.len()
                &&& forall|i: int|
                    0 <= i < args@.len() ==> args@[i].loc == other_args@[i].loc && (
                    #[trigger] args@[i]).value.alike(other_args@[i].value)
            },
            Expression::VarAccess(name) => other == self,
            Expression::FieldAccess { left, name } => {
                &&& other matches Expression::FieldAccess { left: other_left, name: other_name }
                &&& left.loc == other_left.loc
                &&& left.value.alike(other_left.value)
                &&& name == other_name
            },
            Expression::VarDef { name, explicit_type, value } => {
                &&& other matches Expression::VarDef {
                    name: other_name,
                    explicit_type: other_type,
                    value: other_value,
                }
                &&& name == other_name
                &&& explicit_type == other_type
                &&& value.loc == other_value.loc
                &&& value.value.alike(other_value.value)
            },
        }
    }
}

/// A copy of each of `items`.
fn clone_expressions(items: &Vec<OpTag<Expression>>) -> (copies: Vec<OpTag<Expression>>)
    ensures
        copies@.len() == items@.len(),
        forall|i: int|
            0 <= i < items@.len() ==> items@[i].loc == copies@[i].loc && (
            #[trigger] items@[i]).value.alike(copies@[i].value),
    decreases items,
{
    let mut copies: Vec<OpTag<Expression>> = Vec::new();
    let mut idx: usize = 0;
    while idx < items.len()
        invariant
            idx <= items.len(),
            copies@.len() == idx,
            forall|i: int|
                0 <= i < idx ==> items@[i].loc == copies@[i].loc && (
                #[trigger] items@[i]).value.alike(copies@[i].value),
        decreases items.len() - idx,
    {
        let item = &items[idx];
        copies.push(OpTag { value: item.value.clone(), loc: item.loc });
        idx = idx + 1;
    }
    copies
}

impl Clone for Expression {
    fn clone(&self) -> (copy: Self)
        ensures
            self.alike(copy),
        decreases self,
    {
        match self {
            Expression::Literal(literal) => Expression::Literal(
                OpTag { value: literal.value.clone(), loc: literal.loc },
            ),
            Expression::MethodCall { receiver, name, args, type_params } => Expression::MethodCall {
                receiver: match receiver {
                    Some(inner) => Some(Box::new(OpTag { value: inner.value.clone(), loc: inner.loc })),
                    None => None,
                },
                name: OpTag { value: name.value.clone(), loc: name.loc },
                args: clone_expressions(args),
                type_params: clone_types(type_params),
            },
            Expression::VarAccess(name) => Expression::VarAccess(clone_name(name)),
            Expression::FieldAccess { left, name } => Expression::FieldAccess {
                left: Box::new(OpTag { value: left.value.clone(), loc: left.loc }),
                name: clone_name(name),
            },
            Expression::VarDef { name, explicit_type, value } => Expression::VarDef {
                name: clone_name(name),
                explicit_type: match explicit_type {
                    Some(tpe) => Some(OpTag { value: tpe.value.clone(), loc: tpe.loc }),
                    None => None,
                },
                value: Box::new(OpTag { value: value.value.clone(), loc: value.loc }),
            },
        }
    }
}

/// A copy of `expression`.
fn clone_expression(expression: &OpTag<Expression>) -> (copy: OpTag<Expression>)
    ensures
        copy.loc == expression.loc,
        expression.value.alike(copy.value),
{
    OpTag { value: expression.value.clone(), loc: expression.loc }
}

impl Statement {
    /// Whether `other` is the same statement as this: the same tree with the
    /// same places. Lists compare by what they hold.
    pub open spec fn alike(self, other: Statement) -> bool
        decreases self,
    {
        match self {
            Statement::ExpressionEval(expression) => {
                &&& other matches Statement::ExpressionEval(other_expression)
                &&& expression.loc == other_expression.loc
                &&& expression.value.alike(other_expression.value)
            },
            Statement::If { condition, block, else_block } => {
                &&& other matches Statement::If {
                    condition: other_condition,
                    block: other_block,
                    else_block: other_else,
                }
                &&& condition.loc == other_condition.loc
                &&& condition.value.alike(other_condition.value)
                &&& block@.len() == other_block@.len()
                &&& forall|i: int|
                    0 <= i < block@.len() ==> block@[i].loc == other_block@[i].loc && (
                    #[trigger] block@[i]).value.alike(other_block@[i].value)
                &&& match else_block {
                    Some(statements) => {
                        &&& other_else matches Some(other_statements)
                        &&& statements@.len() == other_statements@.len()
                        &&& forall|i: int|
                            0 <= i < statements@.len() ==> statements@[i].loc
                                == other_statements@[i].loc && (
                            #[trigger] statements@[i]).value.alike(other_statements@[i].value)
                    },
                    None => other_else is None,
                }
            },
            Statement::Label(name) => other == self,
            Statement::While { condition, block } => {
                &&& other matches Statement::While { condition: other_condition, block: other_block }
                &&& condition.loc == other_condition.loc
                &&& condition.value.alike(other_condition.value)
                &&& block@.len() == other_block@.len()
                &&& forall|i: int|
                    0 <= i < block@.len() ==> block@[i].loc == other_block@[i].loc && (
                    #[trigger] block@[i]).value.alike(other_block@[i].value)
            },
        }
    }
}

/// A copy of each of `items`.
fn clone_statements(items: &Vec<OpTag<Statement>>) -> (copies: Vec<OpTag<Statement>>)
    ensures
        copies@.len() == items@.len(),
        forall|i: int|
            0 <= i < items@.len() ==> items@[i].loc == copies@[i].loc && (
            #[trigger] items@[i]).value.alike(copies@[i].value),
    decreases items,
{
    let mut copies: Vec<OpTag<Statement>> = Vec::new();
    let mut idx: usize = 0;
    while idx < items.len()
        invariant
            idx <= items.len(),
            copies@.len() == idx,
            forall|i: int|
                0 <= i < idx ==> items@[i].loc == copies@[i].loc && (
                #[trigger] items@[i]).value.alike(copies@[i].value),
        decreases items.len() - idx,
    {
        let item = &items[idx];
        copies.push(OpTag { value: item.value.clone(), loc: item.loc });
        idx = idx + 1;
    }
    copies
}

impl Clone for Statement {
    fn clone(&self) -> (copy: Self)
        ensures
            self.alike(copy),
        decreases self,
    {
        match self {
            Statement::ExpressionEval(expression) => Statement::ExpressionEval(
                clone_expression(expression),
            ),
            Statement::If { condition, block, else_block } => Statement::If {
                condition: clone_expression(condition),
                block: clone_statements(block),
                else_block: match else_block {
                    Some(statements) => Some(clone_statements(statements)),
                    None => None,
                },
            },
            Statement::Label(name) => Statement::Label(clone_name(name)),
            Statement::While { condition, block } => Statement::While {
                condition: clone_expression(condition),
                block: clone_statements(block),
            },
        }
    }
}

} // verus!
