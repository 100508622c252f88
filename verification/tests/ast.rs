use compiler::ast::types::Loc;
use compiler::ast::types::OpTag;
use compiler::ast::types::QualifiedName;
use compiler::ast::types::Tag;
use compiler::ast::Expression;
use compiler::ast::Literal;
use compiler::ast::MethodName;
use compiler::ast::Statement;
use compiler::ast::Tpe;

fn name(text: &str) -> OpTag<String> {
    OpTag { value: text.to_string(), loc: None }
}

fn number(text: &str, left: usize) -> OpTag<Expression> {
    let loc = Some(Loc { left, right: left + text.len() });
    OpTag {
        value: Expression::Literal(OpTag {
            value: Literal::Numeric(OpTag { value: text.to_string(), loc }),
            loc,
        }),
        loc,
    }
}

#[test]
fn a_qualified_name_is_written_with_dots_between_its_parts() {
    let parts = vec![name("std"), name("io"), name("Read")];
    assert_eq!(QualifiedName(parts).to_string(), "std.io.Read");
}

#[test]
fn a_qualified_name_of_one_part_has_no_dot() {
    assert_eq!(QualifiedName(vec![name("main")]).to_string(), "main");
}

#[test]
fn an_empty_qualified_name_is_written_as_nothing() {
    assert_eq!(QualifiedName(vec![]).to_string(), "");
}

#[test]
fn a_qualified_name_keeps_empty_parts() {
    assert_eq!(QualifiedName(vec![name(""), name("a"), name("")]).to_string(), ".a.");
}

#[test]
fn a_tagged_value_dereferences_to_its_value() {
    let mut tagged = Tag { value: 5u32, loc: Loc { left: 1, right: 2 } };
    assert_eq!(*tagged, 5);
    *tagged = 6;
    assert_eq!(tagged.value, 6);
    assert_eq!(tagged.loc, Loc { left: 1, right: 2 });
    let mut optional = OpTag { value: String::from("a"), loc: None };
    assert_eq!(optional.len(), 1);
    optional.push('b');
    assert_eq!(optional.value, "ab");
    assert_eq!(optional.loc, None);
}

#[test]
fn tagged_values_are_equal_when_value_and_place_are() {
    let here = Some(Loc { left: 0, right: 1 });
    assert_eq!(OpTag { value: 1u8, loc: here }, OpTag { value: 1u8, loc: here });
    assert_ne!(OpTag { value: 1u8, loc: here }, OpTag { value: 1u8, loc: None });
    assert_ne!(OpTag { value: 1u8, loc: here }, OpTag { value: 2u8, loc: here });
}

#[test]
fn a_copy_of_a_type_is_equal_to_it() {
    let pointer = Tpe::Pointer(Box::new(OpTag {
        value: Tpe::Pointer(Box::new(OpTag { value: Tpe::Name(name("u8")), loc: None })),
        loc: Some(Loc { left: 3, right: 9 }),
    }));
    assert_eq!(pointer.clone(), pointer);
    assert_eq!(Tpe::Name(name("x")).clone(), Tpe::Name(name("x")));
}

#[test]
fn a_copy_of_a_method_name_is_equal_to_it() {
    let compound = MethodName::ExprAssignOp(Box::new(MethodName::ExprAssignOp(Box::new(
        MethodName::Normal(name("push")),
    ))));
    assert_eq!(compound.clone(), compound);
    assert_eq!(MethodName::BitUShr.clone(), MethodName::BitUShr);
    assert_ne!(MethodName::Plus.clone(), MethodName::Minus);
}

#[test]
fn a_copy_of_an_expression_is_equal_to_it() {
    let call = Expression::MethodCall {
        receiver: Some(Box::new(OpTag { value: Expression::VarAccess(name("list")), loc: None })),
        name: OpTag { value: MethodName::Plus, loc: Some(Loc { left: 1, right: 2 }) },
        args: vec![
            number("1", 3),
            OpTag {
                value: Expression::MethodCall {
                    receiver: None,
                    name: OpTag { value: MethodName::Times, loc: None },
                    args: vec![number("2", 8), number("30", 10)],
                    type_params: vec![],
                },
                loc: Some(Loc { left: 5, right: 14 }),
            },
        ],
        type_params: vec![OpTag { value: Tpe::Name(name("T")), loc: None }],
    };
    assert_eq!(call.clone(), call);
    let field = Expression::FieldAccess {
        left: Box::new(OpTag { value: call.clone(), loc: None }),
        name: name("len"),
    };
    assert_eq!(field.clone(), field);
    let definition = Expression::VarDef {
        name: name("x"),
        explicit_type: Some(OpTag { value: Tpe::Name(name("u8")), loc: None }),
        value: Box::new(number("7", 0)),
    };
    assert_eq!(definition.clone(), definition);
}

#[test]
fn a_copy_of_a_statement_is_equal_to_it() {
    let inner = Statement::While {
        condition: number("1", 0),
        block: vec![OpTag { value: Statement::Label(name("again")), loc: None }],
    };
    let statement = Statement::If {
        condition: number("0", 0),
        block: vec![
            OpTag { value: inner.clone(), loc: Some(Loc { left: 4, right: 20 }) },
            OpTag { value: Statement::ExpressionEval(number("5", 21)), loc: None },
        ],
        else_block: Some(vec![OpTag { value: inner, loc: None }]),
    };
    assert_eq!(statement.clone(), statement);
    let bare = Statement::If { condition: number("0", 0), block: vec![], else_block: None };
    assert_eq!(bare.clone(), bare);
}
