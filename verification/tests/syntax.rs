use compiler::ast::types::Loc;
use compiler::ast::types::OpTag;
use compiler::ast::Declaration;
use compiler::ast::Expression;
use compiler::ast::FunctionDef;
use compiler::ast::Literal;
use compiler::ast::MethodName;
use compiler::ast::ParsedFile;
use compiler::ast::Statement;
use compiler::ast::Tpe;
use compiler::compiler::syntaxes::ast_syntax::AstSyntax;
use compiler::compiler::syntaxes::Syntax;

fn parse(text: &str) -> ParsedFile {
    match AstSyntax::parse(text) {
        Ok(file) => file,
        Err(error) => panic!("no file: stopped at {:?}", error.loc()),
    }
}

fn leftover(text: &str) -> Loc {
    match AstSyntax::parse(text) {
        Ok(file) => panic!("a file: {:?}", file),
        Err(error) => error.loc(),
    }
}

fn functions(text: &str) -> Vec<FunctionDef> {
    parse(text).decls.into_iter().map(|Declaration::Func(function)| function).collect()
}

fn only_function(text: &str) -> FunctionDef {
    let mut all = functions(text);
    assert_eq!(all.len(), 1);
    all.remove(0)
}

fn at(left: usize, right: usize) -> Option<Loc> {
    Some(Loc { left, right })
}

fn word(text: &str, left: usize) -> OpTag<String> {
    OpTag { value: text.to_string(), loc: at(left, left + text.len()) }
}

fn tpe(text: &str, left: usize) -> OpTag<Tpe> {
    OpTag { value: Tpe::Name(word(text, left)), loc: at(left, left + text.len()) }
}

fn number(text: &str, left: usize) -> OpTag<Expression> {
    let loc = at(left, left + text.len());
    OpTag {
        value: Expression::Literal(OpTag { value: Literal::Numeric(word(text, left)), loc }),
        loc,
    }
}

fn call(
    name: MethodName,
    name_at: (usize, usize),
    args: Vec<OpTag<Expression>>,
    right: usize,
) -> OpTag<Expression> {
    OpTag {
        value: Expression::MethodCall {
            receiver: None,
            name: OpTag { value: name, loc: at(name_at.0, name_at.1) },
            args,
            type_params: vec![],
        },
        loc: at(name_at.0, right),
    }
}

fn statement(expression: OpTag<Expression>, left: usize, right: usize) -> OpTag<Statement> {
    OpTag { value: Statement::ExpressionEval(expression), loc: at(left, right) }
}

/// The statements of the function whose braces hold `body`.
fn block(body: &str) -> Vec<OpTag<Statement>> {
    only_function(&format!("fun f(){{{}}}", body)).block
}

/// The places of `body` in a function of its own start here.
const BODY: usize = 8;

#[test]
fn an_empty_text_is_an_empty_file() {
    let file = parse("");
    assert!(file.package.is_none());
    assert!(file.imports.is_empty());
    assert!(file.decls.is_empty());
}

#[test]
fn blanks_and_a_comment_are_an_empty_file() {
    assert!(parse("  \n \n").decls.is_empty());
    assert!(parse("// nothing here").decls.is_empty());
    assert!(parse(" \n// nothing here\n\n  ").decls.is_empty());
    assert!(parse("//").decls.is_empty());
}

#[test]
fn a_gap_holds_one_comment() {
    // the gap before the definitions and the gap after them hold one each
    assert!(parse("// one\n// two\n").decls.is_empty());
    assert_eq!(leftover("// one\n// two\n// three\n"), Loc { left: 14, right: 23 });
    assert_eq!(functions("// one\nfun f(){}// two\n").len(), 1);
    assert_eq!(leftover("// one\n// two\nfun f(){}"), Loc { left: 14, right: 23 });
}

#[test]
fn a_comment_may_hold_any_characters() {
    let function = only_function("// héllo, wörld ✓\nfun f(){}");
    assert_eq!(function.name, word("f", 26));
}

#[test]
fn a_tab_is_no_blank() {
    assert_eq!(leftover("\tfun f(){}"), Loc { left: 0, right: 10 });
    assert_eq!(leftover("fun f(){}\r\n"), Loc { left: 9, right: 11 });
}

#[test]
fn a_function_has_a_name_and_empty_lists() {
    let function = only_function("fun f(){}");
    assert_eq!(function.name, word("f", 4));
    assert!(function.parameters.is_empty());
    assert_eq!(function.return_tpe, None);
    assert!(function.block.is_empty());
}

#[test]
fn gaps_may_stand_between_the_parts_of_a_function() {
    let function = only_function("fun  main // the entry\n ( ) \n{\n}\n");
    assert_eq!(function.name, word("main", 5));
    assert!(function.parameters.is_empty());
    assert_eq!(function.return_tpe, None);
    assert!(function.block.is_empty());
}

#[test]
fn the_keyword_needs_no_gap_after_it() {
    assert_eq!(only_function("funfoo(){}").name, word("foo", 3));
    assert_eq!(only_function("funfun(){}").name, word("fun", 3));
}

#[test]
fn a_name_is_a_letter_and_letters_digits_and_underscores() {
    assert_eq!(only_function("fun a_1Z__9(){}").name, word("a_1Z__9", 4));
    assert_eq!(leftover("fun _a(){}"), Loc { left: 0, right: 10 });
    assert_eq!(leftover("fun 1a(){}"), Loc { left: 0, right: 10 });
    assert_eq!(leftover("fun (){}"), Loc { left: 0, right: 8 });
    assert_eq!(leftover("fun é(){}"), Loc { left: 0, right: 10 });
}

#[test]
fn a_return_type_follows_an_arrow() {
    let function = only_function("fun f -> int (){}");
    assert_eq!(function.name, word("f", 4));
    assert_eq!(function.return_tpe, Some(tpe("int", 9)));
    let function = only_function("fun f->int(){}");
    assert_eq!(function.return_tpe, Some(tpe("int", 7)));
}

#[test]
fn an_arrow_without_a_type_is_no_return_type() {
    assert_eq!(leftover("fun f -> (){}"), Loc { left: 0, right: 13 });
    assert_eq!(leftover("fun f - > int(){}"), Loc { left: 0, right: 17 });
}

#[test]
fn parameters_are_a_type_and_a_name_each() {
    let function = only_function("fun add(int a, long b,c d){}");
    assert_eq!(
        function.parameters,
        vec![
            (word("a", 12), tpe("int", 8)),
            (word("b", 20), tpe("long", 15)),
            (word("d", 24), tpe("c", 22)),
        ]
    );
}

#[test]
fn a_parameter_needs_no_blank_where_a_comment_parts_it() {
    let function = only_function("fun f(int// the type\nx){}");
    assert_eq!(function.parameters, vec![(word("x", 21), tpe("int", 6))]);
}

#[test]
fn a_parameter_list_is_read_as_far_as_it_goes() {
    assert_eq!(leftover("fun f(int a,){}"), Loc { left: 0, right: 15 });
    assert_eq!(leftover("fun f(int){}"), Loc { left: 0, right: 12 });
    assert_eq!(leftover("fun f(inta){}"), Loc { left: 0, right: 13 });
    assert_eq!(leftover("fun f(int a int b){}"), Loc { left: 0, right: 20 });
    assert_eq!(leftover("fun f(int a ,int b){}"), Loc { left: 0, right: 21 });
}

#[test]
fn a_number_is_a_literal_in_parentheses() {
    assert_eq!(block("(42)"), vec![statement(number("42", BODY + 1), BODY, BODY + 4)]);
    assert_eq!(block("( 007 )"), vec![statement(number("007", BODY + 2), BODY, BODY + 7)]);
}

#[test]
fn a_call_names_what_is_called_and_lists_its_arguments() {
    let expected = call(
        MethodName::Normal(word("print", BODY + 1)),
        (BODY + 1, BODY + 6),
        vec![number("1", BODY + 8), number("22", BODY + 12)],
        BODY + 15,
    );
    assert_eq!(block("(print (1) (22))"), vec![statement(expected, BODY, BODY + 16)]);
}

#[test]
fn arguments_need_no_blank_between_them() {
    let expected = call(
        MethodName::Normal(word("f", BODY + 1)),
        (BODY + 1, BODY + 2),
        vec![number("1", BODY + 3), number("2", BODY + 6)],
        BODY + 8,
    );
    assert_eq!(block("(f(1)(2))"), vec![statement(expected, BODY, BODY + 9)]);
}

#[test]
fn a_call_without_arguments_ends_after_the_gap_behind_its_name() {
    let expected = call(
        MethodName::Normal(word("now", BODY + 1)),
        (BODY + 1, BODY + 4),
        vec![],
        BODY + 6,
    );
    assert_eq!(block("(now  )"), vec![statement(expected, BODY, BODY + 7)]);
    let expected = call(
        MethodName::Normal(word("now", BODY + 1)),
        (BODY + 1, BODY + 4),
        vec![],
        BODY + 4,
    );
    assert_eq!(block("(now)"), vec![statement(expected, BODY, BODY + 5)]);
}

#[test]
fn a_call_with_arguments_ends_after_the_last_of_them() {
    let expected = call(
        MethodName::Normal(word("f", BODY + 1)),
        (BODY + 1, BODY + 2),
        vec![number("1", BODY + 4)],
        BODY + 6,
    );
    assert_eq!(block("(f (1)  )"), vec![statement(expected, BODY, BODY + 9)]);
}

#[test]
fn calls_nest() {
    let inner = call(
        MethodName::Times,
        (BODY + 8, BODY + 9),
        vec![number("2", BODY + 11), number("3", BODY + 15)],
        BODY + 17,
    );
    let expected = call(
        MethodName::Plus,
        (BODY + 1, BODY + 2),
        vec![number("1", BODY + 4), inner],
        BODY + 18,
    );
    assert_eq!(block("(+ (1) (* (2) (3)))"), vec![statement(expected, BODY, BODY + 19)]);
}

#[test]
fn operators_are_read_by_their_sign() {
    for (sign, name) in [
        ("+", MethodName::Plus),
        ("-", MethodName::Minus),
        ("*", MethodName::Times),
        ("/", MethodName::Divide),
        ("%", MethodName::Modulo),
        ("&", MethodName::Reference),
        ("||", MethodName::BoolOr),
        ("!", MethodName::BoolNot),
        ("return", MethodName::Return),
    ] {
        let end = BODY + 1 + sign.len();
        let expected = call(name, (BODY + 1, end), vec![number("1", end + 1)], end + 3);
        assert_eq!(
            block(&format!("({}(1))", sign)),
            vec![statement(expected, BODY, end + 4)],
            "{}",
            sign
        );
    }
}

#[test]
fn a_sign_is_read_at_its_first_byte() {
    // `&` is read as a reference, so nothing reads `&&`
    assert_eq!(leftover("fun f(){(&& (1))}"), Loc { left: 0, right: 17 });
    assert_eq!(leftover("fun f(){(| (1))}"), Loc { left: 0, right: 16 });
    assert_eq!(leftover("fun f(){(== (1))}"), Loc { left: 0, right: 17 });
    // two slashes after the parenthesis start a comment
    assert_eq!(leftover("fun f(){(// (1))}"), Loc { left: 0, right: 17 });
    assert_eq!(leftover("fun f(){(/ /)}"), Loc { left: 0, right: 14 });
    let expected = call(MethodName::Divide, (BODY + 1, BODY + 2), vec![], BODY + 3);
    assert_eq!(block("(/ )"), vec![statement(expected, BODY, BODY + 4)]);
}

#[test]
fn a_name_that_starts_with_return_is_read_as_return() {
    let expected = call(MethodName::Return, (BODY + 1, BODY + 7), vec![], BODY + 7);
    assert_eq!(block("(return)"), vec![statement(expected, BODY, BODY + 8)]);
    assert_eq!(leftover("fun f(){(returns (1))}"), Loc { left: 0, right: 22 });
    let expected = call(
        MethodName::Normal(word("retur", BODY + 1)),
        (BODY + 1, BODY + 6),
        vec![],
        BODY + 6,
    );
    assert_eq!(block("(retur)"), vec![statement(expected, BODY, BODY + 7)]);
}

#[test]
fn an_argument_is_an_expression_in_parentheses() {
    assert_eq!(leftover("fun f(){(f 1)}"), Loc { left: 0, right: 14 });
    assert_eq!(leftover("fun f(){(f x)}"), Loc { left: 0, right: 14 });
    assert_eq!(leftover("fun f(){1}"), Loc { left: 0, right: 10 });
    assert_eq!(leftover("fun f(){()}"), Loc { left: 0, right: 11 });
    assert_eq!(leftover("fun f(){(f (1)}"), Loc { left: 0, right: 15 });
    assert_eq!(leftover("fun f(){(1 (2))}"), Loc { left: 0, right: 16 });
}

#[test]
fn statements_stand_right_after_each_other() {
    let first = call(MethodName::Normal(word("a", BODY + 1)), (BODY + 1, BODY + 2), vec![], BODY + 2);
    let second = call(MethodName::Normal(word("b", BODY + 4)), (BODY + 4, BODY + 5), vec![], BODY + 5);
    assert_eq!(
        block("(a)(b)"),
        vec![statement(first, BODY, BODY + 3), statement(second, BODY + 3, BODY + 6)]
    );
    assert_eq!(leftover("fun f(){(a) (b)}"), Loc { left: 0, right: 16 });
    assert_eq!(block(" (a)(b) ").len(), 2);
}

#[test]
fn a_file_holds_its_functions_in_their_order() {
    let all = functions("fun a(){}\nfun b -> t (){(1)}\n\n// done\nfun c(x y){}\n");
    assert_eq!(all.len(), 3);
    assert_eq!(all[0].name, word("a", 4));
    assert_eq!(all[1].name, word("b", 14));
    assert_eq!(all[1].return_tpe, Some(tpe("t", 19)));
    assert_eq!(all[1].block, vec![statement(number("1", 25), 24, 27)]);
    assert_eq!(all[2].name, word("c", 42));
    assert_eq!(all[2].parameters, vec![(word("y", 46), tpe("x", 44))]);
}

#[test]
fn functions_need_no_gap_between_them() {
    let all = functions("fun a(){}fun b(){}");
    assert_eq!(all.len(), 2);
    assert_eq!(all[1].name, word("b", 13));
}

#[test]
fn what_follows_the_last_function_is_left_over() {
    assert_eq!(leftover("fun a(){} x"), Loc { left: 10, right: 11 });
    assert_eq!(leftover("fun a(){}\nfun b(){\n"), Loc { left: 10, right: 19 });
    assert_eq!(leftover("fun a(){} // one\n// two\nfun b(){}"), Loc { left: 17, right: 33 });
    assert_eq!(leftover("x"), Loc { left: 0, right: 1 });
    assert_eq!(leftover("  x"), Loc { left: 2, right: 3 });
}
