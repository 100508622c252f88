//! The grammar of the syntax that writes the tree down directly, as
//! functions of the bytes of a text and a position in it.
//!
//! Every rule takes the longest match and never gives it up: a rule that
//! matched is not tried again in another way when what follows it fails.

use vstd::prelude::*;
use vstd::utf8::decode_utf8;

use crate::ast::types::Loc;
use crate::ast::types::OpTag;
use crate::ast::Declaration;
use crate::ast::Expression;
use crate::ast::FunctionDef;
use crate::ast::Literal;
use crate::ast::MethodName;
use crate::ast::ParsedFile;
use crate::ast::Statement;
use crate::ast::Tpe;

verus! {

/// A range of positions in a text.
pub struct Span {
    pub left: int,
    pub right: int,
}

/// The classes of bytes that the rules repeat.
#[derive(Debug, Clone, Copy, PartialEq, Eq, Structural)]
pub enum Class {
    /// A space or a line feed.
    Blank,
    /// A letter, a digit or an underscore.
    Word,
    /// A decimal digit.
    Digit,
    /// Anything but a line feed.
    Line,
}

/// Whether `byte` is an ASCII letter.
pub open spec fn is_letter(byte: u8) -> bool {
    0x61 <= byte <= 0x7a || 0x41 <= byte <= 0x5a
}

/// Whether `byte` is a decimal digit.
pub open spec fn is_digit(byte: u8) -> bool {
    0x30 <= byte <= 0x39
}

impl Class {
    /// Whether `byte` belongs to the class.
    pub open spec fn contains(self, byte: u8) -> bool {
        match self {
            Class::Blank => byte == 0x20 || byte == 0x0a,
            Class::Word => is_letter(byte) || is_digit(byte) || byte == 0x5f,
            Class::Digit => is_digit(byte),
            Class::Line => byte != 0x0a,
        }
    }
}

/// The end of the longest run of bytes of `class` that starts at `pos`.
pub open spec fn run(input: Seq<u8>, pos: int, class: Class) -> int
    decreases input.len() - pos,
{
    if 0 <= pos < input.len() && class.contains(input[pos]) {
        run(input, pos + 1, class)
    } else {
        pos
    }
}

/// Whether the bytes of `literal` stand at `pos`.
pub open spec fn literal_at(input: Seq<u8>, pos: int, literal: Seq<u8>) -> bool {
    0 <= pos && pos + literal.len() <= input.len() && input.subrange(pos, pos + literal.len())
        == literal
}

/// Whether `byte` stands at `pos`.
pub open spec fn byte_at(input: Seq<u8>, pos: int, byte: u8) -> bool {
    0 <= pos < input.len() && input[pos] == byte
}

/// The two slashes that start a comment.
pub open spec fn comment_mark() -> Seq<u8> {
    seq![0x2f, 0x2f]
}

/// The keyword `fun`.
pub open spec fn fun_keyword() -> Seq<u8> {
    seq![0x66, 0x75, 0x6e]
}

/// The keyword `return`.
pub open spec fn return_keyword() -> Seq<u8> {
    seq![0x72, 0x65, 0x74, 0x75, 0x72, 0x6e]
}

/// The arrow `->` before a return type.
pub open spec fn arrow() -> Seq<u8> {
    seq![0x2d, 0x3e]
}

/// The operator `||`.
pub open spec fn double_bar() -> Seq<u8> {
    seq![0x7c, 0x7c]
}

/// The end of what may stand between two tokens: blanks, at most one
/// comment, which runs to the end of its line, and blanks again.
pub open spec fn gap(input: Seq<u8>, pos: int) -> int {
    let start = run(input, pos, Class::Blank);
    let resumed = if literal_at(input, start, comment_mark()) {
        run(input, start + 2, Class::Line)
    } else {
        start
    };
    run(input, resumed, Class::Blank)
}

/// The end of the identifier at `pos`: a letter and the longest run of
/// letters, digits and underscores after it.
pub open spec fn ident(input: Seq<u8>, pos: int) -> Option<int> {
    if 0 <= pos < input.len() && is_letter(input[pos]) {
        Some(run(input, pos + 1, Class::Word))
    } else {
        None
    }
}

/// The end of the number at `pos`: the longest run of digits, which is not
/// empty.
pub open spec fn number(input: Seq<u8>, pos: int) -> Option<int> {
    if 0 <= pos < input.len() && is_digit(input[pos]) {
        Some(run(input, pos + 1, Class::Digit))
    } else {
        None
    }
}

/// What a call names.
pub enum Name {
    /// An operator, or `return`.
    Operator(MethodName),
    /// An identifier.
    Word,
}

/// The name of a call at `pos`, and its end. The first of these that stands
/// there is taken: one of `+ - * / % & || !`, the keyword `return`, an
/// identifier. So `*` is always a product and `&` always a reference, and an
/// identifier that starts with `return` is never read as one.
pub open spec fn func_name(input: Seq<u8>, pos: int) -> Option<(Name, int)> {
    if byte_at(input, pos, 0x2b) {
        Some((Name::Operator(MethodName::Plus), pos + 1))
    } else if byte_at(input, pos, 0x2d) {
        Some((Name::Operator(MethodName::Minus), pos + 1))
    } else if byte_at(input, pos, 0x2a) {
        Some((Name::Operator(MethodName::Times), pos + 1))
    } else if byte_at(input, pos, 0x2f) {
        Some((Name::Operator(MethodName::Divide), pos + 1))
    } else if byte_at(input, pos, 0x25) {
        Some((Name::Operator(MethodName::Modulo), pos + 1))
    } else if byte_at(input, pos, 0x26) {
        Some((Name::Operator(MethodName::Reference), pos + 1))
    } else if literal_at(input, pos, double_bar()) {
        Some((Name::Operator(MethodName::BoolOr), pos + 2))
    } else if byte_at(input, pos, 0x21) {
        Some((Name::Operator(MethodName::BoolNot), pos + 1))
    } else if literal_at(input, pos, return_keyword()) {
        Some((Name::Operator(MethodName::Return), pos + 6))
    } else {
        match ident(input, pos) {
            Some(end) => Some((Name::Word, end)),
            None => None,
        }
    }
}

/// An expression as the grammar reads it.
pub enum Tree {
    /// A number.
    Number(Span),
    /// A call of `name`, which stands at `name_span`, on `args`. The span
    /// runs from the name to the end of the last argument, or to the end of
    /// the gap after the name where there is none.
    Call { name: Name, name_span: Span, args: Seq<Tree>, span: Span },
}

/// The expression at `pos`, and its end: a call or a number in parentheses,
/// with gaps inside the parentheses.
pub open spec fn expression(input: Seq<u8>, pos: int) -> Option<(Tree, int)>
    decreases input.len() - pos, 2int,
{
    if byte_at(input, pos, 0x28) {
        let start = gap(input, pos + 1);
        proof {
            lemma_gap_advances(input, pos + 1);
        }
        let inner = match func_name(input, start) {
            Some((name, named)) => {
                proof {
                    lemma_func_name_advances(input, start);
                    lemma_gap_advances(input, named);
                }
                let (args, end) = arguments(input, gap(input, named), true);
                Some(
                    (
                        Tree::Call {
                            name,
                            name_span: Span { left: start, right: named },
                            args,
                            span: Span { left: start, right: end },
                        },
                        end,
                    ),
                )
            },
            None => match number(input, start) {
                Some(end) => Some((Tree::Number(Span { left: start, right: end }), end)),
                None => None,
            },
        };
        match inner {
            Some((tree, end)) => if byte_at(input, gap(input, end), 0x29) {
                Some((tree, gap(input, end) + 1))
            } else {
                None
            },
            None => None,
        }
    } else {
        None
    }
}

/// The expressions from `pos` on, with a gap between each two, and the end
/// of the last. After the first, `pos` is where the gap starts. A gap that
/// no expression follows is not taken. (An expression is never empty and
/// ends within the text, as `lemma_expression_advances` shows: the test on
/// its end only lets the definition be seen to end.)
pub open spec fn arguments(input: Seq<u8>, pos: int, first: bool) -> (Seq<Tree>, int)
    decreases input.len() - pos, 3int,
{
    let start = if first {
        pos
    } else {
        gap(input, pos)
    };
    proof {
        lemma_gap_advances(input, pos);
    }
    match expression(input, start) {
        Some((tree, end)) => if start < end <= input.len() {
            let (rest, last) = arguments(input, end, false);
            (seq![tree] + rest, last)
        } else {
            (Seq::empty(), pos)
        },
        None => (Seq::empty(), pos),
    }
}

/// A statement as the grammar reads it: an expression, from its opening
/// parenthesis to its closing one.
pub struct Evaluation {
    pub tree: Tree,
    pub span: Span,
}

/// The statements from `pos` on, one right after the other, and the end of
/// the last.
pub open spec fn statements(input: Seq<u8>, pos: int) -> (Seq<Evaluation>, int)
    decreases input.len() - pos,
{
    match expression(input, pos) {
        Some((tree, end)) => {
            proof {
                lemma_expression_advances(input, pos);
            }
            let (rest, last) = statements(input, end);
            (seq![Evaluation { tree, span: Span { left: pos, right: end } }] + rest, last)
        },
        None => (Seq::empty(), pos),
    }
}

/// A parameter as the grammar reads it: a type and a name, both
/// identifiers.
pub struct Parameter {
    pub tpe: Span,
    pub name: Span,
}

/// The parameter at `pos`, and its end: a type, a gap and a name.
pub open spec fn parameter(input: Seq<u8>, pos: int) -> Option<(Parameter, int)> {
    match ident(input, pos) {
        Some(typed) => match ident(input, gap(input, typed)) {
            Some(end) => Some(
                (
                    Parameter {
                        tpe: Span { left: pos, right: typed },
                        name: Span { left: gap(input, typed), right: end },
                    },
                    end,
                ),
            ),
            None => None,
        },
        None => None,
    }
}

/// The parameters from `pos` on, with a comma and a gap between each two,
/// and the end of the last. After the first, `pos` is where the comma is to
/// stand. A comma that no parameter follows is not taken.
pub open spec fn parameters(input: Seq<u8>, pos: int, first: bool) -> (Seq<Parameter>, int)
    decreases input.len() - pos,
{
    if first || byte_at(input, pos, 0x2c) {
        let start = if first {
            pos
        } else {
            gap(input, pos + 1)
        };
        proof {
            lemma_gap_advances(input, pos + 1);
            lemma_parameter_advances(input, start);
        }
        match parameter(input, start) {
            Some((parameter, end)) => {
                let (rest, last) = parameters(input, end, false);
                (seq![parameter] + rest, last)
            },
            None => (Seq::empty(), pos),
        }
    } else {
        (Seq::empty(), pos)
    }
}

/// The return type at `pos`, if one stands there, and its end: an arrow, a
/// gap and a type. An arrow that no type follows is not taken.
pub open spec fn return_type(input: Seq<u8>, pos: int) -> (Option<Span>, int) {
    if literal_at(input, pos, arrow()) {
        match ident(input, gap(input, pos + 2)) {
            Some(end) => (Some(Span { left: gap(input, pos + 2), right: end }), end),
            None => (None, pos),
        }
    } else {
        (None, pos)
    }
}

/// A function definition as the grammar reads it.
pub struct Function {
    pub name: Span,
    pub parameters: Seq<Parameter>,
    pub return_type: Option<Span>,
    pub block: Seq<Evaluation>,
}

/// The function definition at `pos`, and its end: the keyword `fun`, a
/// name, a return type if there is one, the parameters in parentheses and
/// the statements in braces, with gaps between all of them.
#[verifier::opaque]
pub open spec fn function(input: Seq<u8>, pos: int) -> Option<(Function, int)> {
    if literal_at(input, pos, fun_keyword()) {
        let named = gap(input, pos + 3);
        match ident(input, named) {
            Some(name_end) => {
                let (return_type, typed) = return_type(input, gap(input, name_end));
                let opened = gap(input, typed);
                let (parameters, listed) = parameters(input, gap(input, opened + 1), true);
                let closed = gap(input, listed);
                let braced = gap(input, closed + 1);
                let (block, done) = statements(input, gap(input, braced + 1));
                let end = gap(input, done);
                if byte_at(input, opened, 0x28) && byte_at(input, closed, 0x29) && byte_at(
                    input,
                    braced,
                    0x7b,
                ) && byte_at(input, end, 0x7d) {
                    Some(
                        (
                            Function {
                                name: Span { left: named, right: name_end },
                                parameters,
                                return_type,
                                block,
                            },
                            end + 1,
                        ),
                    )
                } else {
                    None
                }
            },
            None => None,
        }
    } else {
        None
    }
}

/// The function definitions from `pos` on, with a gap between each two, and
/// the end of the last. After the first, `pos` is where the gap starts. A
/// gap that no definition follows is not taken.
pub open spec fn declarations(input: Seq<u8>, pos: int, first: bool) -> (Seq<Function>, int)
    decreases input.len() - pos,
{
    let start = if first {
        pos
    } else {
        gap(input, pos)
    };
    proof {
        lemma_gap_advances(input, pos);
        lemma_function_advances(input, start);
    }
    match function(input, start) {
        Some((function, end)) => {
            let (rest, last) = declarations(input, end, false);
            (seq![function] + rest, last)
        },
        None => (Seq::empty(), pos),
    }
}

/// Where reading `input` as a file stops: after a gap, the function
/// definitions and another gap.
pub open spec fn file_end(input: Seq<u8>) -> int {
    gap(input, declarations(input, gap(input, 0), true).1)
}

/// The function definitions of `input`, if `input` is a file: nothing may
/// be left where the reading stops.
pub open spec fn file(input: Seq<u8>) -> Option<Seq<Function>> {
    if file_end(input) == input.len() {
        Some(declarations(input, gap(input, 0), true).0)
    } else {
        None
    }
}

/// The place that a span is recorded as.
pub open spec fn place(span: Span) -> Option<Loc> {
    Some(Loc { left: span.left as usize, right: span.right as usize })
}

/// The characters that the bytes of `span` encode.
pub open spec fn text(input: Seq<u8>, span: Span) -> Seq<char> {
    decode_utf8(input.subrange(span.left, span.right))
}

/// Whether `word` holds the text of `span` and its place.
pub open spec fn word_is(input: Seq<u8>, word: OpTag<String>, span: Span) -> bool {
    word.loc == place(span) && word.value@ == text(input, span)
}

/// Whether `tpe` is the type that is named at `span`.
pub open spec fn type_is(input: Seq<u8>, tpe: OpTag<Tpe>, span: Span) -> bool {
    &&& tpe.loc == place(span)
    &&& tpe.value matches Tpe::Name(name)
    &&& word_is(input, name, span)
}

/// Whether `name` is what `model` reads as at `span`.
pub open spec fn name_is(input: Seq<u8>, name: MethodName, model: Name, span: Span) -> bool {
    match model {
        Name::Operator(operator) => name == operator,
        Name::Word => name matches MethodName::Normal(word) && word_is(input, word, span),
    }
}

/// Whether `expression` is what `tree` reads as: a numeric literal, or a
/// call without receiver and type parameters.
pub open spec fn expression_is(input: Seq<u8>, expression: OpTag<Expression>, tree: Tree) -> bool
    decreases tree,
{
    match tree {
        Tree::Number(span) => {
            &&& expression.loc == place(span)
            &&& expression.value matches Expression::Literal(literal)
            &&& literal.loc == place(span)
            &&& literal.value matches Literal::Numeric(digits)
            &&& word_is(input, digits, span)
        },
        Tree::Call { name, name_span, args, span } => {
            &&& expression.loc == place(span)
            &&& expression.value matches Expression::MethodCall {
                receiver,
                name: called,
                args: given,
                type_params,
            }
            &&& receiver is None
            &&& type_params@.len() == 0
            &&& called.loc == place(name_span)
            &&& name_is(input, called.value, name, name_span)
            &&& given@.len() == args.len()
            &&& forall|i: int|
                0 <= i < args.len() ==> expression_is(input, #[trigger] given@[i], args[i])
        },
    }
}

/// Whether `statement` is what `evaluation` reads as.
pub open spec fn statement_is(
    input: Seq<u8>,
    statement: OpTag<Statement>,
    evaluation: Evaluation,
) -> bool {
    &&& statement.loc == place(evaluation.span)
    &&& statement.value matches Statement::ExpressionEval(expression)
    &&& expression_is(input, expression, evaluation.tree)
}

/// Whether `definition` is what `function` reads as.
pub open spec fn function_is(input: Seq<u8>, definition: FunctionDef, function: Function) -> bool {
    &&& word_is(input, definition.name, function.name)
    &&& definition.parameters@.len() == function.parameters.len()
    &&& forall|i: int|
        0 <= i < function.parameters.len() ==> word_is(
            input,
            (#[trigger] definition.parameters@[i]).0,
            function.parameters[i].name,
        ) && type_is(input, definition.parameters@[i].1, function.parameters[i].tpe)
    &&& match function.return_type {
        Some(span) => definition.return_tpe matches Some(tpe) && type_is(input, tpe, span),
        None => definition.return_tpe is None,
    }
    &&& definition.block@.len() == function.block.len()
    &&& forall|i: int|
        0 <= i < function.block.len() ==> statement_is(
            input,
            #[trigger] definition.block@[i],
            function.block[i],
        )
}

/// Whether `file` is what `functions` read as: a file without package and
/// imports that declares them in their order.
pub open spec fn file_is(input: Seq<u8>, file: ParsedFile, functions: Seq<Function>) -> bool {
    &&& file.package is None
    &&& file.imports@.len() == 0
    &&& file.decls@.len() == functions.len()
    &&& forall|i: int|
        0 <= i < functions.len() ==> (#[trigger] file.decls@[i] matches Declaration::Func(
            definition,
        ) && function_is(input, definition, functions[i]))
}

/// A run ends at or after its start, and within the text where it starts
/// there.
pub proof fn lemma_run_advances(input: Seq<u8>, pos: int, class: Class)
    ensures
        run(input, pos, class) >= pos,
        0 <= pos <= input.len() ==> run(input, pos, class) <= input.len(),
    decreases input.len() - pos,
{
    if 0 <= pos < input.len() && class.contains(input[pos]) {
        lemma_run_advances(input, pos + 1, class);
    }
}

/// A gap ends at or after its start, and within the text where it starts
/// there.
pub proof fn lemma_gap_advances(input: Seq<u8>, pos: int)
    ensures
        gap(input, pos) >= pos,
        0 <= pos <= input.len() ==> gap(input, pos) <= input.len(),
{
    let start = run(input, pos, Class::Blank);
    lemma_run_advances(input, pos, Class::Blank);
    lemma_run_advances(input, start + 2, Class::Line);
    lemma_run_advances(input, start, Class::Blank);
    lemma_run_advances(input, run(input, start + 2, Class::Line), Class::Blank);
}

/// An expression is not empty, and ends within the text.
pub proof fn lemma_expression_advances(input: Seq<u8>, pos: int)
    ensures
        expression(input, pos) matches Some((tree, end)) ==> pos < end <= input.len(),
    decreases input.len() - pos, 2int,
{
    if byte_at(input, pos, 0x28) {
        let start = gap(input, pos + 1);
        lemma_gap_advances(input, pos + 1);
        lemma_func_name_advances(input, start);
        lemma_run_advances(input, start + 1, Class::Digit);
        match func_name(input, start) {
            Some((name, named)) => {
                lemma_gap_advances(input, named);
                lemma_arguments_advance(input, gap(input, named), true);
                lemma_gap_advances(input, arguments(input, gap(input, named), true).1);
            },
            None => {
                if let Some(end) = number(input, start) {
                    lemma_gap_advances(input, end);
                }
            },
        }
    }
}

/// A list of expressions ends at or after its start, and within the text.
pub proof fn lemma_arguments_advance(input: Seq<u8>, pos: int, first: bool)
    requires
        0 <= pos <= input.len(),
    ensures
        pos <= arguments(input, pos, first).1 <= input.len(),
    decreases input.len() - pos, 3int,
{
    let start = if first {
        pos
    } else {
        gap(input, pos)
    };
    lemma_gap_advances(input, pos);
    if let Some((tree, end)) = expression(input, start) {
        if start < end <= input.len() {
            lemma_arguments_advance(input, end, false);
        }
    }
}

/// A list of statements ends at or after its start, and within the text.
pub proof fn lemma_statements_advance(input: Seq<u8>, pos: int)
    requires
        0 <= pos <= input.len(),
    ensures
        pos <= statements(input, pos).1 <= input.len(),
    decreases input.len() - pos,
{
    lemma_expression_advances(input, pos);
    if let Some((tree, end)) = expression(input, pos) {
        lemma_statements_advance(input, end);
    }
}

/// A list of parameters ends at or after its start, and within the text.
pub proof fn lemma_parameters_advance(input: Seq<u8>, pos: int, first: bool)
    requires
        0 <= pos <= input.len(),
    ensures
        pos <= parameters(input, pos, first).1 <= input.len(),
    decreases input.len() - pos,
{
    if first || byte_at(input, pos, 0x2c) {
        let start = if first {
            pos
        } else {
            gap(input, pos + 1)
        };
        lemma_gap_advances(input, pos + 1);
        lemma_parameter_advances(input, start);
        if let Some((parameter, end)) = parameter(input, start) {
            lemma_parameters_advance(input, end, false);
        }
    }
}

/// A function definition is not empty, and ends within the text.
pub proof fn lemma_function_advances(input: Seq<u8>, pos: int)
    ensures
        function(input, pos) matches Some((function, end)) ==> pos < end <= input.len(),
{
    reveal(function);
    if literal_at(input, pos, fun_keyword()) {
        let named = gap(input, pos + 3);
        lemma_gap_advances(input, pos + 3);
        if let Some(name_end) = ident(input, named) {
            lemma_run_advances(input, named + 1, Class::Word);
            lemma_gap_advances(input, name_end);
            let after_name = gap(input, name_end);
            let typed = return_type(input, after_name).1;
            lemma_gap_advances(input, after_name + 2);
            lemma_run_advances(input, gap(input, after_name + 2) + 1, Class::Word);
            lemma_gap_advances(input, typed);
            let opened = gap(input, typed);
            if byte_at(input, opened, 0x28) {
                lemma_gap_advances(input, opened + 1);
                lemma_parameters_advance(input, gap(input, opened + 1), true);
                let listed = parameters(input, gap(input, opened + 1), true).1;
                lemma_gap_advances(input, listed);
                let closed = gap(input, listed);
                if byte_at(input, closed, 0x29) {
                    lemma_gap_advances(input, closed + 1);
                    let braced = gap(input, closed + 1);
                    if byte_at(input, braced, 0x7b) {
                        lemma_gap_advances(input, braced + 1);
                        lemma_statements_advance(input, gap(input, braced + 1));
                        let done = statements(input, gap(input, braced + 1)).1;
                        lemma_gap_advances(input, done);
                    }
                }
            }
        }
    }
}

/// The name of a call is not empty, and ends within the text.
pub proof fn lemma_func_name_advances(input: Seq<u8>, pos: int)
    ensures
        func_name(input, pos) matches Some((name, end)) ==> pos < end <= input.len(),
{
    lemma_run_advances(input, pos + 1, Class::Word);
}

/// A parameter is not empty, and ends within the text.
pub proof fn lemma_parameter_advances(input: Seq<u8>, pos: int)
    ensures
        parameter(input, pos) matches Some((parameter, end)) ==> pos < end <= input.len(),
{
    if let Some(typed) = ident(input, pos) {
        lemma_run_advances(input, pos + 1, Class::Word);
        lemma_gap_advances(input, typed);
        lemma_run_advances(input, gap(input, typed) + 1, Class::Word);
    }
}

/// Every byte of a run belongs to its class.
pub proof fn lemma_run_holds(input: Seq<u8>, pos: int, class: Class)
    requires
        0 <= pos,
    ensures
        forall|i: int| pos <= i < run(input, pos, class) ==> class.contains(#[trigger] input[i]),
    decreases input.len() - pos,
{
    if pos < input.len() && class.contains(input[pos]) {
        lemma_run_holds(input, pos + 1, class);
    }
}

} // verus!
