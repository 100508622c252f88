//! A syntax that writes the tree down directly, in parentheses.

use vstd::prelude::*;
use vstd::string::StringSliceAdditionalSpecFns;
use vstd::utf8::encode_utf8_decode_utf8;
use vstd::utf8::encode_utf8_valid_utf8;
use vstd::utf8::is_char_boundary;
use vstd::utf8::is_char_boundary_iff_not_is_continuation_byte;
use vstd::utf8::length_of_first_scalar;
use vstd::utf8::pop_first_scalar;
use vstd::utf8::valid_utf8;
use vstd::utf8::valid_utf8_split;

use crate::ast::types::Loc;
use crate::ast::types::OpTag;
use crate::ast::Declaration;
use crate::ast::Expression;
use crate::ast::FunctionDef;
use crate::ast::Literal;
use crate::ast::MethodName;
use crate::ast::ParsedFile;
use crate::ast::Statement;
use crate::ast::Tpe;
use crate::compiler::syntaxes::grammar::arguments;
use crate::compiler::syntaxes::grammar::arrow;
use crate::compiler::syntaxes::grammar::byte_at;
use crate::compiler::syntaxes::grammar::comment_mark;
use crate::compiler::syntaxes::grammar::declarations;
use crate::compiler::syntaxes::grammar::double_bar;
use crate::compiler::syntaxes::grammar::expression;
use crate::compiler::syntaxes::grammar::expression_is;
use crate::compiler::syntaxes::grammar::file;
use crate::compiler::syntaxes::grammar::file_end;
use crate::compiler::syntaxes::grammar::file_is;
use crate::compiler::syntaxes::grammar::fun_keyword;
use crate::compiler::syntaxes::grammar::func_name;
use crate::compiler::syntaxes::grammar::function;
use crate::compiler::syntaxes::grammar::function_is;
use crate::compiler::syntaxes::grammar::gap;
use crate::compiler::syntaxes::grammar::ident;
use crate::compiler::syntaxes::grammar::lemma_run_holds;
use crate::compiler::syntaxes::grammar::literal_at;
use crate::compiler::syntaxes::grammar::name_is;
use crate::compiler::syntaxes::grammar::number;
use crate::compiler::syntaxes::grammar::parameter;
use crate::compiler::syntaxes::grammar::parameters;
use crate::compiler::syntaxes::grammar::place;
use crate::compiler::syntaxes::grammar::return_keyword;
use crate::compiler::syntaxes::grammar::return_type;
use crate::compiler::syntaxes::grammar::run;
use crate::compiler::syntaxes::grammar::statement_is;
use crate::compiler::syntaxes::grammar::statements;
use crate::compiler::syntaxes::grammar::text;
use crate::compiler::syntaxes::grammar::type_is;
use crate::compiler::syntaxes::grammar::word_is;
use crate::compiler::syntaxes::grammar::Class;
use crate::compiler::syntaxes::grammar::Evaluation;
use crate::compiler::syntaxes::grammar::Function;
use crate::compiler::syntaxes::grammar::Name;
use crate::compiler::syntaxes::grammar::Parameter;
use crate::compiler::syntaxes::grammar::Span;
use crate::compiler::syntaxes::grammar::Tree;
use crate::compiler::syntaxes::ParseError;
use crate::compiler::syntaxes::Syntax;

verus! {

impl Class {
    /// Whether `byte` belongs to the class.
    pub fn has(self, byte: u8) -> (held: bool)
        ensures
            held == self.contains(byte),
    {
        match self {
            Class::Blank => byte == 0x20 || byte == 0x0a,
            Class::Word => (0x61 <= byte && byte <= 0x7a) || (0x41 <= byte && byte <= 0x5a) || (0x30
                <= byte && byte <= 0x39) || byte == 0x5f,
            Class::Digit => 0x30 <= byte && byte <= 0x39,
            Class::Line => byte != 0x0a,
        }
    }
}

/// The end of the longest run of bytes of `class` from `pos` on.
fn scan(input: &[u8], pos: usize, class: Class) -> (end: usize)
    requires
        pos <= input.len(),
    ensures
        end == run(input@, pos as int, class),
        pos <= end <= input.len(),
{
    let mut end: usize = pos;
    while end < input.len() && class.has(input[end])
        invariant
            pos <= end <= input.len(),
            run(input@, pos as int, class) == run(input@, end as int, class),
        decreases input@.len() - end,
    {
        end = end + 1;
    }
    end
}

/// Whether `byte` stands at `pos`.
fn has_byte(input: &[u8], pos: usize, byte: u8) -> (held: bool)
    ensures
        held == byte_at(input@, pos as int, byte),
        held ==> pos < input.len(),
{
    pos < input.len() && input[pos] == byte
}

/// Whether the bytes of `literal` stand at `pos`.
fn has_literal(input: &[u8], pos: usize, literal: &[u8]) -> (held: bool)
    requires
        pos <= input.len(),
    ensures
        held == literal_at(input@, pos as int, literal@),
        held ==> pos + literal@.len() <= input.len(),
{
    if literal.len() > input.len() - pos {
        return false;
    }
    let mut idx: usize = 0;
    while idx < literal.len()
        invariant
            idx <= literal@.len(),
            pos + literal@.len() <= input.len(),
            forall|i: int| 0 <= i < idx ==> input@[pos + i] == literal@[i],
        decreases literal@.len() - idx,
    {
        if input[pos + idx] != literal[idx] {
            assert(input@.subrange(pos as int, pos + literal@.len())[idx as int] != literal@[idx as int]);
            return false;
        }
        idx = idx + 1;
    }
    assert(input@.subrange(pos as int, pos + literal@.len()) =~= literal@);
    true
}

/// The end of the gap at `pos`.
fn skip_gap(input: &[u8], pos: usize) -> (end: usize)
    requires
        pos <= input.len(),
    ensures
        end == gap(input@, pos as int),
        pos <= end <= input.len(),
{
    let start: usize = scan(input, pos, Class::Blank);
    let mark: [u8; 2] = [0x2f, 0x2f];
    assert(mark@ =~= comment_mark());
    let resumed: usize = if has_literal(input, start, mark.as_slice()) {
        assert(start + 2 <= input.len());
        scan(input, start + 2, Class::Line)
    } else {
        start
    };
    scan(input, resumed, Class::Blank)
}

/// The position after an ASCII byte is a character boundary.
proof fn lemma_boundary_after_ascii(bytes: Seq<u8>, index: int)
    requires
        valid_utf8(bytes),
        0 <= index < bytes.len(),
        bytes[index] < 0x80,
    ensures
        is_char_boundary(bytes, index),
        is_char_boundary(bytes, index + 1),
    decreases bytes.len(),
{
    reveal_with_fuel(is_char_boundary, 2);
    reveal_with_fuel(valid_utf8, 2);
    is_char_boundary_iff_not_is_continuation_byte(bytes, index);
    let first = length_of_first_scalar(bytes);
    let rest = pop_first_scalar(bytes);
    if index > 0 {
        assert(is_char_boundary(rest, index - first));
        assert(rest[index - first] == bytes[index]);
        lemma_boundary_after_ascii(rest, index - first);
        assert(is_char_boundary(bytes, index + 1) == is_char_boundary(rest, index + 1 - first));
    } else {
        assert(first == 1);
        assert(is_char_boundary(bytes, 1) == is_char_boundary(rest, 0));
    }
}

/// The text between `left` and `right`, with its place.
fn word(source: &str, input: &[u8], left: usize, right: usize) -> (word: OpTag<String>)
    requires
        input@ == source.spec_bytes(),
        left < right <= input.len(),
        forall|i: int| left <= i < right ==> input@[i] < 0x80,
    ensures
        word_is(input@, word, Span { left: left as int, right: right as int }),
{
    proof {
        encode_utf8_valid_utf8(source@);
        lemma_boundary_after_ascii(input@, right - 1);
        valid_utf8_split(input@, right as int);
        lemma_boundary_after_ascii(input@.subrange(0, right as int), left as int);
    }
    let (head, _) = source.split_at(right);
    let (_, slice) = head.split_at(left);
    let value = slice.to_owned();
    proof {
        assert(slice.spec_bytes() =~= input@.subrange(left as int, right as int));
        encode_utf8_decode_utf8(slice@);
    }
    OpTag { value, loc: Some(Loc { left, right }) }
}

/// The end of the identifier at `pos`.
fn parse_ident(input: &[u8], pos: usize) -> (result: Option<usize>)
    requires
        pos <= input.len(),
    ensures
        match ident(input@, pos as int) {
            Some(end) => result == Some(end as usize) && pos < end <= input.len() && forall|i: int|
                pos <= i < end ==> input@[i] < 0x80,
            None => result is None,
        },
{
    if pos < input.len() && ((0x61 <= input[pos] && input[pos] <= 0x7a) || (0x41 <= input[pos]
        && input[pos] <= 0x5a)) {
        proof {
            lemma_run_holds(input@, pos + 1, Class::Word);
        }
        Some(scan(input, pos + 1, Class::Word))
    } else {
        None
    }
}

/// The end of the number at `pos`.
fn parse_number(input: &[u8], pos: usize) -> (result: Option<usize>)
    requires
        pos <= input.len(),
    ensures
        match number(input@, pos as int) {
            Some(end) => result == Some(end as usize) && pos < end <= input.len() && forall|i: int|
                pos <= i < end ==> input@[i] < 0x80,
            None => result is None,
        },
{
    if pos < input.len() && 0x30 <= input[pos] && input[pos] <= 0x39 {
        proof {
            lemma_run_holds(input@, pos + 1, Class::Digit);
        }
        Some(scan(input, pos + 1, Class::Digit))
    } else {
        None
    }
}

/// The name of a call at `pos`, and its end.
fn parse_func_name(source: &str, input: &[u8], pos: usize) -> (result: Option<(MethodName, usize)>)
    requires
        input@ == source.spec_bytes(),
        pos <= input.len(),
    ensures
        match func_name(input@, pos as int) {
            Some((model, end)) => result matches Some((name, next)) && next == end && pos < next
                <= input.len() && name_is(
                input@,
                name,
                model,
                Span { left: pos as int, right: end },
            ),
            None => result is None,
        },
{
    let bars: [u8; 2] = [0x7c, 0x7c];
    let keyword: [u8; 6] = [0x72, 0x65, 0x74, 0x75, 0x72, 0x6e];
    assert(bars@ =~= double_bar());
    assert(keyword@ =~= return_keyword());
    if has_byte(input, pos, 0x2b) {
        Some((MethodName::Plus, pos + 1))
    } else if has_byte(input, pos, 0x2d) {
        Some((MethodName::Minus, pos + 1))
    } else if has_byte(input, pos, 0x2a) {
        Some((MethodName::Times, pos + 1))
    } else if has_byte(input, pos, 0x2f) {
        Some((MethodName::Divide, pos + 1))
    } else if has_byte(input, pos, 0x25) {
        Some((MethodName::Modulo, pos + 1))
    } else if has_byte(input, pos, 0x26) {
        Some((MethodName::Reference, pos + 1))
    } else if has_literal(input, pos, bars.as_slice()) {
        Some((MethodName::BoolOr, pos + 2))
    } else if has_byte(input, pos, 0x21) {
        Some((MethodName::BoolNot, pos + 1))
    } else if has_literal(input, pos, keyword.as_slice()) {
        Some((MethodName::Return, pos + 6))
    } else {
        match parse_ident(input, pos) {
            Some(end) => Some((MethodName::Normal(word(source, input, pos, end)), end)),
            None => None,
        }
    }
}

/// The expression at `pos`, and its end.
fn parse_expression(source: &str, input: &[u8], pos: usize) -> (result: Option<(OpTag<Expression>, usize)>)
    requires
        input@ == source.spec_bytes(),
        pos <= input.len(),
    ensures
        match expression(input@, pos as int) {
            Some((tree, end)) => result matches Some((found, next)) && next == end && pos < next
                <= input.len() && expression_is(input@, found, tree),
            None => result is None,
        },
    decreases input@.len() - pos, 2int,
{
    if !has_byte(input, pos, 0x28) {
        return None;
    }
    let start: usize = skip_gap(input, pos + 1);
    let (value, end): (Expression, usize) = match parse_func_name(source, input, start) {
        Some((name, named)) => {
            let from: usize = skip_gap(input, named);
            let (args, end): (Vec<OpTag<Expression>>, usize) = parse_arguments(source, input, from);
            (
                Expression::MethodCall {
                    receiver: None,
                    name: OpTag { value: name, loc: Some(Loc { left: start, right: named }) },
                    args,
                    type_params: Vec::new(),
                },
                end,
            )
        },
        None => match parse_number(input, start) {
            Some(end) => {
                let loc = Some(Loc { left: start, right: end });
                let digits = word(source, input, start, end);
                (Expression::Literal(OpTag { value: Literal::Numeric(digits), loc }), end)
            },
            None => {
                return None;
            },
        },
    };
    let closing: usize = skip_gap(input, end);
    if has_byte(input, closing, 0x29) {
        Some((OpTag { value, loc: Some(Loc { left: start, right: end }) }, closing + 1))
    } else {
        None
    }
}

/// The expressions from `pos` on, and the end of the last.
fn parse_arguments(source: &str, input: &[u8], pos: usize) -> (result: (Vec<OpTag<Expression>>, usize))
    requires
        input@ == source.spec_bytes(),
        pos <= input.len(),
    ensures
        result.1 == arguments(input@, pos as int, true).1,
        pos <= result.1 <= input.len(),
        result.0@.len() == arguments(input@, pos as int, true).0.len(),
        forall|i: int|
            0 <= i < result.0@.len() ==> expression_is(
                input@,
                #[trigger] result.0@[i],
                arguments(input@, pos as int, true).0[i],
            ),
    decreases input@.len() - pos, 3int,
{
    let mut list: Vec<OpTag<Expression>> = Vec::new();
    let mut end: usize = pos;
    let ghost mut trees: Seq<Tree> = Seq::empty();
    loop
        invariant
            input@ == source.spec_bytes(),
            pos <= end <= input.len(),
            list@.len() == trees.len(),
            forall|i: int| 0 <= i < list@.len() ==> expression_is(input@, #[trigger] list@[i], trees[i]),
            arguments(input@, pos as int, true).0 == trees + arguments(
                input@,
                end as int,
                trees.len() == 0,
            ).0,
            arguments(input@, pos as int, true).1 == arguments(
                input@,
                end as int,
                trees.len() == 0,
            ).1,
        ensures
            pos <= end <= input.len(),
            list@.len() == trees.len(),
            forall|i: int| 0 <= i < list@.len() ==> expression_is(input@, #[trigger] list@[i], trees[i]),
            arguments(input@, pos as int, true) == (trees, end as int),
        decreases input@.len() - end,
    {
        let start: usize = if list.len() == 0 {
            end
        } else {
            skip_gap(input, end)
        };
        match parse_expression(source, input, start) {
            Some((found, next)) => {
                proof {
                    let tree = expression(input@, start as int)->Some_0.0;
                    let rest = arguments(input@, next as int, false).0;
                    assert(trees + (seq![tree] + rest) =~= trees.push(tree) + rest);
                    trees = trees.push(tree);
                }
                list.push(found);
                end = next;
            },
            None => {
                assert(trees + Seq::<Tree>::empty() =~= trees);
                break ;
            },
        }
    }
    (list, end)
}

/// The statements from `pos` on, and the end of the last.
fn parse_statements(source: &str, input: &[u8], pos: usize) -> (result: (Vec<OpTag<Statement>>, usize))
    requires
        input@ == source.spec_bytes(),
        pos <= input.len(),
    ensures
        result.1 == statements(input@, pos as int).1,
        pos <= result.1 <= input.len(),
        result.0@.len() == statements(input@, pos as int).0.len(),
        forall|i: int|
            0 <= i < result.0@.len() ==> statement_is(
                input@,
                #[trigger] result.0@[i],
                statements(input@, pos as int).0[i],
            ),
{
    let mut list: Vec<OpTag<Statement>> = Vec::new();
    let mut end: usize = pos;
    let ghost mut read: Seq<Evaluation> = Seq::empty();
    loop
        invariant
            input@ == source.spec_bytes(),
            pos <= end <= input.len(),
            list@.len() == read.len(),
            forall|i: int| 0 <= i < list@.len() ==> statement_is(input@, #[trigger] list@[i], read[i]),
            statements(input@, pos as int).0 == read + statements(input@, end as int).0,
            statements(input@, pos as int).1 == statements(input@, end as int).1,
        ensures
            pos <= end <= input.len(),
            list@.len() == read.len(),
            forall|i: int| 0 <= i < list@.len() ==> statement_is(input@, #[trigger] list@[i], read[i]),
            statements(input@, pos as int) == (read, end as int),
        decreases input.len() - end,
    {
        match parse_expression(source, input, end) {
            Some((found, next)) => {
                proof {
                    let tree = expression(input@, end as int)->Some_0.0;
                    let evaluation = Evaluation {
                        tree,
                        span: Span { left: end as int, right: next as int },
                    };
                    let rest = statements(input@, next as int).0;
                    assert(read + (seq![evaluation] + rest) =~= read.push(evaluation) + rest);
                    read = read.push(evaluation);
                }
                list.push(
                    OpTag {
                        value: Statement::ExpressionEval(found),
                        loc: Some(Loc { left: end, right: next }),
                    },
                );
                end = next;
            },
            None => {
                assert(read + Seq::<Evaluation>::empty() =~= read);
                break ;
            },
        }
    }
    (list, end)
}

/// The type that is named between `left` and `right`.
fn named_type(source: &str, input: &[u8], left: usize, right: usize) -> (tpe: OpTag<Tpe>)
    requires
        input@ == source.spec_bytes(),
        left < right <= input.len(),
        forall|i: int| left <= i < right ==> input@[i] < 0x80,
    ensures
        type_is(input@, tpe, Span { left: left as int, right: right as int }),
{
    OpTag { value: Tpe::Name(word(source, input, left, right)), loc: Some(Loc { left, right }) }
}

/// The parameter at `pos`, as its name and its type, and its end.
fn parse_parameter(source: &str, input: &[u8], pos: usize) -> (result: Option<
    ((OpTag<String>, OpTag<Tpe>), usize),
>)
    requires
        input@ == source.spec_bytes(),
        pos <= input.len(),
    ensures
        match parameter(input@, pos as int) {
            Some((model, end)) => result matches Some((found, next)) && next == end && pos < next
                <= input.len() && word_is(input@, found.0, model.name) && type_is(
                input@,
                found.1,
                model.tpe,
            ),
            None => result is None,
        },
{
    let typed: usize = match parse_ident(input, pos) {
        Some(typed) => typed,
        None => {
            return None;
        },
    };
    let start: usize = skip_gap(input, typed);
    match parse_ident(input, start) {
        Some(end) => Some(((word(source, input, start, end), named_type(source, input, pos, typed)), end)),
        None => None,
    }
}

/// The parameters from `pos` on, and the end of the last.
fn parse_parameters(source: &str, input: &[u8], pos: usize) -> (result: (Vec<(OpTag<String>, OpTag<Tpe>)>, usize))
    requires
        input@ == source.spec_bytes(),
        pos <= input.len(),
    ensures
        result.1 == parameters(input@, pos as int, true).1,
        pos <= result.1 <= input.len(),
        result.0@.len() == parameters(input@, pos as int, true).0.len(),
        forall|i: int|
            0 <= i < result.0@.len() ==> word_is(
                input@,
                (#[trigger] result.0@[i]).0,
                parameters(input@, pos as int, true).0[i].name,
            ) && type_is(input@, result.0@[i].1, parameters(input@, pos as int, true).0[i].tpe),
{
    let mut list: Vec<(OpTag<String>, OpTag<Tpe>)> = Vec::new();
    let mut end: usize = pos;
    let ghost mut read: Seq<Parameter> = Seq::empty();
    loop
        invariant
            input@ == source.spec_bytes(),
            pos <= end <= input.len(),
            list@.len() == read.len(),
            forall|i: int|
                0 <= i < list@.len() ==> word_is(input@, (#[trigger] list@[i]).0, read[i].name)
                    && type_is(input@, list@[i].1, read[i].tpe),
            parameters(input@, pos as int, true).0 == read + parameters(
                input@,
                end as int,
                read.len() == 0,
            ).0,
            parameters(input@, pos as int, true).1 == parameters(
                input@,
                end as int,
                read.len() == 0,
            ).1,
        ensures
            pos <= end <= input.len(),
            list@.len() == read.len(),
            forall|i: int|
                0 <= i < list@.len() ==> word_is(input@, (#[trigger] list@[i]).0, read[i].name)
                    && type_is(input@, list@[i].1, read[i].tpe),
            parameters(input@, pos as int, true) == (read, end as int),
        decreases input.len() - end,
    {
        let start: usize = if list.len() == 0 {
            end
        } else if has_byte(input, end, 0x2c) {
            skip_gap(input, end + 1)
        } else {
            assert(read + Seq::<Parameter>::empty() =~= read);
            break ;
        };
        match parse_parameter(source, input, start) {
            Some((found, next)) => {
                proof {
                    let model = parameter(input@, start as int)->Some_0.0;
                    let rest = parameters(input@, next as int, false).0;
                    assert(read + (seq![model] + rest) =~= read.push(model) + rest);
                    read = read.push(model);
                }
                list.push(found);
                end = next;
            },
            None => {
                assert(read + Seq::<Parameter>::empty() =~= read);
                break ;
            },
        }
    }
    (list, end)
}

/// The return type at `pos`, if one stands there, and its end.
fn parse_return_type(source: &str, input: &[u8], pos: usize) -> (result: (Option<OpTag<Tpe>>, usize))
    requires
        input@ == source.spec_bytes(),
        pos <= input.len(),
    ensures
        result.1 == return_type(input@, pos as int).1,
        pos <= result.1 <= input.len(),
        match return_type(input@, pos as int).0 {
            Some(span) => result.0 matches Some(tpe) && type_is(input@, tpe, span),
            None => result.0 is None,
        },
{
    let mark: [u8; 2] = [0x2d, 0x3e];
    assert(mark@ =~= arrow());
    if has_literal(input, pos, mark.as_slice()) {
        let start: usize = skip_gap(input, pos + 2);
        match parse_ident(input, start) {
            Some(end) => (Some(named_type(source, input, start, end)), end),
            None => (None, pos),
        }
    } else {
        (None, pos)
    }
}

/// The function definition at `pos`, and its end.
fn parse_function(source: &str, input: &[u8], pos: usize) -> (result: Option<(FunctionDef, usize)>)
    requires
        input@ == source.spec_bytes(),
        pos <= input.len(),
    ensures
        match function(input@, pos as int) {
            Some((model, end)) => result matches Some((found, next)) && next == end && pos < next
                <= input.len() && function_is(input@, found, model),
            None => result is None,
        },
{
    proof {
        reveal(function);
    }
    let keyword: [u8; 3] = [0x66, 0x75, 0x6e];
    assert(keyword@ =~= fun_keyword());
    if !has_literal(input, pos, keyword.as_slice()) {
        return None;
    }
    let named: usize = skip_gap(input, pos + 3);
    let name_end: usize = match parse_ident(input, named) {
        Some(end) => end,
        None => {
            return None;
        },
    };
    let name = word(source, input, named, name_end);
    let after_name: usize = skip_gap(input, name_end);
    let (return_tpe, typed): (Option<OpTag<Tpe>>, usize) = parse_return_type(source, input, after_name);
    let opened: usize = skip_gap(input, typed);
    if !has_byte(input, opened, 0x28) {
        return None;
    }
    let first: usize = skip_gap(input, opened + 1);
    let (parameters, listed): (Vec<(OpTag<String>, OpTag<Tpe>)>, usize) = parse_parameters(
        source,
        input,
        first,
    );
    let closed: usize = skip_gap(input, listed);
    if !has_byte(input, closed, 0x29) {
        return None;
    }
    let braced: usize = skip_gap(input, closed + 1);
    if !has_byte(input, braced, 0x7b) {
        return None;
    }
    let body: usize = skip_gap(input, braced + 1);
    let (block, done): (Vec<OpTag<Statement>>, usize) = parse_statements(source, input, body);
    let end: usize = skip_gap(input, done);
    if !has_byte(input, end, 0x7d) {
        return None;
    }
    Some((FunctionDef { name, parameters, return_tpe, block }, end + 1))
}

/// The function definitions from `pos` on, and the end of the last.
fn parse_declarations(source: &str, input: &[u8], pos: usize) -> (result: (Vec<Declaration>, usize))
    requires
        input@ == source.spec_bytes(),
        pos <= input.len(),
    ensures
        result.1 == declarations(input@, pos as int, true).1,
        pos <= result.1 <= input.len(),
        result.0@.len() == declarations(input@, pos as int, true).0.len(),
        forall|i: int|
            0 <= i < result.0@.len() ==> (#[trigger] result.0@[i] matches Declaration::Func(
                definition,
            ) && function_is(input@, definition, declarations(input@, pos as int, true).0[i])),
{
    let mut list: Vec<Declaration> = Vec::new();
    let mut end: usize = pos;
    let ghost mut read: Seq<Function> = Seq::empty();
    loop
        invariant
            input@ == source.spec_bytes(),
            pos <= end <= input.len(),
            list@.len() == read.len(),
            forall|i: int|
                0 <= i < list@.len() ==> (#[trigger] list@[i] matches Declaration::Func(
                    definition,
                ) && function_is(input@, definition, read[i])),
            declarations(input@, pos as int, true).0 == read + declarations(
                input@,
                end as int,
                read.len() == 0,
            ).0,
            declarations(input@, pos as int, true).1 == declarations(
                input@,
                end as int,
                read.len() == 0,
            ).1,
        ensures
            pos <= end <= input.len(),
            list@.len() == read.len(),
            forall|i: int|
                0 <= i < list@.len() ==> (#[trigger] list@[i] matches Declaration::Func(
                    definition,
                ) && function_is(input@, definition, read[i])),
            declarations(input@, pos as int, true) == (read, end as int),
        decreases input.len() - end,
    {
        let start: usize = if list.len() == 0 {
            end
        } else {
            skip_gap(input, end)
        };
        match parse_function(source, input, start) {
            Some((found, next)) => {
                proof {
                    let model = function(input@, start as int)->Some_0.0;
                    let rest = declarations(input@, next as int, false).0;
                    assert(read + (seq![model] + rest) =~= read.push(model) + rest);
                    read = read.push(model);
                }
                list.push(Declaration::Func(found));
                end = next;
            },
            None => {
                assert(read + Seq::<Function>::empty() =~= read);
                break ;
            },
        }
    }
    (list, end)
}

/// What is left of a text where reading it as a file stopped.
#[derive(Debug, Clone, Copy, PartialEq, Eq)]
pub struct Leftover {
    pub loc: Loc,
}

impl ParseError for Leftover {
    open spec fn place(&self) -> Loc {
        self.loc
    }

    fn loc(&self) -> (loc: Loc) {
        self.loc
    }
}

/// The syntax that writes the tree down directly: a file is a sequence of
/// function definitions, whose statements are calls in parentheses with the
/// name of what is called in front.
pub struct AstSyntax;

impl Syntax for AstSyntax {
    /// The file that `inp` holds, or what is left of `inp` where reading it
    /// stopped before its end.
    fn parse(inp: &str) -> (result: Result<ParsedFile, Box<dyn ParseError>>)
        ensures
            match file(inp.spec_bytes()) {
                Some(functions) => result matches Ok(parsed) && file_is(
                    inp.spec_bytes(),
                    parsed,
                    functions,
                ),
                None => result matches Err(error) && error.place() == (Loc {
                    left: file_end(inp.spec_bytes()) as usize,
                    right: inp.spec_bytes().len() as usize,
                }),
            },
    {
        let input = inp.as_bytes();
        let start: usize = skip_gap(input, 0);
        let (decls, last): (Vec<Declaration>, usize) = parse_declarations(inp, input, start);
        let end: usize = skip_gap(input, last);
        if end == input.len() {
            Ok(ParsedFile { package: None, imports: Vec::new(), decls })
        } else {
            Err(Box::new(Leftover { loc: Loc { left: end, right: input.len() } }))
        }
    }
}

} // verus!
