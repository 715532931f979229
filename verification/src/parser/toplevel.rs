//! The grammar of declarations and of whole programs, as functions on
//! sequences of tokens.

use crate::lexer::tokens::TokenKind;
use crate::names::{put_name, put_value};
use crate::parser::ast::{ArgsModel, ClassModel, ExternalModel, FieldModel, FunctionModel, Node, NodePos};
use crate::parser::error::{ParseError, SyntaxCause};
use crate::parser::grammar::{
    block_spec, done, eat, fail, here, parse_expression_spec, peek, remaining, skip, syntax_at,
    Input, Parsed, State,
};
use crate::SymbolModel;
use vstd::prelude::*;

verus! {

/// The model of a symbol table.
pub ghost struct Table {
    pub names: Seq<Seq<char>>,
    pub symbols: Seq<SymbolModel>,
}

/// The table `t` with `symbol` recorded under `name`.
pub open spec fn record(t: Table, name: Seq<char>, symbol: SymbolModel) -> Table {
    Table { names: put_name(t.names, name), symbols: put_value(t.names, t.symbols, name, symbol) }
}

/// What parsing at the top level reads and changes: the state in the
/// tokens, the label of the current scope and the symbol table.
pub ghost struct Ctx {
    pub st: State,
    pub scope: Seq<char>,
    pub table: Table,
}

/// The outcome of a parsing function of the top level.
pub ghost struct Top<T> {
    pub result: Result<T, ParseError>,
    pub ctx: Ctx,
}

impl<T> Top<T> {
    /// This outcome, of a function that started at `from` and succeeds only
    /// when it has passed a token: its state is never before `from`, and
    /// behind `from` where it succeeded.
    pub open spec fn onward(self, from: State) -> Self {
        let p = (Parsed { result: self.result, st: self.ctx.st }).onward(from);
        Top { result: self.result, ctx: Ctx { st: p.st, scope: self.ctx.scope, table: self.ctx.table } }
    }
}

/// `c` with the state `st`.
pub open spec fn at(c: Ctx, st: State) -> Ctx {
    Ctx { st, scope: c.scope, table: c.table }
}

/// A parameter: a name, a colon and a type.
pub open spec fn parse_type_annot_spec(inp: Input, st: State) -> Parsed<(Seq<char>, Seq<char>)> {
    match peek(inp, st) {
        None => fail(st, ParseError::Eof),
        Some(TokenKind::Identifier(name)) => {
            let s1 = eat(inp, st);
            match peek(inp, s1) {
                None => fail(s1, ParseError::Eof),
                Some(k) => if k is Colon {
                    let s2 = eat(inp, s1);
                    match peek(inp, s2) {
                        None => fail(s2, ParseError::Eof),
                        Some(TokenKind::Identifier(t)) => done(eat(inp, s2), (name, t)),
                        Some(_) => fail(s2, ParseError::Bare(SyntaxCause::ExpectedParameterType)),
                    }
                } else {
                    fail(s1, ParseError::Bare(SyntaxCause::ExpectedParameterColon))
                },
            }
        },
        Some(_) => fail(st, syntax_at(st, SyntaxCause::ExpectedParameterName)),
    }
}

/// The parameters behind those in `names` and `types`, with or without
/// commas between them, up to the closing parenthesis.
pub open spec fn params_spec(
    inp: Input,
    st: State,
    names: Seq<Seq<char>>,
    types: Seq<Seq<char>>,
) -> Parsed<ArgsModel>
    decreases remaining(inp, st),
{
    match peek(inp, st) {
        None => fail(st, ParseError::Eof),
        Some(k) => if k is Comma {
            params_spec(inp, eat(inp, st), names, types)
        } else if k is RParen {
            done(eat(inp, st), ArgsModel { name: names, type_: types })
        } else {
            let a = parse_type_annot_spec(inp, st).onward(st);
            match a.result {
                Err(e) => fail(a.st, e),
                Ok((n, t)) => params_spec(inp, a.st, names.push(n), types.push(t)),
            }
        },
    }
}

/// The declaration of an outside function: `extern`, its name, its
/// parameters in parentheses, `->`, the type of its result and a semicolon.
pub open spec fn extern_spec(inp: Input, st: State) -> Parsed<(ExternalModel, NodePos)> {
    match peek(inp, st) {
        None => fail(st, ParseError::Eof),
        Some(_) => {
            let s1 = eat(inp, st);
            match peek(inp, s1) {
                None => fail(s1, ParseError::Eof),
                Some(TokenKind::Identifier(name)) => {
                    let s2 = eat(inp, s1);
                    match peek(inp, s2) {
                        None => fail(s2, ParseError::Eof),
                        Some(k) => if k is LParen {
                            let p = params_spec(inp, eat(inp, s2), Seq::empty(), Seq::empty());
                            match p.result {
                                Err(e) => fail(p.st, e),
                                Ok(args) => extern_result_spec(inp, p.st, name, args, here(inp, st)),
                            }
                        } else {
                            fail(s2, syntax_at(s2, SyntaxCause::ExpectedParenAfterExternName))
                        },
                    }
                },
                Some(_) => fail(s1, syntax_at(s1, SyntaxCause::ExpectedNameAfterExtern)),
            }
        },
    }
}

/// What follows the parameters of the declaration of an outside function.
pub open spec fn extern_result_spec(
    inp: Input,
    st: State,
    name: Seq<char>,
    args: ArgsModel,
    at: NodePos,
) -> Parsed<(ExternalModel, NodePos)> {
    match peek(inp, st) {
        None => fail(st, ParseError::Eof),
        Some(k) => if k is Arrow {
            let s1 = eat(inp, st);
            match peek(inp, s1) {
                None => fail(s1, ParseError::Eof),
                Some(TokenKind::Identifier(ret)) => {
                    let s2 = eat(inp, s1);
                    match peek(inp, s2) {
                        None => fail(s2, ParseError::Eof),
                        Some(k2) => if k2 is Semicolon {
                            done(eat(inp, s2), (ExternalModel { name, args, return_type: ret }, at))
                        } else {
                            fail(s2, syntax_at(s2, SyntaxCause::ExpectedSemicolonAfterExtern))
                        },
                    }
                },
                Some(_) => fail(s1, syntax_at(s1, SyntaxCause::ExpectedReturnTypeAfterExtern)),
            }
        } else {
            fail(st, syntax_at(st, SyntaxCause::ExpectedArrow))
        },
    }
}

/// The declaration of an outside function, which records the function's
/// result type in the symbol table under the current scope.
pub open spec fn parse_extern_spec(inp: Input, c: Ctx) -> Top<(ExternalModel, NodePos)> {
    let p = extern_spec(inp, c.st);
    match p.result {
        Err(e) => Top { result: Err(e), ctx: at(c, p.st) },
        Ok((e, pos)) => Top {
            result: Ok((e, pos)),
            ctx: Ctx {
                st: p.st,
                scope: c.scope,
                table: record(
                    c.table,
                    e.name,
                    SymbolModel { type_: e.return_type, scope: c.scope },
                ),
            },
        },
    }
}

/// What follows the name of a function in its definition: the parameters in
/// parentheses, `->`, the type of the result, `do`, the body, `end` and
/// optionally a semicolon.
pub open spec fn function_rest_spec(inp: Input, st: State, name: Seq<char>) -> Parsed<FunctionModel> {
    match peek(inp, st) {
        None => fail(st, ParseError::Eof),
        Some(k) => if k is LParen {
            let s1 = skip(st);
            match peek(inp, s1) {
                None => fail(s1, ParseError::Eof),
                Some(k1) => {
                    let p = if k1 is RParen {
                        done(skip(s1), ArgsModel { name: Seq::empty(), type_: Seq::empty() })
                    } else {
                        params_spec(inp, s1, Seq::empty(), Seq::empty())
                    };
                    match p.result {
                        Err(e) => fail(p.st, e),
                        Ok(args) => function_result_spec(inp, p.st, name, args),
                    }
                },
            }
        } else {
            fail(st, syntax_at(st, SyntaxCause::ExpectedParenAfterDefName))
        },
    }
}

/// What follows the parameters of a function in its definition.
pub open spec fn function_result_spec(inp: Input, st: State, name: Seq<char>, args: ArgsModel) -> Parsed<
    FunctionModel,
> {
    match peek(inp, st) {
        None => fail(st, ParseError::Eof),
        Some(k) => if k is Arrow {
            let s1 = eat(inp, st);
            match peek(inp, s1) {
                None => fail(s1, ParseError::Eof),
                Some(TokenKind::Identifier(ret)) => {
                    let s2 = eat(inp, s1);
                    match peek(inp, s2) {
                        None => fail(s2, ParseError::Eof),
                        Some(k2) => if k2 is Do {
                            let b = block_spec(inp, eat(inp, s2), false, Seq::empty());
                            match b.result {
                                Err(e) => fail(b.st, e),
                                Ok(body) => match peek(inp, b.st) {
                                    None => fail(b.st, ParseError::Eof),
                                    Some(k3) => if k3 is End {
                                        let s3 = eat(inp, b.st);
                                        let s4 = if peek(inp, s3) == Some(TokenKind::Semicolon) {
                                            eat(inp, s3)
                                        } else {
                                            s3
                                        };
                                        done(
                                            s4,
                                            FunctionModel {
                                                name,
                                                args,
                                                expressions: body,
                                                return_type: ret,
                                            },
                                        )
                                    } else {
                                        fail(b.st, syntax_at(b.st, SyntaxCause::ExpectedEnd))
                                    },
                                },
                            }
                        } else {
                            fail(s2, syntax_at(s2, SyntaxCause::ExpectedDoInFunction))
                        },
                    }
                },
                Some(_) => fail(s1, syntax_at(s1, SyntaxCause::ExpectedReturnType)),
            }
        } else {
            fail(st, syntax_at(st, SyntaxCause::ExpectedArrow))
        },
    }
}

/// The text `global`, the label of the outermost scope.
pub open spec fn global() -> Seq<char> {
    "global"@
}

/// The definition of a function. While the function is parsed the scope is
/// the old scope, a dot and the function's name; behind the function it is
/// `global`, and the function's result type is recorded under that scope.
pub open spec fn parse_function_spec(inp: Input, c: Ctx) -> Top<(FunctionModel, NodePos)> {
    if peek(inp, c.st) == Some(TokenKind::Def) {
        let s1 = eat(inp, c.st);
        match peek(inp, s1) {
            None => Top { result: Err(ParseError::Eof), ctx: at(c, s1) },
            Some(TokenKind::Identifier(name)) => {
                let inner = c.scope + "."@ + name;
                let f = function_rest_spec(inp, eat(inp, s1), name);
                match f.result {
                    Err(e) => Top {
                        result: Err(e),
                        ctx: Ctx { st: f.st, scope: inner, table: c.table },
                    },
                    Ok(def) => Top {
                        result: Ok((def, here(inp, c.st))),
                        ctx: Ctx {
                            st: f.st,
                            scope: global(),
                            table: record(
                                c.table,
                                name,
                                SymbolModel { type_: def.return_type, scope: global() },
                            ),
                        },
                    },
                }
            },
            Some(_) => Top {
                result: Err(syntax_at(s1, SyntaxCause::ExpectedNameAfterDef)),
                ctx: at(c, s1),
            },
        }
    } else {
        Top { result: Err(ParseError::Bare(SyntaxCause::NotAFunction)), ctx: c }
    }
}

/// A class: `class`, its name, and its methods between braces.
pub open spec fn parse_class_spec(inp: Input, c: Ctx) -> Top<(ClassModel, NodePos)> {
    match peek(inp, c.st) {
        None => Top { result: Err(ParseError::Eof), ctx: c },
        Some(_) => {
            let s1 = eat(inp, c.st);
            match peek(inp, s1) {
                None => Top { result: Err(ParseError::Eof), ctx: at(c, s1) },
                Some(TokenKind::Identifier(name)) => {
                    let s2 = eat(inp, s1);
                    match peek(inp, s2) {
                        None => Top { result: Err(ParseError::Eof), ctx: at(c, s2) },
                        Some(k) => if k is LBrace {
                            class_methods_spec(
                                inp,
                                at(c, eat(inp, s2)),
                                name,
                                here(inp, c.st),
                                Seq::empty(),
                            )
                        } else {
                            Top {
                                result: Err(ParseError::Bare(SyntaxCause::ExpectedBraceInClass)),
                                ctx: at(c, eat(inp, s2)),
                            }
                        },
                    }
                },
                Some(_) => Top {
                    result: Err(ParseError::Bare(SyntaxCause::ExpectedNameAfterClass)),
                    ctx: at(c, s1),
                },
            }
        },
    }
}

/// The methods of the class `name` behind those in `acc`, up to the closing
/// brace.
pub open spec fn class_methods_spec(
    inp: Input,
    c: Ctx,
    name: Seq<char>,
    pos: NodePos,
    acc: Seq<(FunctionModel, NodePos)>,
) -> Top<(ClassModel, NodePos)>
    decreases remaining(inp, c.st),
{
    match peek(inp, c.st) {
        None => Top { result: Err(ParseError::Eof), ctx: c },
        Some(k) => if k is RBrace {
            Top { result: Ok((ClassModel { name, fns: acc }, pos)), ctx: at(c, eat(inp, c.st)) }
        } else if k is Def {
            let f = parse_function_spec(inp, c).onward(c.st);
            match f.result {
                Err(e) => Top { result: Err(e), ctx: f.ctx },
                Ok(m) => class_methods_spec(inp, f.ctx, name, pos, acc.push(m)),
            }
        } else {
            Top { result: Err(syntax_at(c.st, SyntaxCause::ExpectedFunction)), ctx: c }
        },
    }
}

/// The fields of a struct as a table: the names of the fields and, index by
/// index, what is known of each.
pub ghost struct Fields {
    pub names: Seq<Seq<char>>,
    pub infos: Seq<FieldModel>,
}

/// A struct declaration: a first token, the name of the struct, and between
/// braces its fields, each a name, a colon and a type. The fields are
/// numbered from 0 in the order in which they are written.
pub open spec fn parse_struct_spec(inp: Input, st: State) -> Parsed<((Seq<char>, Fields), NodePos)> {
    match peek(inp, st) {
        None => fail(st, ParseError::Eof),
        Some(_) => {
            let s1 = eat(inp, st);
            match peek(inp, s1) {
                None => fail(s1, ParseError::Eof),
                Some(TokenKind::Identifier(name)) => {
                    let s2 = eat(inp, s1);
                    match peek(inp, s2) {
                        None => fail(s2, ParseError::Eof),
                        Some(k) => if k is LBrace {
                            struct_fields_spec(
                                inp,
                                eat(inp, s2),
                                name,
                                here(inp, st),
                                Fields { names: Seq::empty(), infos: Seq::empty() },
                                0,
                            )
                        } else {
                            fail(eat(inp, s2), ParseError::Bare(SyntaxCause::ExpectedBraceInStruct))
                        },
                    }
                },
                Some(_) => fail(s1, ParseError::Bare(SyntaxCause::ExpectedNameAfterStruct)),
            }
        },
    }
}

/// The fields of the struct `name` behind those in `acc`, the next of which
/// gets the number `index`, up to the closing brace.
pub open spec fn struct_fields_spec(
    inp: Input,
    st: State,
    name: Seq<char>,
    pos: NodePos,
    acc: Fields,
    index: int,
) -> Parsed<((Seq<char>, Fields), NodePos)>
    decreases remaining(inp, st),
{
    match peek(inp, st) {
        None => fail(st, ParseError::Eof),
        Some(k) => if k is RBrace {
            done(eat(inp, st), ((name, acc), pos))
        } else {
            match k {
                TokenKind::Identifier(field) => {
                    let s1 = eat(inp, st);
                    match peek(inp, s1) {
                        None => fail(s1, ParseError::Eof),
                        Some(k1) => {
                            let s2 = eat(inp, s1);
                            if k1 is Colon {
                                match peek(inp, s2) {
                                    None => fail(s2, ParseError::Eof),
                                    Some(TokenKind::Identifier(type_)) => struct_fields_spec(
                                        inp,
                                        eat(inp, s2),
                                        name,
                                        pos,
                                        Fields {
                                            names: put_name(acc.names, field),
                                            infos: put_value(
                                                acc.names,
                                                acc.infos,
                                                field,
                                                FieldModel { type_, index },
                                            ),
                                        },
                                        index + 1,
                                    ),
                                    Some(_) => fail(
                                        eat(inp, s2),
                                        syntax_at(eat(inp, s2), SyntaxCause::ExpectedFieldType),
                                    ),
                                }
                            } else {
                                fail(s2, syntax_at(s2, SyntaxCause::ExpectedFieldColon))
                            }
                        },
                    }
                },
                _ => fail(st, syntax_at(st, SyntaxCause::ExpectedFieldName)),
            }
        },
    }
}

/// The end of parsing a program at an error `e` of one of its nodes: the
/// error `Eof` ends the program with the nodes read so far, and any other
/// error is the error of the program.
pub open spec fn program_end(e: ParseError, c: Ctx, acc: Seq<(Node, NodePos)>) -> Top<
    Seq<(Node, NodePos)>,
> {
    if e == ParseError::Eof {
        Top { result: Ok(acc), ctx: c }
    } else {
        Top { result: Err(e), ctx: c }
    }
}

/// The nodes of a program behind those in `acc`: declarations of outside
/// functions, definitions of functions, classes, and expressions that end in
/// a semicolon.
pub open spec fn parse_program_spec(inp: Input, c: Ctx, acc: Seq<(Node, NodePos)>) -> Top<
    Seq<(Node, NodePos)>,
>
    decreases remaining(inp, c.st),
{
    match peek(inp, c.st) {
        None => Top { result: Ok(acc), ctx: c },
        Some(k) => if k is Extern {
            let r = parse_extern_spec(inp, c).onward(c.st);
            match r.result {
                Ok((e, pos)) => parse_program_spec(inp, r.ctx, acc.push((Node::Extern(e), pos))),
                Err(e) => program_end(e, r.ctx, acc),
            }
        } else if k is Def {
            let r = parse_function_spec(inp, c).onward(c.st);
            match r.result {
                Ok((f, pos)) => parse_program_spec(inp, r.ctx, acc.push((Node::FunctionDef(f), pos))),
                Err(e) => program_end(e, r.ctx, acc),
            }
        } else if k is Class {
            let r = parse_class_spec(inp, c).onward(c.st);
            match r.result {
                Ok((cl, pos)) => parse_program_spec(inp, r.ctx, acc.push((Node::Class(cl), pos))),
                Err(e) => program_end(e, r.ctx, acc),
            }
        } else {
            let r = parse_expression_spec(inp, c.st).onward(c.st);
            match r.result {
                Ok((e, pos)) => match peek(inp, r.st) {
                    None => Top { result: Err(ParseError::Eof), ctx: at(c, r.st) },
                    Some(k2) => if k2 is Semicolon {
                        parse_program_spec(
                            inp,
                            at(c, skip(r.st)),
                            acc.push((Node::Expression(e), pos)),
                        )
                    } else {
                        Top {
                            result: Err(
                                syntax_at(r.st, SyntaxCause::ExpectedSemicolonAfterExpression),
                            ),
                            ctx: at(c, r.st),
                        }
                    },
                },
                Err(e) => program_end(e, at(c, r.st), acc),
            }
        },
    }
}

} // verus!
