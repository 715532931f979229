//! Parsing of whole programs.

use crate::lexer::tokens::TokenType;
use crate::parser::ast::{program_view, AstNode, Node, NodePos, NodePosition};
use crate::parser::error::{ParseError, SyntaxCause};
use crate::parser::grammar::remaining;
use crate::parser::toplevel::parse_program_spec;
use crate::parser::Parser;
use vstd::prelude::*;

verus! {

/// The model of what the parser of a program returns.
pub open spec fn program_outcome(r: Result<Vec<(AstNode, NodePosition)>, ParseError>) -> Result<
    Seq<(Node, NodePos)>,
    ParseError,
> {
    match r {
        Ok(v) => Ok(program_view(v@)),
        Err(e) => Err(e),
    }
}

/// The model of a program grows with the program.
pub proof fn lemma_program_view_push(v: Seq<(AstNode, NodePosition)>, n: (AstNode, NodePosition))
    ensures
        program_view(v.push(n)) == program_view(v).push((n.0@, n.1@)),
{
    assert(program_view(v.push(n)) =~= program_view(v).push((n.0@, n.1@)));
}

impl Parser {
    /// Parses the rest of the tokens as a program: its nodes in order, each
    /// with its position. An error `Eof` inside a node ends the program
    /// without that node.
    pub fn parse_program(&mut self) -> (r: Result<Vec<(AstNode, NodePosition)>, ParseError>)
        requires
            old(self).wf(),
        ensures
            final(self).follows(old(self)),
            final(self).ctx() == parse_program_spec(
                old(self).input(),
                old(self).ctx(),
                Seq::empty(),
            ).ctx,
            program_outcome(r) == parse_program_spec(
                old(self).input(),
                old(self).ctx(),
                Seq::empty(),
            ).result,
    {
        let ghost inp = self.input();
        let ghost begin = self.ctx();
        let mut ast: Vec<(AstNode, NodePosition)> = Vec::new();
        assert(program_view(ast@) =~= Seq::<(Node, NodePos)>::empty());
        loop
            invariant
                self.follows(old(self)),
                inp == old(self).input(),
                begin == old(self).ctx(),
                parse_program_spec(inp, self.ctx(), program_view(ast@)) == parse_program_spec(
                    inp,
                    begin,
                    Seq::empty(),
                ),
            decreases remaining(inp, self.state()),
        {
            proof {
                self.lemma_cursor_in_input();
            }
            if self.at_end() {
                return Ok(ast);
            }
            let node: (AstNode, NodePosition);
            if matches!(self.peek_type(), TokenType::Extern) {
                match self.parse_extern() {
                    Ok((result, pos)) => {
                        node = (AstNode::Extern(result), pos);
                    },
                    Err(e) => {
                        return if e == ParseError::Eof {
                            Ok(ast)
                        } else {
                            Err(e)
                        };
                    },
                }
            } else if matches!(self.peek_type(), TokenType::Def) {
                match self.parse_function() {
                    Ok((result, pos)) => {
                        node = (AstNode::FunctionDef(result), pos);
                    },
                    Err(e) => {
                        return if e == ParseError::Eof {
                            Ok(ast)
                        } else {
                            Err(e)
                        };
                    },
                }
            } else if matches!(self.peek_type(), TokenType::Class) {
                match self.parse_class() {
                    Ok((result, pos)) => {
                        node = (AstNode::Class(result), pos);
                    },
                    Err(e) => {
                        return if e == ParseError::Eof {
                            Ok(ast)
                        } else {
                            Err(e)
                        };
                    },
                }
            } else {
                match self.parse_expression() {
                    Ok((result, pos)) => {
                        if self.at_end() {
                            return Err(ParseError::Eof);
                        }
                        if !matches!(self.peek_type(), TokenType::Semicolon) {
                            return Err(
                                self.parser_error(SyntaxCause::ExpectedSemicolonAfterExpression),
                            );
                        }
                        self.skip_token();
                        node = (AstNode::Expression(result), pos);
                    },
                    Err(e) => {
                        return if e == ParseError::Eof {
                            Ok(ast)
                        } else {
                            Err(e)
                        };
                    },
                }
            }
            proof {
                lemma_program_view_push(ast@, node);
            }
            ast.push(node);
        }
    }
}

} // verus!
