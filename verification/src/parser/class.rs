//! Parsing of classes and structs.

use crate::lexer::tokens::TokenType;
use crate::names::{put_value, NameMap};
use crate::parser::ast::{
    fields_view, methods_view, Class, ClassModel, FieldInfo, FieldModel, Function, FunctionModel,
    NodePos, NodePosition,
};
use crate::parser::error::{ParseError, SyntaxCause};
use crate::parser::grammar::remaining;
use crate::parser::toplevel::{
    class_methods_spec, parse_class_spec, parse_struct_spec, struct_fields_spec, Fields,
};
use crate::parser::Parser;
use vstd::prelude::*;

verus! {

/// The model of what the parser of a class returns.
pub open spec fn class_outcome(r: Result<(Class, NodePosition), ParseError>) -> Result<
    (ClassModel, NodePos),
    ParseError,
> {
    match r {
        Ok((c, at)) => Ok((c@, at@)),
        Err(e) => Err(e),
    }
}

/// The model of the fields of a struct.
pub open spec fn fields_of(m: NameMap<FieldInfo>) -> Fields {
    Fields { names: m.names(), infos: fields_view(m.values()) }
}

/// The model of what the parser of a struct returns.
pub open spec fn struct_outcome(
    r: Result<((String, NameMap<FieldInfo>), NodePosition), ParseError>,
) -> Result<((Seq<char>, Fields), NodePos), ParseError> {
    match r {
        Ok(((name, m), at)) => Ok(((name@, fields_of(m)), at@)),
        Err(e) => Err(e),
    }
}

/// The model of a vector of methods grows with the vector.
pub proof fn lemma_methods_view_push(v: Seq<(Function, NodePosition)>, m: (Function, NodePosition))
    ensures
        methods_view(v.push(m)) == methods_view(v).push((m.0@, m.1@)),
{
    assert(methods_view(v.push(m)) =~= methods_view(v).push((m.0@, m.1@)));
}

/// The model of the fields of a table follows what is put in the table.
pub proof fn lemma_fields_view_put(names: Seq<Seq<char>>, v: Seq<FieldInfo>, name: Seq<char>, f: FieldInfo)
    requires
        names.len() == v.len(),
    ensures
        fields_view(put_value(names, v, name, f)) == put_value(names, fields_view(v), name, f@),
{
    assert(fields_view(put_value(names, v, name, f)) =~= put_value(
        names,
        fields_view(v),
        name,
        f@,
    ));
}

impl Parser {
    /// Parses a class.
    pub fn parse_class(&mut self) -> (r: Result<(Class, NodePosition), ParseError>)
        requires
            old(self).wf(),
        ensures
            final(self).follows(old(self)),
            final(self).ctx() == parse_class_spec(old(self).input(), old(self).ctx()).ctx,
            class_outcome(r) == parse_class_spec(old(self).input(), old(self).ctx()).result,
            r is Ok ==> final(self).state().cursor > old(self).state().cursor,
    {
        if self.at_end() {
            return Err(ParseError::Eof);
        }
        let start = self.here();
        self.eat();
        if self.at_end() {
            return Err(ParseError::Eof);
        }
        let name: String = match self.peek_type() {
            TokenType::Identifier(i) => i.clone(),
            _ => {
                return Err(ParseError::Bare(SyntaxCause::ExpectedNameAfterClass));
            },
        };
        self.eat();
        if self.at_end() {
            return Err(ParseError::Eof);
        }
        let opened: bool = matches!(self.peek_type(), TokenType::LBrace);
        self.eat();
        if !opened {
            return Err(ParseError::Bare(SyntaxCause::ExpectedBraceInClass));
        }
        let ghost inp = self.input();
        let ghost begin = self.ctx();
        let mut fns: Vec<(Function, NodePosition)> = Vec::new();
        assert(methods_view(fns@) =~= Seq::<(FunctionModel, NodePos)>::empty());
        loop
            invariant
                self.follows(old(self)),
                self.state().cursor > old(self).state().cursor,
                inp == old(self).input(),
                class_methods_spec(inp, self.ctx(), name@, start@, methods_view(fns@))
                    == parse_class_spec(inp, old(self).ctx()),
            decreases remaining(inp, self.state()),
        {
            proof {
                self.lemma_cursor_in_input();
            }
            if self.at_end() {
                return Err(ParseError::Eof);
            }
            if matches!(self.peek_type(), TokenType::RBrace) {
                self.eat();
                return Ok((Class { name, fns }, start));
            }
            if !matches!(self.peek_type(), TokenType::Def) {
                return Err(self.parser_error(SyntaxCause::ExpectedFunction));
            }
            match self.parse_function() {
                Ok(m) => {
                    proof {
                        lemma_methods_view_push(fns@, m);
                    }
                    fns.push(m);
                },
                Err(e) => {
                    return Err(e);
                },
            }
        }
    }

    /// Parses a struct declaration.
    pub fn parse_struct(&mut self) -> (r: Result<
        ((String, NameMap<FieldInfo>), NodePosition),
        ParseError,
    >)
        requires
            old(self).wf(),
            old(self).input().toks.len() <= i32::MAX,
        ensures
            final(self).continues(old(self)),
            final(self).state() == parse_struct_spec(old(self).input(), old(self).state()).st,
            struct_outcome(r) == parse_struct_spec(old(self).input(), old(self).state()).result,
            r matches Ok(((_, m), _)) ==> m.wf(),
            r is Ok ==> final(self).state().cursor > old(self).state().cursor,
    {
        if self.at_end() {
            return Err(ParseError::Eof);
        }
        let start = self.here();
        self.eat();
        if self.at_end() {
            return Err(ParseError::Eof);
        }
        let name: String = match self.peek_type() {
            TokenType::Identifier(i) => i.clone(),
            _ => {
                return Err(ParseError::Bare(SyntaxCause::ExpectedNameAfterStruct));
            },
        };
        self.eat();
        if self.at_end() {
            return Err(ParseError::Eof);
        }
        let opened: bool = matches!(self.peek_type(), TokenType::LBrace);
        self.eat();
        if !opened {
            return Err(ParseError::Bare(SyntaxCause::ExpectedBraceInStruct));
        }
        let ghost inp = self.input();
        let mut members: NameMap<FieldInfo> = NameMap::new();
        let mut index: i32 = 0;
        assert(fields_view(members.values()) =~= Seq::<FieldModel>::empty());
        loop
            invariant
                self.continues(old(self)),
                self.state().cursor > old(self).state().cursor,
                inp == old(self).input(),
                inp.toks.len() <= i32::MAX,
                members.wf(),
                0 <= index <= self.state().cursor,
                struct_fields_spec(
                    inp,
                    self.state(),
                    name@,
                    start@,
                    fields_of(members),
                    index as int,
                ) == parse_struct_spec(inp, old(self).state()),
            decreases remaining(inp, self.state()),
        {
            proof {
                self.lemma_cursor_in_input();
            }
            if self.at_end() {
                return Err(ParseError::Eof);
            }
            if matches!(self.peek_type(), TokenType::RBrace) {
                self.eat();
                return Ok(((name, members), start));
            }
            let field: String = match self.peek_type() {
                TokenType::Identifier(n) => n.clone(),
                _ => {
                    return Err(self.parser_error(SyntaxCause::ExpectedFieldName));
                },
            };
            self.eat();
            if self.at_end() {
                return Err(ParseError::Eof);
            }
            let colon: bool = matches!(self.peek_type(), TokenType::Colon);
            self.eat();
            if !colon {
                return Err(self.parser_error(SyntaxCause::ExpectedFieldColon));
            }
            if self.at_end() {
                return Err(ParseError::Eof);
            }
            let type_: Option<String> = match self.peek_type() {
                TokenType::Identifier(t) => Some(t.clone()),
                _ => None,
            };
            self.eat();
            match type_ {
                Some(t) => {
                    let info = FieldInfo { type_: t, index };
                    proof {
                        members.lemma_lengths();
                        lemma_fields_view_put(members.names(), members.values(), field@, info);
                    }
                    members.insert(field, info);
                    index += 1;
                },
                None => {
                    return Err(self.parser_error(SyntaxCause::ExpectedFieldType));
                },
            }
        }
    }
}

} // verus!
