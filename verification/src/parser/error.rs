//! The ways in which parsing fails.

use crate::colors::{green, green_text, red, red_text, yellow, yellow_text};
use crate::text::{decimal, decimal_text, line, line_of, push_repeated, repeated};
use vstd::prelude::*;
use vstd::string::StringExecFns;

verus! {

/// What the parser missed or met at the place where it stopped.
#[derive(Debug, Clone, Copy, PartialEq, Eq, Structural)]
pub enum SyntaxCause {
    InvalidExpression,
    MissingCloseBracket,
    MissingCloseParen,
    ExpectedArrayType,
    ExpectedDoAfterIf,
    ExpectedSemicolonOrEnd,
    ExpectedDoAfterElse,
    MissingEndAtElse,
    ExpectedDoAfterWhile,
    ExpectedNameAfterLet,
    MissingColon,
    ExpectedTypeName,
    InvalidUse,
    ExpectedParameterName,
    ExpectedParameterColon,
    ExpectedParameterType,
    ExpectedNameAfterExtern,
    ExpectedParenAfterExternName,
    ExpectedArrow,
    ExpectedReturnTypeAfterExtern,
    ExpectedSemicolonAfterExtern,
    NotAFunction,
    ExpectedNameAfterDef,
    ExpectedParenAfterDefName,
    ExpectedReturnType,
    ExpectedDoInFunction,
    ExpectedEnd,
    ExpectedNameAfterClass,
    ExpectedBraceInClass,
    ExpectedFunction,
    ExpectedNameAfterStruct,
    ExpectedBraceInStruct,
    ExpectedFieldName,
    ExpectedFieldColon,
    ExpectedFieldType,
    ExpectedSemicolonAfterExpression,
}

/// A failure of the parser.
#[derive(Debug, Clone, Copy, PartialEq, Eq, Structural)]
pub enum ParseError {
    /// The tokens ended inside a construct.
    Eof,
    /// A syntax error at a column of a line of the source.
    Syntax { cause: SyntaxCause, pos: i32, line_no: i32 },
    /// A syntax error that is reported without its place.
    Bare(SyntaxCause),
    /// The source indexes into a value, which the language does not do yet.
    Unsupported,
}

impl SyntaxCause {
    /// The text of the message for this cause.
    pub open spec fn text(self) -> Seq<char> {
        match self {
            SyntaxCause::InvalidExpression => "Invalid expression"@,
            SyntaxCause::MissingCloseBracket => "Missing closing ']'"@,
            SyntaxCause::MissingCloseParen => "Missing closing ')'"@,
            SyntaxCause::ExpectedArrayType => "Expected array type after declaration. Eg: [i32 1.2.3]"@,
            SyntaxCause::ExpectedDoAfterIf => "expected 'do' after condition."@,
            SyntaxCause::ExpectedSemicolonOrEnd => "Expected ';' or 'end'"@,
            SyntaxCause::ExpectedDoAfterElse => "Expected 'do'"@,
            SyntaxCause::MissingEndAtElse => "Missing closing 'end' at else."@,
            SyntaxCause::ExpectedDoAfterWhile => "Expected 'do' after condition"@,
            SyntaxCause::ExpectedNameAfterLet => "Expected an identifier after let"@,
            SyntaxCause::MissingColon => "Missing ':'."@,
            SyntaxCause::ExpectedTypeName => "Expected an identifier"@,
            SyntaxCause::InvalidUse => "Invalid 'use' expression"@,
            SyntaxCause::ExpectedParameterName => "Expected Identifier"@,
            SyntaxCause::ExpectedParameterColon => "expected ':' ."@,
            SyntaxCause::ExpectedParameterType => "expected Identifier."@,
            SyntaxCause::ExpectedNameAfterExtern => "Expected Identifier after keyword 'extern'"@,
            SyntaxCause::ExpectedParenAfterExternName => "Expected '(' after identifier"@,
            SyntaxCause::ExpectedArrow => "expected '->'"@,
            SyntaxCause::ExpectedReturnTypeAfterExtern => "expected return type after extern"@,
            SyntaxCause::ExpectedSemicolonAfterExtern => "Semicolon after extern is mandatory."@,
            SyntaxCause::NotAFunction => "PASS"@,
            SyntaxCause::ExpectedNameAfterDef => "Expected Identifier after keyword 'def'"@,
            SyntaxCause::ExpectedParenAfterDefName => "Expected '(' after Identifier"@,
            SyntaxCause::ExpectedReturnType => "expected return type"@,
            SyntaxCause::ExpectedDoInFunction => "expected 'do' in fn def"@,
            SyntaxCause::ExpectedEnd => "expected 'end'"@,
            SyntaxCause::ExpectedNameAfterClass => "Syntax Error: expected Identifier after keyword 'class'"@,
            SyntaxCause::ExpectedBraceInClass => "Expected '{' in class"@,
            SyntaxCause::ExpectedFunction => "SyntaxError: expected Function"@,
            SyntaxCause::ExpectedNameAfterStruct => "Syntax Error: expected Identifier after keyword 'struct'"@,
            SyntaxCause::ExpectedBraceInStruct => "Expected '{' in struct"@,
            SyntaxCause::ExpectedFieldName => "SyntaxError: expected Identifier"@,
            SyntaxCause::ExpectedFieldColon => "SyntaxError: expected colon"@,
            SyntaxCause::ExpectedFieldType => "SyntaxError: expected type"@,
            SyntaxCause::ExpectedSemicolonAfterExpression => "Expected semicolon after expression"@,
        }
    }

    /// The message for this cause.
    pub fn message(self) -> (r: &'static str)
        ensures
            r@ == self.text(),
    {
        match self {
            SyntaxCause::InvalidExpression => "Invalid expression",
            SyntaxCause::MissingCloseBracket => "Missing closing ']'",
            SyntaxCause::MissingCloseParen => "Missing closing ')'",
            SyntaxCause::ExpectedArrayType => "Expected array type after declaration. Eg: [i32 1.2.3]",
            SyntaxCause::ExpectedDoAfterIf => "expected 'do' after condition.",
            SyntaxCause::ExpectedSemicolonOrEnd => "Expected ';' or 'end'",
            SyntaxCause::ExpectedDoAfterElse => "Expected 'do'",
            SyntaxCause::MissingEndAtElse => "Missing closing 'end' at else.",
            SyntaxCause::ExpectedDoAfterWhile => "Expected 'do' after condition",
            SyntaxCause::ExpectedNameAfterLet => "Expected an identifier after let",
            SyntaxCause::MissingColon => "Missing ':'.",
            SyntaxCause::ExpectedTypeName => "Expected an identifier",
            SyntaxCause::InvalidUse => "Invalid 'use' expression",
            SyntaxCause::ExpectedParameterName => "Expected Identifier",
            SyntaxCause::ExpectedParameterColon => "expected ':' .",
            SyntaxCause::ExpectedParameterType => "expected Identifier.",
            SyntaxCause::ExpectedNameAfterExtern => "Expected Identifier after keyword 'extern'",
            SyntaxCause::ExpectedParenAfterExternName => "Expected '(' after identifier",
            SyntaxCause::ExpectedArrow => "expected '->'",
            SyntaxCause::ExpectedReturnTypeAfterExtern => "expected return type after extern",
            SyntaxCause::ExpectedSemicolonAfterExtern => "Semicolon after extern is mandatory.",
            SyntaxCause::NotAFunction => "PASS",
            SyntaxCause::ExpectedNameAfterDef => "Expected Identifier after keyword 'def'",
            SyntaxCause::ExpectedParenAfterDefName => "Expected '(' after Identifier",
            SyntaxCause::ExpectedReturnType => "expected return type",
            SyntaxCause::ExpectedDoInFunction => "expected 'do' in fn def",
            SyntaxCause::ExpectedEnd => "expected 'end'",
            SyntaxCause::ExpectedNameAfterClass => "Syntax Error: expected Identifier after keyword 'class'",
            SyntaxCause::ExpectedBraceInClass => "Expected '{' in class",
            SyntaxCause::ExpectedFunction => "SyntaxError: expected Function",
            SyntaxCause::ExpectedNameAfterStruct => "Syntax Error: expected Identifier after keyword 'struct'",
            SyntaxCause::ExpectedBraceInStruct => "Expected '{' in struct",
            SyntaxCause::ExpectedFieldName => "SyntaxError: expected Identifier",
            SyntaxCause::ExpectedFieldColon => "SyntaxError: expected colon",
            SyntaxCause::ExpectedFieldType => "SyntaxError: expected type",
            SyntaxCause::ExpectedSemicolonAfterExpression => "Expected semicolon after expression",
        }
    }
}

/// The line of `source` with the number `line_no`, counted from 1.
pub open spec fn source_line(source: Seq<char>, line_no: i32) -> Seq<char> {
    if line_no >= 1 {
        line(source, (line_no - 1) as nat)
    } else {
        Seq::empty()
    }
}

/// A row of tildes up to the column `pos`, and a caret at that column.
pub open spec fn pointer(pos: i32) -> Seq<char> {
    if pos >= 0 {
        repeated('~', pos as nat) + "^"@
    } else {
        "^"@
    }
}

/// The report of a syntax error in the file `file` with the text `source`:
/// the line of the error, a red pointer to its column, the message in
/// yellow, and the place in green.
pub open spec fn syntax_report(
    cause: SyntaxCause,
    pos: i32,
    line_no: i32,
    file: Seq<char>,
    source: Seq<char>,
) -> Seq<char> {
    "\n"@ + source_line(source, line_no) + "\n"@ + red_text(pointer(pos)) + "\n"@ + yellow_text(
        cause.text(),
    ) + "\n\n    at "@ + green_text(decimal(line_no as int)) + ":"@ + green_text(decimal(pos as int))
        + " in file `"@ + green_text(file) + "`."@
}

impl ParseError {
    /// The report of this error, found in the file `file` with the text
    /// `source`.
    pub open spec fn report(self, file: Seq<char>, source: Seq<char>) -> Seq<char> {
        match self {
            ParseError::Eof => "EOF"@,
            ParseError::Syntax { cause, pos, line_no } => syntax_report(
                cause,
                pos,
                line_no,
                file,
                source,
            ),
            ParseError::Bare(cause) => cause.text(),
            ParseError::Unsupported => "Indexing is not supported"@,
        }
    }

    /// Writes the report of this error, found in the file `file` with the
    /// text `source`.
    pub fn render(&self, file: &str, source: &str) -> (r: String)
        ensures
            r@ == self.report(file@, source@),
    {
        match self {
            ParseError::Eof => String::from_str("EOF"),
            ParseError::Bare(cause) => String::from_str(cause.message()),
            ParseError::Unsupported => String::from_str("Indexing is not supported"),
            ParseError::Syntax { cause, pos, line_no } => {
                let text: String = if *line_no >= 1 {
                    line_of(source, (*line_no - 1) as usize)
                } else {
                    String::new()
                };
                let mut pointy = String::new();
                if *pos >= 0 {
                    push_repeated(&mut pointy, '~', *pos as usize);
                }
                pointy.append("^");
                assert(pointy@ =~= pointer(*pos));
                let mut r = String::from_str("\n");
                r.append(text.as_str());
                r.append("\n");
                r.append(red(pointy.as_str()).as_str());
                r.append("\n");
                r.append(yellow(cause.message()).as_str());
                r.append("\n\n    at ");
                r.append(green(decimal_text(*line_no).as_str()).as_str());
                r.append(":");
                r.append(green(decimal_text(*pos).as_str()).as_str());
                r.append(" in file `");
                r.append(green(file).as_str());
                r.append("`.");
                r
            },
        }
    }
}

} // verus!
