//! Lexical analysis: from source text to tokens.
//!
//! The lexer is specified by [`lex_next`], a function from the input and a
//! [`Place`] in it to the next token and the place behind it. [`Lexer::next`]
//! computes exactly that function.

pub mod laws;
pub mod tokens;

use crate::lexer::tokens::{Token, TokenKind, TokenModel, TokenType};
use vstd::prelude::*;
use vstd::string::StringExecFns;

verus! {

/// What `char::is_numeric` answers for a character: whether Unicode puts it in
/// one of its number categories. It depends on the character alone.
pub uninterp spec fn unicode_numeric(c: char) -> bool;

/// `char::is_numeric` of the standard library. Nothing is claimed of it but
/// that its answer is a function of the character.
pub assume_specification[ char::is_numeric ](c: char) -> (r: bool)
    ensures
        r == unicode_numeric(c),
;

/// `String::push` of the standard library appends the character to the text.
pub assume_specification[ String::push ](s: &mut String, c: char)
    ensures
        final(s)@ == old(s)@.push(c),
;

/// A position of the lexer in its input.
pub ghost struct Place {
    /// Index of the next character to read.
    pub cursor: int,
    /// Column counter.
    pub pos: int,
    /// Line counter, starting at 1.
    pub line_no: int,
}

/// The sets of characters that a run of input is collected from.
#[derive(Clone, Copy, Debug)]
pub enum CharClass {
    /// ASCII letters, ASCII digits and the underscore.
    Identifier,
    /// Characters that count as numeric.
    Numeric,
    /// Every character but the given one.
    Until(char),
}

/// Whether `c` may stand inside an identifier.
pub open spec fn is_identifier_char(c: char) -> bool {
    ('a' <= c && c <= 'z') || ('A' <= c && c <= 'Z') || ('0' <= c && c <= '9') || c == '_'
}

/// Whether `c` is one of the ten ASCII digits.
pub open spec fn is_digit(c: char) -> bool {
    '0' <= c && c <= '9'
}

/// Whether `c` starts or continues a numeric literal: among ASCII characters
/// the digits, beyond ASCII whatever Unicode calls numeric.
pub open spec fn is_numeric_char(c: char) -> bool {
    if (c as u32) < 128 {
        is_digit(c)
    } else {
        unicode_numeric(c)
    }
}

/// Whether `c` may start an identifier: an ASCII letter or the underscore.
pub open spec fn is_identifier_start(c: char) -> bool {
    is_identifier_char(c) && !is_numeric_char(c)
}

impl CharClass {
    /// Membership of `c` in the class.
    pub open spec fn holds(self, c: char) -> bool {
        match self {
            CharClass::Identifier => is_identifier_char(c),
            CharClass::Numeric => is_numeric_char(c),
            CharClass::Until(stop) => c != stop,
        }
    }

    /// Decides membership of `c` in the class.
    pub fn test(self, c: char) -> (r: bool)
        ensures
            r == self.holds(c),
    {
        match self {
            CharClass::Identifier => Lexer::is_in_identifier(c),
            CharClass::Numeric => is_numeric(c),
            CharClass::Until(stop) => c != stop,
        }
    }
}

/// Decides whether `c` counts as numeric.
pub fn is_numeric(c: char) -> (r: bool)
    ensures
        r == is_numeric_char(c),
{
    if (c as u32) < 128 {
        '0' <= c && c <= '9'
    } else {
        c.is_numeric()
    }
}

/// The place after reading `c` as part of a run: a newline starts a new line
/// at column 0, any other character moves one column on.
pub open spec fn over(p: Place, c: char) -> Place {
    if c == '\n' {
        Place { cursor: p.cursor + 1, pos: 0, line_no: p.line_no + 1 }
    } else {
        Place { cursor: p.cursor + 1, pos: p.pos + 1, line_no: p.line_no }
    }
}

/// The place behind the longest run of characters of `class` that starts at `p`.
pub open spec fn eat_while(s: Seq<char>, p: Place, class: CharClass) -> Place
    decreases s.len() - p.cursor,
{
    if 0 <= p.cursor < s.len() && class.holds(s[p.cursor]) {
        eat_while(s, over(p, s[p.cursor]), class)
    } else {
        p
    }
}

/// A run never moves backwards, ends inside the input, and counts at most one
/// column or line per character.
pub proof fn lemma_eat_while_bounds(s: Seq<char>, p: Place, class: CharClass)
    requires
        0 <= p.cursor <= s.len(),
    ensures
        p.cursor <= eat_while(s, p, class).cursor <= s.len(),
        p.pos < p.cursor ==> eat_while(s, p, class).pos < eat_while(s, p, class).cursor,
        -1 <= p.pos ==> -1 <= eat_while(s, p, class).pos,
        p.line_no <= eat_while(s, p, class).line_no,
        eat_while(s, p, class).line_no - eat_while(s, p, class).cursor <= p.line_no - p.cursor,
        forall|i: int| p.cursor <= i < eat_while(s, p, class).cursor ==> class.holds(#[trigger] s[i]),
        eat_while(s, p, class).cursor < s.len() ==> !class.holds(
            s[eat_while(s, p, class).cursor],
        ),
    decreases s.len() - p.cursor,
{
    if 0 <= p.cursor < s.len() && class.holds(s[p.cursor]) {
        lemma_eat_while_bounds(s, over(p, s[p.cursor]), class);
    }
}

/// The place behind the blanks and comments that start at `p`: spaces, tabs
/// and newlines are skipped, and so is everything from a `#` to the end of its
/// line.
pub open spec fn skip_blanks(s: Seq<char>, p: Place) -> Place
    decreases s.len() - p.cursor,
{
    if 0 <= p.cursor < s.len() {
        let c = s[p.cursor];
        if c == ' ' || c == '\t' {
            skip_blanks(s, Place { cursor: p.cursor + 1, pos: p.pos + 1, line_no: p.line_no })
        } else if c == '\n' {
            skip_blanks(s, Place { cursor: p.cursor + 1, pos: 0, line_no: p.line_no + 1 })
        } else if c == '#' {
            let start = Place { cursor: p.cursor + 1, pos: p.pos, line_no: p.line_no };
            let q = eat_while(s, start, CharClass::Until('\n'));
            if p.cursor < q.cursor <= s.len() {
                skip_blanks(s, q)
            } else {
                p
            }
        } else {
            p
        }
    } else {
        p
    }
}

/// The number that a text of decimal digits denotes.
pub open spec fn decimal_value(s: Seq<char>) -> nat
    decreases s.len(),
{
    if s.len() == 0 {
        0
    } else {
        (10 * decimal_value(s.drop_last()) + (s.last() as u32 - '0' as u32)) as nat
    }
}

/// Whether every character of `s` is an ASCII digit.
pub open spec fn all_digits(s: Seq<char>) -> bool {
    forall|i: int| 0 <= i < s.len() ==> is_digit(#[trigger] s[i])
}

/// The value of an integer literal: its decimal value where the text is made
/// of ASCII digits and the value fits in 32 signed bits, and nothing otherwise.
pub open spec fn literal_value(s: Seq<char>) -> Option<i32> {
    if s.len() > 0 && all_digits(s) && decimal_value(s) <= i32::MAX {
        Some(decimal_value(s) as i32)
    } else {
        None
    }
}

/// The keyword that `text` spells, if it spells one.
pub open spec fn keyword(text: Seq<char>) -> Option<TokenKind> {
    if text == "if"@ {
        Some(TokenKind::If)
    } else if text == "else"@ {
        Some(TokenKind::Else)
    } else if text == "let"@ {
        Some(TokenKind::Let)
    } else if text == "def"@ {
        Some(TokenKind::Def)
    } else if text == "extern"@ {
        Some(TokenKind::Extern)
    } else if text == "use"@ {
        Some(TokenKind::Use)
    } else if text == "return"@ {
        Some(TokenKind::Return)
    } else if text == "true"@ {
        Some(TokenKind::True)
    } else if text == "false"@ {
        Some(TokenKind::False)
    } else if text == "class"@ {
        Some(TokenKind::Class)
    } else if text == "mod"@ {
        Some(TokenKind::Module)
    } else if text == "while"@ {
        Some(TokenKind::While)
    } else if text == "do"@ {
        Some(TokenKind::Do)
    } else if text == "end"@ {
        Some(TokenKind::End)
    } else {
        None
    }
}

/// The token that a word is: its keyword, or an identifier with the word as
/// its name.
pub open spec fn word_kind(text: Seq<char>) -> TokenKind {
    match keyword(text) {
        Some(k) => k,
        None => TokenKind::Identifier(text),
    }
}

/// The token that starts with `c` where `c` is neither a word, a number nor a
/// quote, given the character `next` behind it (if any), and whether that
/// second character belongs to the token.
pub open spec fn symbol_kind(c: char, next: Option<char>) -> (TokenKind, bool) {
    if c == ';' {
        (TokenKind::Semicolon, false)
    } else if c == ':' {
        (TokenKind::Colon, false)
    } else if c == '.' {
        (TokenKind::Dot, false)
    } else if c == ',' {
        (TokenKind::Comma, false)
    } else if c == '(' {
        (TokenKind::LParen, false)
    } else if c == ')' {
        (TokenKind::RParen, false)
    } else if c == '[' {
        (TokenKind::LBrack, false)
    } else if c == ']' {
        (TokenKind::RBrack, false)
    } else if c == '{' {
        (TokenKind::LBrace, false)
    } else if c == '}' {
        (TokenKind::RBrace, false)
    } else if c == '+' {
        if next == Some('=') {
            (TokenKind::PlusEq, true)
        } else {
            (TokenKind::Plus, false)
        }
    } else if c == '-' {
        if next == Some('=') {
            (TokenKind::MinusEq, true)
        } else if next == Some('>') {
            (TokenKind::Arrow, true)
        } else {
            (TokenKind::Minus, false)
        }
    } else if c == '*' {
        if next == Some('=') {
            (TokenKind::MulEq, true)
        } else {
            (TokenKind::Mul, false)
        }
    } else if c == '/' {
        if next == Some('=') {
            (TokenKind::DivEq, true)
        } else {
            (TokenKind::Div, false)
        }
    } else if c == '<' {
        if next == Some('=') {
            (TokenKind::LessEq, true)
        } else {
            (TokenKind::Less, false)
        }
    } else if c == '>' {
        if next == Some('=') {
            (TokenKind::GreaterEq, true)
        } else {
            (TokenKind::Greater, false)
        }
    } else if c == '=' {
        if next == Some('=') {
            (TokenKind::Equal, true)
        } else if next == Some(':') {
            (TokenKind::Walrus, true)
        } else {
            (TokenKind::Assign, false)
        }
    } else if c == '!' {
        if next == Some('=') {
            (TokenKind::NotEq, true)
        } else {
            (TokenKind::Not, false)
        }
    } else {
        (TokenKind::Unknown, false)
    }
}

/// Whether `c` opens and closes a string literal.
pub open spec fn is_quote(c: char) -> bool {
    c == '"' || c == '\'' || c == '`'
}

/// What one step of lexing yields.
pub ghost enum Lexeme {
    /// The input holds no further token.
    Finished,
    /// A token of this kind.
    Kind(TokenKind),
    /// An integer literal without a value; the literal's text.
    Invalid(Seq<char>),
}

/// One step of lexing: what is found at `p` and the place behind it.
pub open spec fn lex_next(s: Seq<char>, p: Place) -> (Lexeme, Place) {
    let b = skip_blanks(s, p);
    if 0 <= b.cursor < s.len() {
        let c = s[b.cursor];
        let first = Place { cursor: b.cursor + 1, pos: b.pos + 1, line_no: b.line_no };
        if is_identifier_start(c) {
            let q = eat_while(s, first, CharClass::Identifier);
            (Lexeme::Kind(word_kind(s.subrange(b.cursor, q.cursor))), q)
        } else if is_numeric_char(c) {
            let q = eat_while(s, first, CharClass::Numeric);
            let text = s.subrange(b.cursor, q.cursor);
            match literal_value(text) {
                Some(i) => (Lexeme::Kind(TokenKind::Integer(i)), q),
                None => (Lexeme::Invalid(text), q),
            }
        } else if is_quote(c) {
            let q = eat_while(s, first, CharClass::Until(c));
            let text = s.subrange(b.cursor + 1, q.cursor);
            let closed = if q.cursor < s.len() {
                Place { cursor: q.cursor + 1, pos: q.pos, line_no: q.line_no }
            } else {
                q
            };
            (Lexeme::Kind(TokenKind::Str(text)), closed)
        } else {
            let next = if first.cursor < s.len() {
                Some(s[first.cursor])
            } else {
                None
            };
            let (kind, two) = symbol_kind(c, next);
            if two {
                (
                    Lexeme::Kind(kind),
                    Place { cursor: first.cursor + 1, pos: first.pos, line_no: first.line_no },
                )
            } else {
                (Lexeme::Kind(kind), first)
            }
        }
    } else {
        (Lexeme::Finished, b)
    }
}

/// The models of the tokens of a vector.
pub open spec fn token_models(v: Seq<Token>) -> Seq<TokenModel> {
    Seq::new(v.len(), |i: int| v[i]@)
}

/// What lexing a whole input yields: its tokens, or the text of the first
/// integer literal without a value.
pub ghost enum Lexed {
    Tokens(Seq<TokenModel>),
    Invalid(Seq<char>),
}

/// `r` with `first` in front of its tokens.
pub open spec fn after_token(first: TokenModel, r: Lexed) -> Lexed {
    match r {
        Lexed::Tokens(rest) => Lexed::Tokens(seq![first] + rest),
        Lexed::Invalid(text) => Lexed::Invalid(text),
    }
}

/// The tokens of the input `s` from `p` on, each reported in `file` at the
/// place where it ends.
pub open spec fn lex_all(s: Seq<char>, p: Place, file: Seq<char>) -> Lexed
    decreases s.len() - p.cursor,
{
    let (found, q) = lex_next(s, p);
    match found {
        Lexeme::Finished => Lexed::Tokens(Seq::empty()),
        Lexeme::Invalid(text) => Lexed::Invalid(text),
        Lexeme::Kind(kind) => {
            let token = TokenModel { kind, pos: q.pos as i32, line_no: q.line_no as i32, file };
            if p.cursor < q.cursor <= s.len() {
                after_token(token, lex_all(s, q, file))
            } else {
                Lexed::Tokens(seq![token])
            }
        },
    }
}

/// Blanks and comments are skipped forwards, inside the input.
pub proof fn lemma_skip_blanks_bounds(s: Seq<char>, p: Place)
    requires
        0 <= p.cursor <= s.len(),
    ensures
        p.cursor <= skip_blanks(s, p).cursor <= s.len(),
    decreases s.len() - p.cursor,
{
    if 0 <= p.cursor < s.len() {
        let c = s[p.cursor];
        if c == ' ' || c == '\t' {
            lemma_skip_blanks_bounds(
                s,
                Place { cursor: p.cursor + 1, pos: p.pos + 1, line_no: p.line_no },
            );
        } else if c == '\n' {
            lemma_skip_blanks_bounds(
                s,
                Place { cursor: p.cursor + 1, pos: 0, line_no: p.line_no + 1 },
            );
        } else if c == '#' {
            let start = Place { cursor: p.cursor + 1, pos: p.pos, line_no: p.line_no };
            lemma_eat_while_bounds(s, start, CharClass::Until('\n'));
            lemma_skip_blanks_bounds(s, eat_while(s, start, CharClass::Until('\n')));
        }
    }
}

/// A step of lexing that finds a token or a bad literal reads at least one
/// character, and no step leaves the input.
pub proof fn lemma_lex_next_advances(s: Seq<char>, p: Place)
    requires
        0 <= p.cursor <= s.len(),
    ensures
        p.cursor <= lex_next(s, p).1.cursor <= s.len(),
        !(lex_next(s, p).0 is Finished) ==> p.cursor < lex_next(s, p).1.cursor,
{
    lemma_skip_blanks_bounds(s, p);
    let b = skip_blanks(s, p);
    if 0 <= b.cursor < s.len() {
        let c = s[b.cursor];
        let first = Place { cursor: b.cursor + 1, pos: b.pos + 1, line_no: b.line_no };
        lemma_eat_while_bounds(s, first, CharClass::Identifier);
        lemma_eat_while_bounds(s, first, CharClass::Numeric);
        lemma_eat_while_bounds(s, first, CharClass::Until(c));
    }
}

/// A run over characters that all belong to the class, none of them a
/// newline, ends at the end of the input, one column further per character.
pub proof fn lemma_eat_while_whole(s: Seq<char>, p: Place, class: CharClass)
    requires
        0 <= p.cursor <= s.len(),
        !class.holds('\n'),
        forall|i: int| p.cursor <= i < s.len() ==> class.holds(#[trigger] s[i]),
    ensures
        eat_while(s, p, class) == (Place {
            cursor: s.len() as int,
            pos: p.pos + s.len() - p.cursor,
            line_no: p.line_no,
        }),
    decreases s.len() - p.cursor,
{
    if p.cursor < s.len() {
        assert(class.holds(s[p.cursor]));
        lemma_eat_while_whole(s, over(p, s[p.cursor]), class);
    }
}

/// Classification of words. An input that is one word, an ASCII letter or
/// underscore followed by ASCII letters, digits and underscores, lexes to one
/// token that ends at the end of the input: the keyword that the word spells
/// if it spells one, and otherwise an identifier that carries the word.
/// Nothing follows that token.
pub proof fn lemma_word_classification(text: Seq<char>)
    requires
        text.len() > 0,
        is_identifier_start(text[0]),
        forall|i: int| 0 <= i < text.len() ==> is_identifier_char(#[trigger] text[i]),
    ensures
        ({
            let (found, q) = lex_next(text, Place { cursor: 0, pos: -1, line_no: 1 });
            &&& q == Place { cursor: text.len() as int, pos: text.len() - 1, line_no: 1 }
            &&& keyword(text) matches Some(k) ==> found == Lexeme::Kind(k)
            &&& keyword(text) is None ==> found == Lexeme::Kind(TokenKind::Identifier(text))
            &&& lex_next(text, q).0 is Finished
        }),
{
    let p = Place { cursor: 0, pos: -1, line_no: 1 };
    let first = Place { cursor: 1, pos: 0, line_no: 1 };
    assert(skip_blanks(text, p) == p);
    lemma_eat_while_whole(text, first, CharClass::Identifier);
    let q = eat_while(text, first, CharClass::Identifier);
    assert(text.subrange(0, q.cursor) == text);
    assert(skip_blanks(text, q) == q);
}

/// A literal that has the shape of an integer but no value in 32 signed bits.
#[derive(Debug, Clone)]
pub struct LexError {
    /// The text of the literal.
    pub literal: String,
}

impl LexError {
    /// The text of the message for this error.
    pub open spec fn text(&self) -> Seq<char> {
        "Integer literal "@ + self.literal@ + " is invalid"@
    }

    /// The message for this error.
    pub fn message(&self) -> (r: String)
        ensures
            r@ == self.text(),
    {
        let mut r = String::from_str("Integer literal ");
        r.append(self.literal.as_str());
        r.append(" is invalid");
        r
    }
}

/// A lexical analyzer that splits a program into [`Token`]s.
pub struct Lexer {
    /// The characters of the program.
    raw_data: Vec<char>,
    /// Index of the next character to read.
    cursor: usize,
    pos: i32,
    line_no: i32,
    file: String,
}

/// The model of a [`Lexer`].
pub ghost struct LexerModel {
    pub input: Seq<char>,
    pub at: Place,
    pub file: Seq<char>,
}

impl View for Lexer {
    type V = LexerModel;

    closed spec fn view(&self) -> LexerModel {
        LexerModel {
            input: self.raw_data@,
            at: Place {
                cursor: self.cursor as int,
                pos: self.pos as int,
                line_no: self.line_no as int,
            },
            file: self.file@,
        }
    }
}

/// The view of what [`Lexer::next`] returns.
pub open spec fn lexeme_of(r: Option<Result<Token, LexError>>) -> Lexeme {
    match r {
        None => Lexeme::Finished,
        Some(Ok(t)) => Lexeme::Kind(t.type_@),
        Some(Err(e)) => Lexeme::Invalid(e.literal@),
    }
}

/// The characters of `text`.
pub fn chars_of(text: &str) -> (v: Vec<char>)
    ensures
        v@ == text@,
{
    let mut v: Vec<char> = Vec::new();
    for c in it: text.chars()
        invariant
            it.seq() == text@,
            v@ == text@.take(it.index() as int),
    {
        v.push(c);
        assert(text@.take(it.index() + 1) == text@.take(it.index() as int).push(c));
    }
    assert(text@.take(text@.len() as int) == text@);
    v
}

/// Copies the characters of `text` into a `String`.
pub fn string_of(text: &Vec<char>) -> (r: String)
    ensures
        r@ == text@,
{
    let mut r = String::new();
    let mut i: usize = 0;
    while i < text.len()
        invariant
            i <= text.len(),
            r@ == text@.take(i as int),
        decreases text.len() - i,
    {
        r.push(text[i]);
        i += 1;
        assert(text@.take(i as int) == text@.take(i - 1).push(text@[i - 1]));
    }
    assert(text@.take(i as int) == text@);
    r
}

/// Decides whether `text` spells `word`.
fn spells(text: &Vec<char>, word: &str) -> (r: bool)
    ensures
        r == (text@ == word@),
{
    let n = word.unicode_len();
    if text.len() != n {
        return false;
    }
    let mut i: usize = 0;
    while i < n
        invariant
            i <= n,
            n == text.len(),
            n == word@.len(),
            forall|j: int| 0 <= j < i ==> text@[j] == word@[j],
        decreases n - i,
    {
        if text[i] != word.get_char(i) {
            return false;
        }
        i += 1;
    }
    assert(text@ =~= word@);
    true
}

/// The token that the word `text` is.
pub fn classify_word(text: &Vec<char>) -> (r: TokenType)
    ensures
        r@ == word_kind(text@),
{
    if spells(text, "if") {
        TokenType::If
    } else if spells(text, "else") {
        TokenType::Else
    } else if spells(text, "let") {
        TokenType::Let
    } else if spells(text, "def") {
        TokenType::Def
    } else if spells(text, "extern") {
        TokenType::Extern
    } else if spells(text, "use") {
        TokenType::Use
    } else if spells(text, "return") {
        TokenType::Return
    } else if spells(text, "true") {
        TokenType::True
    } else if spells(text, "false") {
        TokenType::False
    } else if spells(text, "class") {
        TokenType::Class
    } else if spells(text, "mod") {
        TokenType::Module
    } else if spells(text, "while") {
        TokenType::While
    } else if spells(text, "do") {
        TokenType::Do
    } else if spells(text, "end") {
        TokenType::End
    } else {
        TokenType::Identifier(string_of(text))
    }
}

/// The decimal value of a prefix of a text of digits is at most that of the text.
pub proof fn lemma_decimal_value_grows(s: Seq<char>, n: int)
    requires
        all_digits(s),
        0 <= n <= s.len(),
    ensures
        decimal_value(s.take(n)) <= decimal_value(s),
    decreases s.len() - n,
{
    if n < s.len() {
        lemma_decimal_value_grows(s, n + 1);
        assert(s.take(n + 1).drop_last() == s.take(n));
        assert(is_digit(s[n]));
    } else {
        assert(s.take(n) == s);
    }
}

/// Reads an integer literal: the value of `text` where it has one.
pub fn parse_literal(text: &Vec<char>) -> (r: Option<i32>)
    ensures
        r == literal_value(text@),
{
    if text.len() == 0 {
        return None;
    }
    let mut acc: i32 = 0;
    let mut i: usize = 0;
    while i < text.len()
        invariant
            i <= text.len(),
            all_digits(text@.take(i as int)),
            acc == decimal_value(text@.take(i as int)),
        decreases text.len() - i,
    {
        let c: char = text[i];
        if !('0' <= c && c <= '9') {
            assert(!is_digit(text@[i as int]));
            return None;
        }
        let d: i32 = (c as u32 - '0' as u32) as i32;
        proof {
            assert(text@.take(i + 1).drop_last() == text@.take(i as int));
            assert forall|j: int| 0 <= j < i + 1 implies is_digit(#[trigger] text@.take(i + 1)[j]) by {
                if j < i {
                    assert(text@.take(i as int)[j] == text@[j]);
                }
            }
        }
        if acc > (i32::MAX - d) / 10 {
            proof {
                assert(decimal_value(text@.take(i + 1)) > i32::MAX);
                if all_digits(text@) {
                    lemma_decimal_value_grows(text@, i + 1);
                }
            }
            return None;
        }
        acc = acc * 10 + d;
        i += 1;
    }
    assert(text@.take(i as int) == text@);
    Some(acc)
}

/// The token that starts with `c` where `c` is neither a word, a number nor a
/// quote, and whether the character `next` behind it belongs to the token.
pub fn symbol(c: char, next: Option<char>) -> (r: (TokenType, bool))
    ensures
        r.0@ == symbol_kind(c, next).0,
        r.1 == symbol_kind(c, next).1,
{
    let eq: bool = match next {
        Some(n) => n == '=',
        None => false,
    };
    let gt: bool = match next {
        Some(n) => n == '>',
        None => false,
    };
    let colon: bool = match next {
        Some(n) => n == ':',
        None => false,
    };
    if c == ';' {
        (TokenType::Semicolon, false)
    } else if c == ':' {
        (TokenType::Colon, false)
    } else if c == '.' {
        (TokenType::Dot, false)
    } else if c == ',' {
        (TokenType::Comma, false)
    } else if c == '(' {
        (TokenType::LParen, false)
    } else if c == ')' {
        (TokenType::RParen, false)
    } else if c == '[' {
        (TokenType::LBrack, false)
    } else if c == ']' {
        (TokenType::RBrack, false)
    } else if c == '{' {
        (TokenType::LBrace, false)
    } else if c == '}' {
        (TokenType::RBrace, false)
    } else if c == '+' {
        if eq {
            (TokenType::PlusEq, true)
        } else {
            (TokenType::Plus, false)
        }
    } else if c == '-' {
        if eq {
            (TokenType::MinusEq, true)
        } else if gt {
            (TokenType::Arrow, true)
        } else {
            (TokenType::Minus, false)
        }
    } else if c == '*' {
        if eq {
            (TokenType::MulEq, true)
        } else {
            (TokenType::Mul, false)
        }
    } else if c == '/' {
        if eq {
            (TokenType::DivEq, true)
        } else {
            (TokenType::Div, false)
        }
    } else if c == '<' {
        if eq {
            (TokenType::LessEq, true)
        } else {
            (TokenType::Less, false)
        }
    } else if c == '>' {
        if eq {
            (TokenType::GreaterEq, true)
        } else {
            (TokenType::Greater, false)
        }
    } else if c == '=' {
        if eq {
            (TokenType::Equal, true)
        } else if colon {
            (TokenType::Walrus, true)
        } else {
            (TokenType::Assign, false)
        }
    } else if c == '!' {
        if eq {
            (TokenType::NotEq, true)
        } else {
            (TokenType::Not, false)
        }
    } else {
        (TokenType::Unknown, false)
    }
}

impl Lexer {
    /// The invariant of a lexer: its place lies inside an input whose length
    /// the position counters can hold.
    pub closed spec fn wf(&self) -> bool {
        &&& self.raw_data.len() < i32::MAX
        &&& self.cursor <= self.raw_data.len()
        &&& -1 <= self.pos < self.cursor
        &&& 1 <= self.line_no <= self.cursor + 1
    }

    /// Create a lexer with the program data in plain text.
    ///
    /// # Arguments
    /// * `text` - The raw program.
    /// * `file_path` - The name under which its tokens are reported.
    pub fn from_text(text: &str, file_path: &str) -> (lexer: Lexer)
        requires
            text@.len() < i32::MAX,
        ensures
            lexer.wf(),
            lexer@ == (LexerModel {
                input: text@,
                at: Place { cursor: 0, pos: -1, line_no: 1 },
                file: file_path@,
            }),
    {
        let raw_data = chars_of(text);
        Lexer { raw_data, cursor: 0, pos: -1, line_no: 1, file: String::from_str(file_path) }
    }

    /// Create a token by eating characters while a condition is met.
    ///
    /// # Arguments
    /// * `raw_token` - The characters of the token, to append to.
    /// * `class` - The class that the characters must belong to.
    pub fn get_next_char_while(&mut self, raw_token: &mut Vec<char>, class: CharClass)
        requires
            old(self).wf(),
        ensures
            final(self).wf(),
            final(self)@.input == old(self)@.input,
            final(self)@.file == old(self)@.file,
            final(self)@.at == eat_while(old(self)@.input, old(self)@.at, class),
            final(raw_token)@ == old(raw_token)@ + old(self)@.input.subrange(
                old(self)@.at.cursor,
                final(self)@.at.cursor,
            ),
    {
        let ghost s = self.raw_data@;
        let ghost start = self@.at;
        let ghost begun = raw_token@;
        proof {
            assert(s.subrange(start.cursor, start.cursor) == Seq::<char>::empty());
            assert(begun + Seq::<char>::empty() == begun);
        }
        while self.cursor < self.raw_data.len() && class.test(self.raw_data[self.cursor])
            invariant
                self.wf(),
                self.raw_data@ == s,
                self.file@ == old(self).file@,
                0 <= start.cursor <= self.cursor <= s.len(),
                eat_while(s, self@.at, class) == eat_while(s, start, class),
                raw_token@ == begun + s.subrange(start.cursor, self.cursor as int),
            decreases self.raw_data.len() - self.cursor,
        {
            let c: char = self.raw_data[self.cursor];
            if c != '\n' {
                self.pos += 1;
            } else {
                self.line_no += 1;
                self.pos = 0;
            }
            raw_token.push(c);
            self.cursor += 1;
            assert(s.subrange(start.cursor, self.cursor as int) == s.subrange(
                start.cursor,
                self.cursor - 1,
            ).push(c));
        }
    }

    /// Skips blanks and comments.
    fn skip(&mut self)
        requires
            old(self).wf(),
        ensures
            final(self).wf(),
            final(self)@.input == old(self)@.input,
            final(self)@.file == old(self)@.file,
            final(self)@.at == skip_blanks(old(self)@.input, old(self)@.at),
    {
        let ghost s = self.raw_data@;
        let ghost start = self@.at;
        loop
            invariant
                self.wf(),
                self.raw_data@ == s,
                self.file@ == old(self).file@,
                skip_blanks(s, self@.at) == skip_blanks(s, start),
            ensures
                self.wf(),
                self.raw_data@ == s,
                self.file@ == old(self).file@,
                self@.at == skip_blanks(s, start),
            decreases self.raw_data.len() - self.cursor,
        {
            if self.cursor >= self.raw_data.len() {
                break ;
            }
            let c: char = self.raw_data[self.cursor];
            if c == ' ' || c == '\t' {
                self.pos += 1;
                self.cursor += 1;
            } else if c == '\n' {
                self.line_no += 1;
                self.pos = 0;
                self.cursor += 1;
            } else if c == '#' {
                self.cursor += 1;
                let mut dump: Vec<char> = Vec::new();
                proof {
                    lemma_eat_while_bounds(s, self@.at, CharClass::Until('\n'));
                }
                self.get_next_char_while(&mut dump, CharClass::Until('\n'));
            } else {
                break ;
            }
        }
    }

    /// Identifies the next token.
    ///
    /// Returns `None` at the end of the input, and an error for an integer
    /// literal that has no value in 32 signed bits.
    pub fn next(&mut self) -> (result: Option<Result<Token, LexError>>)
        requires
            old(self).wf(),
        ensures
            final(self).wf(),
            final(self)@.input == old(self)@.input,
            final(self)@.file == old(self)@.file,
            lexeme_of(result) == lex_next(old(self)@.input, old(self)@.at).0,
            final(self)@.at == lex_next(old(self)@.input, old(self)@.at).1,
            result matches Some(Ok(t)) ==> {
                &&& t.pos == final(self)@.at.pos
                &&& t.line_no == final(self)@.at.line_no
                &&& t.file@ == old(self)@.file
            },
    {
        let ghost s = self.raw_data@;
        self.skip();
        if self.cursor >= self.raw_data.len() {
            return None;
        }
        let ghost b = self@.at;
        let current_char: char = self.raw_data[self.cursor];
        self.cursor += 1;
        self.pos += 1;
        proof {
            lemma_eat_while_bounds(s, self@.at, CharClass::Identifier);
            lemma_eat_while_bounds(s, self@.at, CharClass::Numeric);
            lemma_eat_while_bounds(s, self@.at, CharClass::Until(current_char));
        }
        let token: TokenType;
        if Self::is_in_identifier(current_char) && !is_numeric(current_char) {
            let mut name: Vec<char> = Vec::new();
            name.push(current_char);
            self.get_next_char_while(&mut name, CharClass::Identifier);
            assert(name@ == s.subrange(b.cursor, self.cursor as int));
            token = classify_word(&name);
        } else if is_numeric(current_char) {
            let mut value: Vec<char> = Vec::new();
            value.push(current_char);
            self.get_next_char_while(&mut value, CharClass::Numeric);
            assert(value@ == s.subrange(b.cursor, self.cursor as int));
            match parse_literal(&value) {
                Some(i) => {
                    token = TokenType::Integer(i);
                },
                None => {
                    return Some(Err(LexError { literal: string_of(&value) }));
                },
            }
        } else if current_char == '"' || current_char == '\'' || current_char == '`' {
            let mut value: Vec<char> = Vec::new();
            self.get_next_char_while(&mut value, CharClass::Until(current_char));
            assert(value@ == s.subrange(b.cursor + 1, self.cursor as int));
            if self.cursor < self.raw_data.len() {
                self.cursor += 1;
            }
            token = TokenType::Str(string_of(&value));
        } else {
            let next: Option<char> = if self.cursor < self.raw_data.len() {
                Some(self.raw_data[self.cursor])
            } else {
                None
            };
            let (kind, two) = symbol(current_char, next);
            if two {
                self.cursor += 1;
            }
            token = kind;
        }
        Some(Ok(Token { type_: token, pos: self.pos, line_no: self.line_no, file: self.file.clone() }))
    }

    /// Lexes the rest of the input: all its tokens in order, or the first
    /// integer literal that has no value.
    pub fn collect(&mut self) -> (result: Result<Vec<Token>, LexError>)
        requires
            old(self).wf(),
        ensures
            final(self).wf(),
            final(self)@.input == old(self)@.input,
            final(self)@.file == old(self)@.file,
            match lex_all(old(self)@.input, old(self)@.at, old(self)@.file) {
                Lexed::Tokens(ts) => result is Ok && token_models(result->Ok_0@) == ts,
                Lexed::Invalid(text) => result is Err && result->Err_0.literal@ == text,
            },
    {
        let ghost s = self.raw_data@;
        let ghost file = self.file@;
        let ghost whole = lex_all(s, self@.at, file);
        let mut tokens: Vec<Token> = Vec::new();
        loop
            invariant
                self.wf(),
                self.raw_data@ == s,
                self.file@ == file,
                s == old(self)@.input,
                file == old(self)@.file,
                whole == lex_all(old(self)@.input, old(self)@.at, old(self)@.file),
                whole is Tokens ==> lex_all(s, self@.at, file) is Tokens && whole->Tokens_0
                    == token_models(tokens@) + lex_all(s, self@.at, file)->Tokens_0,
                whole is Invalid ==> lex_all(s, self@.at, file) == whole,
            decreases self.raw_data.len() - self.cursor,
        {
            proof {
                lemma_lex_next_advances(s, self@.at);
            }
            let ghost before = token_models(tokens@);
            match self.next() {
                None => {
                    assert(before + Seq::<TokenModel>::empty() == before);
                    return Ok(tokens);
                },
                Some(Err(e)) => {
                    return Err(e);
                },
                Some(Ok(t)) => {
                    tokens.push(t);
                    proof {
                        let rest = lex_all(s, self@.at, file);
                        assert(token_models(tokens@) == before.push(t@));
                        if rest is Tokens {
                            assert(before + (seq![t@] + rest->Tokens_0) == before.push(t@)
                                + rest->Tokens_0);
                        }
                    }
                },
            }
        }
    }

    /// Check if a character is a part of an identifier.
    ///
    /// Identifiers must start with an alphabetic character or underscore, and
    /// then can have alphanumeric characters and underscores.
    pub fn is_in_identifier(c: char) -> (r: bool)
        ensures
            r == is_identifier_char(c),
    {
        ('a' <= c && c <= 'z') || ('A' <= c && c <= 'Z') || ('0' <= c && c <= '9') || c == '_'
    }
}

} // verus!
