//! What holds of the lexer on every input: lexing the spelling of a
//! sequence of tokens gives those tokens back.

use crate::lexer::tokens::{TokenKind, TokenModel};
use crate::lexer::{
    after_token, all_digits, decimal_value, eat_while, is_digit, is_identifier_char,
    is_identifier_start, is_numeric_char, is_quote, keyword, lex_all, lex_next, over, skip_blanks,
    symbol_kind, word_kind, CharClass, Lexeme, Place,
};
use crate::text::{digit, digits};
use vstd::prelude::*;

verus! {

/// Whether `text` has the shape of a word: an ASCII letter or an underscore,
/// and behind it ASCII letters, digits and underscores.
pub open spec fn is_word(text: Seq<char>) -> bool {
    &&& text.len() > 0
    &&& is_identifier_start(text[0])
    &&& forall|i: int| 0 <= i < text.len() ==> is_identifier_char(#[trigger] text[i])
}

/// The spelling of a token: a text that the lexer reads as that token.
///
/// An identifier is spelled by its name, which has to be a word and no
/// keyword; an integer, which has to be at least 0, by its decimal digits; a
/// string, which has to hold no double quote, between double quotes; and
/// every other token as the language writes it. An unknown token has no
/// spelling.
pub open spec fn spelling(k: TokenKind) -> Option<Seq<char>> {
    match k {
        TokenKind::Identifier(name) => if is_word(name) && keyword(name) is None {
            Some(name)
        } else {
            None
        },
        TokenKind::If => Some("if"@),
        TokenKind::Else => Some("else"@),
        TokenKind::Let => Some("let"@),
        TokenKind::Def => Some("def"@),
        TokenKind::Class => Some("class"@),
        TokenKind::Extern => Some("extern"@),
        TokenKind::Use => Some("use"@),
        TokenKind::Return => Some("return"@),
        TokenKind::True => Some("true"@),
        TokenKind::False => Some("false"@),
        TokenKind::Module => Some("mod"@),
        TokenKind::While => Some("while"@),
        TokenKind::Do => Some("do"@),
        TokenKind::End => Some("end"@),
        TokenKind::Integer(i) => if i >= 0 {
            Some(digits(i as nat))
        } else {
            None
        },
        TokenKind::Str(text) => if text.contains('"') {
            None
        } else {
            Some(seq!['"'] + text + seq!['"'])
        },
        TokenKind::Semicolon => Some(seq![';']),
        TokenKind::Colon => Some(seq![':']),
        TokenKind::Comma => Some(seq![',']),
        TokenKind::LParen => Some(seq!['(']),
        TokenKind::RParen => Some(seq![')']),
        TokenKind::LBrack => Some(seq!['[']),
        TokenKind::RBrack => Some(seq![']']),
        TokenKind::LBrace => Some(seq!['{']),
        TokenKind::RBrace => Some(seq!['}']),
        TokenKind::Arrow => Some(seq!['-', '>']),
        TokenKind::Minus => Some(seq!['-']),
        TokenKind::Plus => Some(seq!['+']),
        TokenKind::Div => Some(seq!['/']),
        TokenKind::Mul => Some(seq!['*']),
        TokenKind::Dot => Some(seq!['.']),
        TokenKind::Assign => Some(seq!['=']),
        TokenKind::Less => Some(seq!['<']),
        TokenKind::Greater => Some(seq!['>']),
        TokenKind::LessEq => Some(seq!['<', '=']),
        TokenKind::GreaterEq => Some(seq!['>', '=']),
        TokenKind::Equal => Some(seq!['=', '=']),
        TokenKind::Not => Some(seq!['!']),
        TokenKind::NotEq => Some(seq!['!', '=']),
        TokenKind::PlusEq => Some(seq!['+', '=']),
        TokenKind::MinusEq => Some(seq!['-', '=']),
        TokenKind::MulEq => Some(seq!['*', '=']),
        TokenKind::DivEq => Some(seq!['/', '=']),
        TokenKind::Walrus => Some(seq!['=', ':']),
        TokenKind::Unknown => None,
    }
}

/// Whether every token of `ks` has a spelling.
pub open spec fn all_spelled(ks: Seq<TokenKind>) -> bool {
    forall|i: int| 0 <= i < ks.len() ==> spelling(#[trigger] ks[i]) is Some
}

/// The spelling of a sequence of tokens: for each token in order, a space
/// and the spelling of the token.
pub open spec fn spell_all(ks: Seq<TokenKind>) -> Seq<char>
    decreases ks.len(),
{
    if ks.len() == 0 {
        Seq::empty()
    } else {
        seq![' '] + spelling(ks[0])->0 + spell_all(ks.skip(1))
    }
}

/// The kinds of a sequence of tokens.
pub open spec fn kinds_of(ts: Seq<TokenModel>) -> Seq<TokenKind> {
    Seq::new(ts.len(), |i: int| ts[i].kind)
}

/// A run over `n` characters of a class that ends at a character outside
/// the class, or at the end of the input, is `n` characters long.
pub proof fn lemma_eat_while_run(s: Seq<char>, p: Place, class: CharClass, n: int)
    requires
        0 <= p.cursor,
        0 <= n,
        p.cursor + n <= s.len(),
        forall|i: int| p.cursor <= i < p.cursor + n ==> class.holds(#[trigger] s[i]),
        p.cursor + n < s.len() ==> !class.holds(s[p.cursor + n]),
    ensures
        eat_while(s, p, class).cursor == p.cursor + n,
    decreases n,
{
    if n > 0 {
        assert(class.holds(s[p.cursor]));
        lemma_eat_while_run(s, over(p, s[p.cursor]), class, n - 1);
    }
}

/// The digits of a number are digits, and denote the number.
pub proof fn lemma_digits_value(n: nat)
    ensures
        digits(n).len() > 0,
        all_digits(digits(n)),
        decimal_value(digits(n)) == n,
    decreases n,
{
    if n < 10 {
        assert(digits(n).drop_last() =~= Seq::<char>::empty());
        assert(decimal_value(Seq::<char>::empty()) == 0);
        assert(digits(n).last() == digit(n as int));
        assert(is_digit(digits(n)[0]));
    } else {
        lemma_digits_value(n / 10);
        let d = digits(n);
        assert(d.drop_last() =~= digits(n / 10));
        assert(d.last() == digit((n % 10) as int));
        assert forall|i: int| 0 <= i < d.len() implies is_digit(#[trigger] d[i]) by {
            if i < d.len() - 1 {
                assert(d[i] == digits(n / 10)[i]);
            }
        }
    }
}

/// The spelling of a token is not empty and starts with no blank and no `#`;
/// it holds neither a blank nor a newline unless the token is a string.
pub proof fn lemma_spelling_shape(k: TokenKind)
    requires
        spelling(k) is Some,
    ensures
        spelling(k)->0.len() > 0,
        spelling(k)->0[0] != ' ',
        spelling(k)->0[0] != '\t',
        spelling(k)->0[0] != '\n',
        spelling(k)->0[0] != '#',
{
    reveal_keywords();
    match k {
        TokenKind::Integer(i) => {
            lemma_digits_value(i as nat);
            assert(is_digit(digits(i as nat)[0]));
        },
        _ => {},
    }
}

/// What the keywords are made of.
pub proof fn reveal_keywords()
    ensures
        "if"@ == seq!['i', 'f'],
        "else"@ == seq!['e', 'l', 's', 'e'],
        "let"@ == seq!['l', 'e', 't'],
        "def"@ == seq!['d', 'e', 'f'],
        "extern"@ == seq!['e', 'x', 't', 'e', 'r', 'n'],
        "use"@ == seq!['u', 's', 'e'],
        "return"@ == seq!['r', 'e', 't', 'u', 'r', 'n'],
        "true"@ == seq!['t', 'r', 'u', 'e'],
        "false"@ == seq!['f', 'a', 'l', 's', 'e'],
        "class"@ == seq!['c', 'l', 'a', 's', 's'],
        "mod"@ == seq!['m', 'o', 'd'],
        "while"@ == seq!['w', 'h', 'i', 'l', 'e'],
        "do"@ == seq!['d', 'o'],
        "end"@ == seq!['e', 'n', 'd'],
{
    reveal_strlit("if");
    reveal_strlit("else");
    reveal_strlit("let");
    reveal_strlit("def");
    reveal_strlit("extern");
    reveal_strlit("use");
    reveal_strlit("return");
    reveal_strlit("true");
    reveal_strlit("false");
    reveal_strlit("class");
    reveal_strlit("mod");
    reveal_strlit("while");
    reveal_strlit("do");
    reveal_strlit("end");
    assert("if"@ =~= seq!['i', 'f']);
    assert("else"@ =~= seq!['e', 'l', 's', 'e']);
    assert("let"@ =~= seq!['l', 'e', 't']);
    assert("def"@ =~= seq!['d', 'e', 'f']);
    assert("extern"@ =~= seq!['e', 'x', 't', 'e', 'r', 'n']);
    assert("use"@ =~= seq!['u', 's', 'e']);
    assert("return"@ =~= seq!['r', 'e', 't', 'u', 'r', 'n']);
    assert("true"@ =~= seq!['t', 'r', 'u', 'e']);
    assert("false"@ =~= seq!['f', 'a', 'l', 's', 'e']);
    assert("class"@ =~= seq!['c', 'l', 'a', 's', 's']);
    assert("mod"@ =~= seq!['m', 'o', 'd']);
    assert("while"@ =~= seq!['w', 'h', 'i', 'l', 'e']);
    assert("do"@ =~= seq!['d', 'o']);
    assert("end"@ =~= seq!['e', 'n', 'd']);
}

/// Whether the spelling `w` stands in `s` at index `c`, and a space or the
/// end of `s` behind it.
pub open spec fn stands_at(s: Seq<char>, c: int, w: Seq<char>) -> bool {
    &&& 0 <= c
    &&& c + w.len() <= s.len()
    &&& s.subrange(c, c + w.len()) == w
    &&& c + w.len() < s.len() ==> s[c + w.len()] == ' '
}

/// A word that stands in the input is lexed as the keyword that it spells,
/// or as an identifier with the word as its name.
pub proof fn lemma_lex_word(s: Seq<char>, p: Place, w: Seq<char>)
    requires
        is_word(w),
        stands_at(s, p.cursor, w),
    ensures
        lex_next(s, p).0 == Lexeme::Kind(word_kind(w)),
        lex_next(s, p).1.cursor == p.cursor + w.len(),
{
    let c = p.cursor;
    assert forall|i: int| c <= i < c + w.len() implies is_identifier_char(#[trigger] s[i]) by {
        assert(s[i] == s.subrange(c, c + w.len())[i - c]);
        assert(is_identifier_char(w[i - c]));
    }
    assert(s[c] == s.subrange(c, c + w.len())[0]);
    assert(skip_blanks(s, p) == p);
    let first = Place { cursor: c + 1, pos: p.pos + 1, line_no: p.line_no };
    lemma_eat_while_run(s, first, CharClass::Identifier, w.len() - 1);
}

/// The digits of a number that stand in the input are lexed as that number.
pub proof fn lemma_lex_integer(s: Seq<char>, p: Place, i: i32)
    requires
        i >= 0,
        stands_at(s, p.cursor, digits(i as nat)),
    ensures
        lex_next(s, p).0 == Lexeme::Kind(TokenKind::Integer(i)),
        lex_next(s, p).1.cursor == p.cursor + digits(i as nat).len(),
{
    let c = p.cursor;
    let w = digits(i as nat);
    lemma_digits_value(i as nat);
    assert forall|j: int| c <= j < c + w.len() implies is_numeric_char(#[trigger] s[j]) by {
        assert(s[j] == s.subrange(c, c + w.len())[j - c]);
        assert(is_digit(w[j - c]));
    }
    assert(s[c] == s.subrange(c, c + w.len())[0]);
    assert(is_digit(w[0]));
    assert(skip_blanks(s, p) == p);
    let first = Place { cursor: c + 1, pos: p.pos + 1, line_no: p.line_no };
    lemma_eat_while_run(s, first, CharClass::Numeric, w.len() - 1);
}

/// A text without double quotes that stands in the input between double
/// quotes is lexed as a string with that text.
pub proof fn lemma_lex_string(s: Seq<char>, p: Place, text: Seq<char>)
    requires
        !text.contains('"'),
        stands_at(s, p.cursor, seq!['"'] + text + seq!['"']),
    ensures
        lex_next(s, p).0 == Lexeme::Kind(TokenKind::Str(text)),
        lex_next(s, p).1.cursor == p.cursor + text.len() + 2,
{
    let c = p.cursor;
    let w = seq!['"'] + text + seq!['"'];
    assert(w.len() == text.len() + 2);
    assert(s[c] == s.subrange(c, c + w.len())[0]);
    assert(w[0] == '"');
    assert forall|j: int| c + 1 <= j < c + 1 + text.len() implies CharClass::Until('"').holds(
        #[trigger] s[j],
    ) by {
        assert(s[j] == s.subrange(c, c + w.len())[j - c]);
        assert(w[j - c] == text[j - c - 1]);
        if text[j - c - 1] == '"' {
            assert(text.contains('"'));
        }
    }
    let n = text.len() as int;
    assert(s[c + 1 + n] == s.subrange(c, c + w.len())[1 + n]);
    assert(w[1 + n] == '"');
    assert(skip_blanks(s, p) == p);
    let first = Place { cursor: c + 1, pos: p.pos + 1, line_no: p.line_no };
    lemma_eat_while_run(s, first, CharClass::Until('"'), text.len() as int);
    let q = eat_while(s, first, CharClass::Until('"'));
    assert(s.subrange(c + 1, q.cursor) =~= text) by {
        assert forall|j: int| 0 <= j < text.len() implies s.subrange(c + 1, q.cursor)[j]
            == text[j] by {
            assert(s[c + 1 + j] == s.subrange(c, c + w.len())[j + 1]);
            assert(w[j + 1] == text[j]);
        }
    }
}

/// Whether `k` is a punctuator or an operator.
pub open spec fn is_symbol(k: TokenKind) -> bool {
    !(k is Identifier) && !(k is Integer) && !(k is Str) && !(k is Unknown) && keyword(
        spelling(k)->0,
    ) != Some(k)
}

/// A punctuator or an operator that stands in the input is lexed as itself.
pub proof fn lemma_lex_symbol(s: Seq<char>, p: Place, k: TokenKind)
    requires
        is_symbol(k),
        spelling(k) is Some,
        stands_at(s, p.cursor, spelling(k)->0),
    ensures
        lex_next(s, p).0 == Lexeme::Kind(k),
        lex_next(s, p).1.cursor == p.cursor + spelling(k)->0.len(),
{
    reveal_keywords();
    let c = p.cursor;
    let w = spelling(k)->0;
    assert(s[c] == s.subrange(c, c + w.len())[0]);
    if w.len() > 1 {
        assert(s[c + 1] == s.subrange(c, c + w.len())[1]);
    }
    assert(skip_blanks(s, p) == p);
    let first = Place { cursor: c + 1, pos: p.pos + 1, line_no: p.line_no };
    let next = if first.cursor < s.len() {
        Some(s[first.cursor])
    } else {
        None
    };
    assert(!is_identifier_start(s[c]));
    assert(!is_numeric_char(s[c]));
    assert(!is_quote(s[c]));
    assert(symbol_kind(s[c], next).0 == k);
}

/// The spelling of a token that stands in the input is lexed as that token.
pub proof fn lemma_lex_spelling(s: Seq<char>, p: Place, k: TokenKind)
    requires
        spelling(k) is Some,
        stands_at(s, p.cursor, spelling(k)->0),
    ensures
        lex_next(s, p).0 == Lexeme::Kind(k),
        lex_next(s, p).1.cursor == p.cursor + spelling(k)->0.len(),
{
    reveal_keywords();
    match k {
        TokenKind::Identifier(name) => {
            lemma_lex_word(s, p, name);
        },
        TokenKind::Integer(i) => {
            lemma_lex_integer(s, p, i);
        },
        TokenKind::Str(text) => {
            lemma_lex_string(s, p, text);
        },
        TokenKind::If
        | TokenKind::Else
        | TokenKind::Let
        | TokenKind::Def
        | TokenKind::Class
        | TokenKind::Extern
        | TokenKind::Use
        | TokenKind::Return
        | TokenKind::True
        | TokenKind::False
        | TokenKind::Module
        | TokenKind::While
        | TokenKind::Do
        | TokenKind::End => {
            let w = spelling(k)->0;
            assert(is_word(w));
            assert(keyword(w) == Some(k));
            lemma_lex_word(s, p, w);
        },
        _ => {
            lemma_lex_symbol(s, p, k);
        },
    }
}

/// Idempotence of lexing. The spelling of a sequence of tokens that all
/// have a spelling is lexed as tokens of exactly those kinds, with the same
/// names, numbers and texts, in the same order.
pub proof fn lemma_relex(ks: Seq<TokenKind>, file: Seq<char>)
    requires
        all_spelled(ks),
    ensures
        lex_all(spell_all(ks), Place { cursor: 0, pos: -1, line_no: 1 }, file) is Tokens,
        kinds_of(
            lex_all(spell_all(ks), Place { cursor: 0, pos: -1, line_no: 1 }, file)->Tokens_0,
        ) == ks,
{
    let s = spell_all(ks);
    assert(s.skip(0) =~= s);
    lemma_relex_from(s, Place { cursor: 0, pos: -1, line_no: 1 }, ks, file);
}

/// Where the spelling of a sequence of tokens is what is left of the input
/// at `p`, the rest of the input is lexed as those tokens.
pub proof fn lemma_relex_from(s: Seq<char>, p: Place, ks: Seq<TokenKind>, file: Seq<char>)
    requires
        all_spelled(ks),
        0 <= p.cursor <= s.len(),
        s.skip(p.cursor) == spell_all(ks),
    ensures
        lex_all(s, p, file) is Tokens,
        kinds_of(lex_all(s, p, file)->Tokens_0) == ks,
    decreases ks.len(),
{
    let c = p.cursor;
    if ks.len() == 0 {
        assert(s.skip(c).len() == 0);
        assert(skip_blanks(s, p) == p);
        assert(kinds_of(Seq::<TokenModel>::empty()) =~= ks);
    } else {
        let k = ks[0];
        let w = spelling(k)->0;
        let rest = ks.skip(1);
        let tail = spell_all(rest);
        lemma_spelling_shape(k);
        assert(s.skip(c) == seq![' '] + w + tail);
        assert(s.len() - c == 1 + w.len() + tail.len());
        assert(s[c] == s.skip(c)[0]);
        assert(s[c] == ' ');
        let b = Place { cursor: c + 1, pos: p.pos + 1, line_no: p.line_no };
        assert(s.subrange(c + 1, c + 1 + w.len()) =~= w) by {
            assert forall|j: int| 0 <= j < w.len() implies s.subrange(c + 1, c + 1 + w.len())[j]
                == w[j] by {
                assert(s[c + 1 + j] == s.skip(c)[1 + j]);
            }
        }
        assert(s[c + 1] == s.subrange(c + 1, c + 1 + w.len())[0]);
        assert(skip_blanks(s, b) == b);
        assert(skip_blanks(s, p) == b);
        assert(s.skip(c + 1 + w.len()) =~= tail) by {
            assert forall|j: int| 0 <= j < tail.len() implies s.skip(c + 1 + w.len())[j]
                == tail[j] by {
                assert(s[c + 1 + w.len() + j] == s.skip(c)[1 + w.len() + j]);
            }
        }
        if c + 1 + w.len() < s.len() {
            assert(rest.len() > 0) by {
                if rest.len() == 0 {
                    assert(tail.len() == 0);
                }
            }
            assert(tail[0] == ' ');
            assert(s[c + 1 + w.len()] == s.skip(c + 1 + w.len())[0]);
        }
        assert(stands_at(s, b.cursor, w));
        lemma_lex_spelling(s, b, k);
        assert(lex_next(s, p) == lex_next(s, b));
        let q = lex_next(s, p).1;
        assert forall|i: int| 0 <= i < rest.len() implies spelling(#[trigger] rest[i]) is Some by {
            assert(rest[i] == ks[i + 1]);
        }
        lemma_relex_from(s, q, rest, file);
        let token = TokenModel { kind: k, pos: q.pos as i32, line_no: q.line_no as i32, file };
        let after = lex_all(s, q, file)->Tokens_0;
        assert(lex_all(s, p, file) == after_token(token, lex_all(s, q, file)));
        assert(kinds_of(seq![token] + after) =~= ks) by {
            assert forall|i: int| 0 <= i < ks.len() implies kinds_of(seq![token] + after)[i]
                == ks[i] by {
                if i > 0 {
                    assert(kinds_of(after)[i - 1] == rest[i - 1]);
                }
            }
        }
    }
}

} // verus!
