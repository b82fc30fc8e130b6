use vstd::prelude::*;
use vstd::string::*;
use crate::text::{
    chars_of, concat2, is_alphabetic, is_alphanumeric, is_ascii_digit, is_whitespace, owned, push_char,
    str_eq, string_of, unicode_alphabetic, unicode_numeric, unicode_whitespace,
};

verus! {

/// A token of the resource query language. A number keeps the text it
/// was written with.
#[derive(Debug, PartialEq)]
pub enum Token {
    Identifier(String),
    String(String),
    Number(String),
    Boolean(bool),
    Operator(Operator),
    LogicalOp(LogicalOp),
    LParen,
    RParen,
    LBracket,
    RBracket,
    Comma,
    Dot,
    Eof,
}

#[derive(Clone, Copy, PartialEq, Eq, Structural, Debug)]
pub enum Operator {
    Eq,
    Ne,
    Like,
    In,
}

#[derive(Clone, Copy, PartialEq, Eq, Structural, Debug)]
pub enum LogicalOp {
    And,
    Or,
    Not,
}

/// The value of a token, with its text as a sequence of characters.
pub enum TokenV {
    Identifier(Seq<char>),
    String(Seq<char>),
    Number(Seq<char>),
    Boolean(bool),
    Operator(Operator),
    LogicalOp(LogicalOp),
    LParen,
    RParen,
    LBracket,
    RBracket,
    Comma,
    Dot,
    Eof,
}

impl View for Token {
    type V = TokenV;

    open spec fn view(&self) -> TokenV {
        match self {
            Token::Identifier(s) => TokenV::Identifier(s@),
            Token::String(s) => TokenV::String(s@),
            Token::Number(s) => TokenV::Number(s@),
            Token::Boolean(b) => TokenV::Boolean(*b),
            Token::Operator(o) => TokenV::Operator(*o),
            Token::LogicalOp(o) => TokenV::LogicalOp(*o),
            Token::LParen => TokenV::LParen,
            Token::RParen => TokenV::RParen,
            Token::LBracket => TokenV::LBracket,
            Token::RBracket => TokenV::RBracket,
            Token::Comma => TokenV::Comma,
            Token::Dot => TokenV::Dot,
            Token::Eof => TokenV::Eof,
        }
    }
}

pub open spec fn tokens_view(ts: Seq<Token>) -> Seq<TokenV> {
    Seq::new(ts.len(), |i: int| ts[i]@)
}

/// The character at `i`, or NUL past either end.
pub open spec fn char_at(cs: Seq<char>, i: int) -> char {
    if 0 <= i < cs.len() {
        cs[i]
    } else {
        '\0'
    }
}

/// The first position at or after `pos` that does not hold whitespace.
pub open spec fn skip_ws(cs: Seq<char>, pos: int) -> int
    decreases cs.len() - pos,
{
    if 0 <= pos < cs.len() && unicode_whitespace(cs[pos]) {
        skip_ws(cs, pos + 1)
    } else {
        pos
    }
}

/// What a backslash followed by `c` stands for inside a string literal.
pub open spec fn escape_of(c: char) -> Seq<char> {
    if c == 'n' {
        seq!['\n']
    } else if c == 't' {
        seq!['\t']
    } else if c == 'r' {
        seq!['\r']
    } else if c == '\\' {
        seq!['\\']
    } else if c == '"' {
        seq!['"']
    } else if c == '\'' {
        seq!['\'']
    } else {
        seq!['\\', c]
    }
}

/// The rest of a string literal from `pos` (just past the opening quote):
/// its value, appended to `acc`, and the position past the closing quote;
/// `None` when the input ends first.
pub open spec fn string_body(cs: Seq<char>, quote: char, pos: int, acc: Seq<char>) -> Option<
    (Seq<char>, int),
>
    decreases cs.len() - pos,
{
    if pos < 0 || pos >= cs.len() {
        None
    } else if cs[pos] == quote {
        Some((acc, pos + 1))
    } else if cs[pos] == '\\' {
        if pos + 1 < cs.len() {
            string_body(cs, quote, pos + 2, acc + escape_of(cs[pos + 1]))
        } else {
            None
        }
    } else {
        string_body(cs, quote, pos + 1, acc.push(cs[pos]))
    }
}

/// The end of the run of digits and dots that starts at `pos`.
pub open spec fn number_end(cs: Seq<char>, pos: int) -> int
    decreases cs.len() - pos,
{
    if 0 <= pos < cs.len() && (is_ascii_digit(cs[pos]) || cs[pos] == '.') {
        number_end(cs, pos + 1)
    } else {
        pos
    }
}

/// The end of the run of identifier characters that starts at `pos`.
pub open spec fn ident_end(cs: Seq<char>, pos: int) -> int
    decreases cs.len() - pos,
{
    if 0 <= pos < cs.len() && (unicode_alphabetic(cs[pos]) || unicode_numeric(cs[pos]) || cs[pos] == '_') {
        ident_end(cs, pos + 1)
    } else {
        pos
    }
}

/// The number of dots in `s`.
pub open spec fn dot_count(s: Seq<char>) -> nat
    decreases s.len(),
{
    if s.len() == 0 {
        0
    } else {
        dot_count(s.drop_last()) + if s.last() == '.' {
            1nat
        } else {
            0nat
        }
    }
}

/// The token a word stands for: a keyword or an identifier.
pub open spec fn word_token(w: Seq<char>) -> TokenV {
    if w == "true"@ {
        TokenV::Boolean(true)
    } else if w == "false"@ {
        TokenV::Boolean(false)
    } else if w == "AND"@ {
        TokenV::LogicalOp(LogicalOp::And)
    } else if w == "OR"@ {
        TokenV::LogicalOp(LogicalOp::Or)
    } else if w == "NOT"@ {
        TokenV::LogicalOp(LogicalOp::Not)
    } else if w == "LIKE"@ {
        TokenV::Operator(Operator::Like)
    } else if w == "IN"@ {
        TokenV::Operator(Operator::In)
    } else {
        TokenV::Identifier(w)
    }
}

/// A number token from `pos`: an optional minus sign, then digits and
/// dots. More than one dot is no number.
pub open spec fn number_token(cs: Seq<char>, pos: int) -> Result<(TokenV, int), Seq<char>> {
    let start = if char_at(cs, pos) == '-' {
        pos + 1
    } else {
        pos
    };
    let end = number_end(cs, start);
    let text = cs.subrange(pos, end);
    if dot_count(text) <= 1 {
        Ok((TokenV::Number(text), end))
    } else {
        Err("Invalid number: "@ + text)
    }
}

/// The token that starts at `p`, which holds a character that is no
/// whitespace: the token and the position past it, or the error message.
pub open spec fn token_at(cs: Seq<char>, p: int) -> Result<(TokenV, int), Seq<char>> {
    let ch = cs[p];
    if ch == '(' {
        Ok((TokenV::LParen, p + 1))
    } else if ch == ')' {
        Ok((TokenV::RParen, p + 1))
    } else if ch == '[' {
        Ok((TokenV::LBracket, p + 1))
    } else if ch == ']' {
        Ok((TokenV::RBracket, p + 1))
    } else if ch == ',' {
        Ok((TokenV::Comma, p + 1))
    } else if ch == '.' {
        Ok((TokenV::Dot, p + 1))
    } else if ch == '"' || ch == '\'' {
        match string_body(cs, ch, p + 1, Seq::empty()) {
            Some((v, e)) => Ok((TokenV::String(v), e)),
            None => Err("Unterminated string"@),
        }
    } else if ch == '!' {
        if char_at(cs, p + 1) == '=' {
            Ok((TokenV::Operator(Operator::Ne), p + 2))
        } else {
            Err("Unexpected character '!' (did you mean '!='?)"@)
        }
    } else if ch == '=' {
        if char_at(cs, p + 1) == '=' {
            Ok((TokenV::Operator(Operator::Eq), p + 2))
        } else {
            Err("Unexpected character '=' (did you mean '=='?)"@)
        }
    } else if is_ascii_digit(ch) || (ch == '-' && p + 1 < cs.len() && is_ascii_digit(cs[p + 1])) {
        number_token(cs, p)
    } else if unicode_alphabetic(ch) || ch == '_' {
        let e = ident_end(cs, p);
        Ok((word_token(cs.subrange(p, e)), e))
    } else {
        Err("Unexpected character: '"@ + seq![ch] + "'"@)
    }
}

/// The tokens of `cs` from `pos` on, ending with `Eof`, or the message of
/// the first error.
pub open spec fn lex_from(cs: Seq<char>, pos: int) -> Result<Seq<TokenV>, Seq<char>>
    decreases cs.len() - pos,
{
    let p = skip_ws(cs, pos);
    if p < 0 || p >= cs.len() {
        Ok(seq![TokenV::Eof])
    } else {
        match token_at(cs, p) {
            Err(e) => Err(e),
            Ok((t, q)) => {
                proof {
                    lemma_skip_ws(cs, pos);
                    lemma_token_at_advances(cs, p);
                }
                match lex_from(cs, q) {
                    Ok(ts) => Ok(seq![t] + ts),
                    Err(e) => Err(e),
                }
            },
        }
    }
}

pub proof fn lemma_skip_ws(cs: Seq<char>, pos: int)
    requires
        0 <= pos,
    ensures
        pos <= skip_ws(cs, pos),
        pos <= cs.len() ==> skip_ws(cs, pos) <= cs.len(),
    decreases cs.len() - pos,
{
    if 0 <= pos < cs.len() && unicode_whitespace(cs[pos]) {
        lemma_skip_ws(cs, pos + 1);
    }
}

pub proof fn lemma_string_body(cs: Seq<char>, quote: char, pos: int, acc: Seq<char>)
    ensures
        string_body(cs, quote, pos, acc) matches Some((v, e)) ==> pos < e <= cs.len(),
    decreases cs.len() - pos,
{
    if 0 <= pos < cs.len() && cs[pos] != quote {
        if cs[pos] == '\\' {
            if pos + 1 < cs.len() {
                lemma_string_body(cs, quote, pos + 2, acc + escape_of(cs[pos + 1]));
            }
        } else {
            lemma_string_body(cs, quote, pos + 1, acc.push(cs[pos]));
        }
    }
}

pub proof fn lemma_number_end(cs: Seq<char>, pos: int)
    requires
        0 <= pos <= cs.len(),
    ensures
        pos <= number_end(cs, pos) <= cs.len(),
        pos < cs.len() && is_ascii_digit(cs[pos]) ==> pos < number_end(cs, pos),
    decreases cs.len() - pos,
{
    if 0 <= pos < cs.len() && (is_ascii_digit(cs[pos]) || cs[pos] == '.') {
        lemma_number_end(cs, pos + 1);
    }
}

pub proof fn lemma_ident_end(cs: Seq<char>, pos: int)
    requires
        0 <= pos <= cs.len(),
    ensures
        pos <= ident_end(cs, pos) <= cs.len(),
        pos < cs.len() && (unicode_alphabetic(cs[pos]) || cs[pos] == '_') ==> pos < ident_end(
            cs,
            pos,
        ),
    decreases cs.len() - pos,
{
    if 0 <= pos < cs.len() && (unicode_alphabetic(cs[pos]) || unicode_numeric(cs[pos])
        || cs[pos] == '_') {
        lemma_ident_end(cs, pos + 1);
    }
}

/// A token always takes at least one character and never runs past the end.
pub proof fn lemma_token_at_advances(cs: Seq<char>, p: int)
    requires
        0 <= p < cs.len(),
    ensures
        token_at(cs, p) matches Ok((t, q)) ==> p < q <= cs.len(),
{
    let ch = cs[p];
    if ch == '"' || ch == '\'' {
        lemma_string_body(cs, ch, p + 1, Seq::empty());
    }
    if ch == '-' {
        lemma_number_end(cs, p + 1);
    } else {
        lemma_number_end(cs, p);
    }
    lemma_ident_end(cs, p);
}

/// `r` with `ts` put in front of its tokens.
pub open spec fn prepend(ts: Seq<TokenV>, r: Result<Seq<TokenV>, Seq<char>>) -> Result<
    Seq<TokenV>,
    Seq<char>,
> {
    match r {
        Ok(rest) => Ok(ts + rest),
        Err(e) => Err(e),
    }
}

/// What the next call of `next_token` gives at position `pos`: `None` at
/// the end, else the token (with the position past it) or the error.
pub open spec fn next_token_at(cs: Seq<char>, pos: int) -> Option<Result<(TokenV, int), Seq<char>>> {
    let p = skip_ws(cs, pos);
    if p < 0 || p >= cs.len() {
        None
    } else {
        Some(token_at(cs, p))
    }
}

pub proof fn lemma_lex_from_step(cs: Seq<char>, pos: int)
    requires
        0 <= pos <= cs.len(),
    ensures
        match next_token_at(cs, pos) {
            None => lex_from(cs, pos) == Ok::<Seq<TokenV>, Seq<char>>(seq![TokenV::Eof]),
            Some(Err(e)) => lex_from(cs, pos) == Err::<Seq<TokenV>, Seq<char>>(e),
            Some(Ok((t, q))) => pos < q <= cs.len() && lex_from(cs, pos) == prepend(
                seq![t],
                lex_from(cs, q),
            ),
        },
{
    lemma_skip_ws(cs, pos);
    let p = skip_ws(cs, pos);
    if 0 <= p < cs.len() {
        lemma_token_at_advances(cs, p);
    }
}

/// A successful tokenization always ends with `Eof`, and `Eof`
/// occurs nowhere else.
pub proof fn law_tokens_end_with_eof(cs: Seq<char>, pos: int)
    requires
        0 <= pos <= cs.len(),
    ensures
        lex_from(cs, pos) matches Ok(ts) ==> ts.len() >= 1 && ts.last() == TokenV::Eof && forall|
            i: int,
        | 0 <= i < ts.len() - 1 ==> ts[i] != TokenV::Eof,
    decreases cs.len() - pos,
{
    lemma_lex_from_step(cs, pos);
    match next_token_at(cs, pos) {
        Some(Ok((t, q))) => {
            law_tokens_end_with_eof(cs, q);
            lemma_token_not_eof(cs, skip_ws(cs, pos));
        },
        _ => {},
    }
}

proof fn lemma_token_not_eof(cs: Seq<char>, p: int)
    requires
        0 <= p < cs.len(),
    ensures
        token_at(cs, p) matches Ok((t, q)) ==> t != TokenV::Eof,
{
}

/// Splits a query text into tokens.
pub struct Lexer<'a> {
    _input: &'a str,
    pos: usize,
    chars: Vec<char>,
}

impl<'a> Lexer<'a> {
    /// The characters of the query text.
    pub closed spec fn text(&self) -> Seq<char> {
        self.chars@
    }

    /// The position of the next character to read.
    pub closed spec fn position(&self) -> int {
        self.pos as int
    }

    pub closed spec fn wf(&self) -> bool {
        self.pos <= self.chars.len()
    }

    pub fn new(input: &'a str) -> (r: Self)
        ensures
            r.text() == input@,
            r.position() == 0,
            r.wf(),
    {
        Self { _input: input, pos: 0, chars: chars_of(input) }
    }

    /// All tokens from the current position, ending with `Eof`, or the
    /// message of the first error.
    pub fn tokenize(&mut self) -> (r: Result<Vec<Token>, String>)
        requires
            old(self).wf(),
        ensures
            final(self).wf(),
            final(self).text() == old(self).text(),
            match r {
                Ok(ts) => lex_from(old(self).text(), old(self).position()) == Ok::<
                    Seq<TokenV>,
                    Seq<char>,
                >(tokens_view(ts@)),
                Err(e) => lex_from(old(self).text(), old(self).position()) == Err::<
                    Seq<TokenV>,
                    Seq<char>,
                >(e@),
            },
    {
        let ghost cs = self.chars@;
        let ghost start = self.pos as int;
        let mut tokens: Vec<Token> = Vec::new();
        loop
            invariant
                self.wf(),
                self.chars@ == cs,
                cs == old(self).chars@,
                start == old(self).pos,
                lex_from(cs, start) == prepend(tokens_view(tokens@), lex_from(cs, self.pos as int)),
            decreases cs.len() - self.pos,
        {
            let ghost before = self.pos as int;
            proof {
                lemma_lex_from_step(cs, before);
            }
            match self.next_token() {
                Err(e) => {
                    assert(lex_from(cs, before) == Err::<Seq<TokenV>, Seq<char>>(e@));
                    return Err(e);
                },
                Ok(None) => {
                    let ghost prev = tokens@;
                    tokens.push(Token::Eof);
                    assert(tokens_view(tokens@) =~= tokens_view(prev) + seq![TokenV::Eof]);
                    return Ok(tokens);
                },
                Ok(Some(t)) => {
                    let ghost prev = tokens@;
                    tokens.push(t);
                    assert(tokens_view(tokens@) =~= tokens_view(prev) + seq![t@]);
                    assert(tokens_view(prev) + (seq![t@] + seq![]) =~= tokens_view(tokens@));
                    proof {
                        let rest = lex_from(cs, self.pos as int);
                        match rest {
                            Ok(x) => {
                                assert(tokens_view(prev) + (seq![t@] + x) =~= tokens_view(tokens@) + x);
                            },
                            Err(_) => {},
                        }
                    }
                },
            }
        }
    }

    fn current_char(&self) -> (c: char)
        requires
            self.wf(),
        ensures
            c == char_at(self.chars@, self.pos as int),
    {
        if self.pos < self.chars.len() {
            self.chars[self.pos]
        } else {
            '\0'
        }
    }

    fn peek_char(&self) -> (c: Option<char>)
        requires
            self.pos < self.chars.len(),
        ensures
            match c {
                Some(ch) => self.pos + 1 < self.chars.len() && ch == self.chars@[self.pos + 1],
                None => self.pos + 1 >= self.chars.len(),
            },
    {
        if self.pos + 1 < self.chars.len() {
            Some(self.chars[self.pos + 1])
        } else {
            None
        }
    }

    fn advance(&mut self)
        requires
            old(self).pos < old(self).chars.len(),
        ensures
            final(self).pos == old(self).pos + 1,
            final(self).chars@ == old(self).chars@,
    {
        self.pos = self.pos + 1;
    }

    fn skip_whitespace(&mut self)
        requires
            old(self).wf(),
        ensures
            final(self).wf(),
            final(self).chars@ == old(self).chars@,
            final(self).pos == skip_ws(old(self).chars@, old(self).pos as int),
    {
        let ghost cs = self.chars@;
        let ghost start = self.pos as int;
        while self.pos < self.chars.len() && is_whitespace(self.current_char())
            invariant
                self.wf(),
                self.chars@ == cs,
                skip_ws(cs, start) == skip_ws(cs, self.pos as int),
            decreases self.chars.len() - self.pos,
        {
            self.advance();
        }
    }

    fn next_token(&mut self) -> (r: Result<Option<Token>, String>)
        requires
            old(self).wf(),
        ensures
            final(self).wf(),
            final(self).chars@ == old(self).chars@,
            match next_token_at(old(self).chars@, old(self).pos as int) {
                None => r matches Ok(None),
                Some(Ok((t, q))) => r matches Ok(Some(tok)) && tok@ == t && final(self).pos == q,
                Some(Err(e)) => r matches Err(m) && m@ == e,
            },
    {
        self.skip_whitespace();
        if self.pos >= self.chars.len() {
            return Ok(None);
        }
        let ch = self.current_char();
        if ch == '(' {
            self.advance();
            Ok(Some(Token::LParen))
        } else if ch == ')' {
            self.advance();
            Ok(Some(Token::RParen))
        } else if ch == '[' {
            self.advance();
            Ok(Some(Token::LBracket))
        } else if ch == ']' {
            self.advance();
            Ok(Some(Token::RBracket))
        } else if ch == ',' {
            self.advance();
            Ok(Some(Token::Comma))
        } else if ch == '.' {
            self.advance();
            Ok(Some(Token::Dot))
        } else if ch == '"' || ch == '\'' {
            self.read_string()
        } else if ch == '!' {
            self.advance();
            if self.current_char() == '=' {
                self.advance();
                Ok(Some(Token::Operator(Operator::Ne)))
            } else {
                Err(owned("Unexpected character '!' (did you mean '!='?)"))
            }
        } else if ch == '=' {
            self.advance();
            if self.current_char() == '=' {
                self.advance();
                Ok(Some(Token::Operator(Operator::Eq)))
            } else {
                Err(owned("Unexpected character '=' (did you mean '=='?)"))
            }
        } else if ('0' <= ch && ch <= '9') || (ch == '-' && match self.peek_char() {
            Some(c) => '0' <= c && c <= '9',
            None => false,
        }) {
            self.read_number()
        } else if is_alphabetic(ch) || ch == '_' {
            self.read_identifier()
        } else {
            let mut msg = owned("Unexpected character: '");
            push_char(&mut msg, ch);
            push_char(&mut msg, '\'');
            assert(msg@ =~= "Unexpected character: '"@ + seq![ch] + "'"@) by {
                reveal_strlit("'");
            }
            Err(msg)
        }
    }

    fn read_string(&mut self) -> (r: Result<Option<Token>, String>)
        requires
            old(self).wf(),
            old(self).pos < old(self).chars.len(),
            old(self).chars@[old(self).pos as int] == '"' || old(self).chars@[old(self).pos as int]
                == '\'',
        ensures
            final(self).wf(),
            final(self).chars@ == old(self).chars@,
            match string_body(
                old(self).chars@,
                old(self).chars@[old(self).pos as int],
                old(self).pos + 1,
                Seq::empty(),
            ) {
                Some((v, e)) => r matches Ok(Some(Token::String(s))) && s@ == v && final(self).pos
                    == e,
                None => r matches Err(m) && m@ == "Unterminated string"@,
            },
    {
        let ghost cs = self.chars@;
        let quote = self.current_char();
        self.advance();
        let ghost start = self.pos as int;
        let mut value = String::new();
        while self.pos < self.chars.len() && self.current_char() != quote
            invariant
                self.wf(),
                self.chars@ == cs,
                string_body(cs, quote, start, Seq::empty()) == string_body(
                    cs,
                    quote,
                    self.pos as int,
                    value@,
                ),
            decreases self.chars.len() - self.pos,
        {
            if self.current_char() == '\\' {
                if self.pos + 1 < self.chars.len() {
                    self.advance();
                    let c = self.current_char();
                    let ghost before = value@;
                    if c == 'n' {
                        push_char(&mut value, '\n');
                    } else if c == 't' {
                        push_char(&mut value, '\t');
                    } else if c == 'r' {
                        push_char(&mut value, '\r');
                    } else if c == '\\' {
                        push_char(&mut value, '\\');
                    } else if c == '"' {
                        push_char(&mut value, '"');
                    } else if c == '\'' {
                        push_char(&mut value, '\'');
                    } else {
                        push_char(&mut value, '\\');
                        push_char(&mut value, c);
                    }
                    assert(value@ =~= before + escape_of(c));
                    self.advance();
                } else {
                    self.advance();
                }
            } else {
                push_char(&mut value, self.current_char());
                self.advance();
            }
        }
        if self.pos >= self.chars.len() {
            return Err(owned("Unterminated string"));
        }
        self.advance();
        Ok(Some(Token::String(value)))
    }

    fn read_number(&mut self) -> (r: Result<Option<Token>, String>)
        requires
            old(self).wf(),
            old(self).pos < old(self).chars.len(),
        ensures
            final(self).wf(),
            final(self).chars@ == old(self).chars@,
            match number_token(old(self).chars@, old(self).pos as int) {
                Ok((t, q)) => r matches Ok(Some(tok)) && tok@ == t && final(self).pos == q,
                Err(e) => r matches Err(m) && m@ == e,
            },
    {
        let ghost cs = self.chars@;
        let ghost start = self.pos as int;
        let mut num: Vec<char> = Vec::new();
        if self.current_char() == '-' {
            num.push('-');
            self.advance();
        }
        let ghost digits_from = self.pos as int;
        assert(num@ =~= cs.subrange(start, self.pos as int));
        while self.pos < self.chars.len() && (('0' <= self.current_char() && self.current_char()
            <= '9') || self.current_char() == '.')
            invariant
                self.wf(),
                self.chars@ == cs,
                0 <= start <= self.pos,
                number_end(cs, digits_from) == number_end(cs, self.pos as int),
                num@ == cs.subrange(start, self.pos as int),
            decreases self.chars.len() - self.pos,
        {
            let ghost at = self.pos as int;
            let c = self.current_char();
            num.push(c);
            self.advance();
            assert(cs.subrange(start, at + 1) =~= cs.subrange(start, at).push(cs[at]));
        }
        let mut dots: usize = 0;
        let mut i: usize = 0;
        while i < num.len()
            invariant
                i <= num.len(),
                dots == dot_count(num@.take(i as int)),
                dots <= i,
            decreases num.len() - i,
        {
            assert(num@.take(i + 1).drop_last() =~= num@.take(i as int));
            if num[i] == '.' {
                dots = dots + 1;
            }
            i = i + 1;
        }
        assert(num@.take(num.len() as int) =~= num@);
        let text = string_of(&num);
        if dots <= 1 {
            Ok(Some(Token::Number(text)))
        } else {
            Err(concat2("Invalid number: ", text.as_str()))
        }
    }

    fn read_identifier(&mut self) -> (r: Result<Option<Token>, String>)
        requires
            old(self).wf(),
            old(self).pos < old(self).chars.len(),
        ensures
            final(self).wf(),
            final(self).chars@ == old(self).chars@,
            r matches Ok(Some(tok)) && tok@ == word_token(
                old(self).chars@.subrange(
                    old(self).pos as int,
                    ident_end(old(self).chars@, old(self).pos as int),
                ),
            ) && final(self).pos == ident_end(old(self).chars@, old(self).pos as int),
    {
        let ghost cs = self.chars@;
        let ghost start = self.pos as int;
        let mut word: Vec<char> = Vec::new();
        while self.pos < self.chars.len() && (is_alphanumeric(self.current_char())
            || self.current_char() == '_')
            invariant
                self.wf(),
                self.chars@ == cs,
                0 <= start <= self.pos,
                ident_end(cs, start) == ident_end(cs, self.pos as int),
                word@ == cs.subrange(start, self.pos as int),
            decreases self.chars.len() - self.pos,
        {
            let ghost at = self.pos as int;
            let c = self.current_char();
            word.push(c);
            self.advance();
            assert(cs.subrange(start, at + 1) =~= cs.subrange(start, at).push(cs[at]));
        }
        let w = string_of(&word);
        let token = if str_eq(w.as_str(), "true") {
            Token::Boolean(true)
        } else if str_eq(w.as_str(), "false") {
            Token::Boolean(false)
        } else if str_eq(w.as_str(), "AND") {
            Token::LogicalOp(LogicalOp::And)
        } else if str_eq(w.as_str(), "OR") {
            Token::LogicalOp(LogicalOp::Or)
        } else if str_eq(w.as_str(), "NOT") {
            Token::LogicalOp(LogicalOp::Not)
        } else if str_eq(w.as_str(), "LIKE") {
            Token::Operator(Operator::Like)
        } else if str_eq(w.as_str(), "IN") {
            Token::Operator(Operator::In)
        } else {
            Token::Identifier(w)
        };
        Ok(Some(token))
    }
}

} // verus!
