use vstd::prelude::*;
use vstd::string::*;
use crate::query::lexer::{LogicalOp, Operator, Token, TokenV, tokens_view};
use crate::text::{owned, push_char};

verus! {

/// A parsed query.
#[derive(Debug)]
pub enum Expr {
    Comparison { field: Vec<String>, operator: Operator, value: QueryValue },
    And(Box<Expr>, Box<Expr>),
    Or(Box<Expr>, Box<Expr>),
    Not(Box<Expr>),
}

/// A literal on the right of a comparison. A number keeps its text.
#[derive(Debug)]
pub enum QueryValue {
    String(String),
    Number(String),
    Boolean(bool),
    Array(Vec<QueryValue>),
}

pub enum ValueV {
    String(Seq<char>),
    Number(Seq<char>),
    Boolean(bool),
    Array(Seq<ValueV>),
}

pub enum ExprV {
    Comparison { field: Seq<Seq<char>>, operator: Operator, value: ValueV },
    And(Box<ExprV>, Box<ExprV>),
    Or(Box<ExprV>, Box<ExprV>),
    Not(Box<ExprV>),
}

pub open spec fn value_view(v: QueryValue) -> ValueV
    decreases v, 1nat,
{
    match v {
        QueryValue::String(s) => ValueV::String(s@),
        QueryValue::Number(s) => ValueV::Number(s@),
        QueryValue::Boolean(b) => ValueV::Boolean(b),
        QueryValue::Array(a) => ValueV::Array(values_view(a@)),
    }
}

pub open spec fn values_view(s: Seq<QueryValue>) -> Seq<ValueV>
    decreases s, 0nat,
{
    if s.len() == 0 {
        Seq::empty()
    } else {
        values_view(s.drop_last()).push(value_view(s.last()))
    }
}

pub open spec fn path_view(p: Seq<String>) -> Seq<Seq<char>> {
    Seq::new(p.len(), |i: int| p[i]@)
}

pub open spec fn expr_view(e: Expr) -> ExprV
    decreases e,
{
    match e {
        Expr::Comparison { field, operator, value } => ExprV::Comparison {
            field: path_view(field@),
            operator,
            value: value_view(value),
        },
        Expr::And(l, r) => ExprV::And(Box::new(expr_view(*l)), Box::new(expr_view(*r))),
        Expr::Or(l, r) => ExprV::Or(Box::new(expr_view(*l)), Box::new(expr_view(*r))),
        Expr::Not(x) => ExprV::Not(Box::new(expr_view(*x))),
    }
}

impl View for QueryValue {
    type V = ValueV;

    open spec fn view(&self) -> ValueV {
        value_view(*self)
    }
}

impl View for Expr {
    type V = ExprV;

    open spec fn view(&self) -> ExprV {
        expr_view(*self)
    }
}

pub proof fn lemma_values_view_len(s: Seq<QueryValue>)
    ensures
        values_view(s).len() == s.len(),
        forall|i: int| 0 <= i < s.len() ==> #[trigger] values_view(s)[i] == value_view(s[i]),
    decreases s.len(),
{
    if s.len() > 0 {
        lemma_values_view_len(s.drop_last());
    }
}

pub broadcast proof fn lemma_values_view_push(s: Seq<QueryValue>, x: QueryValue)
    ensures
        #[trigger] values_view(s.push(x)) == values_view(s).push(value_view(x)),
{
    assert(s.push(x).drop_last() =~= s);
}

// ---------------------------------------------------------------------
// How a token appears in an error message.

/// A string as Rust's `Debug` shows it: in double quotes, with quotes,
/// backslashes, newlines, tabs and carriage returns escaped.
pub open spec fn quoted(s: Seq<char>) -> Seq<char> {
    "\""@ + escape_all(s) + "\""@
}

pub open spec fn escape_all(s: Seq<char>) -> Seq<char>
    decreases s.len(),
{
    if s.len() == 0 {
        Seq::empty()
    } else {
        escape_all(s.drop_last()) + escaped_char(s.last())
    }
}

pub open spec fn escaped_char(c: char) -> Seq<char> {
    if c == '"' {
        seq!['\\', '"']
    } else if c == '\\' {
        seq!['\\', '\\']
    } else if c == '\n' {
        seq!['\\', 'n']
    } else if c == '\t' {
        seq!['\\', 't']
    } else if c == '\r' {
        seq!['\\', 'r']
    } else {
        seq![c]
    }
}

pub open spec fn operator_name(o: Operator) -> Seq<char> {
    match o {
        Operator::Eq => "Eq"@,
        Operator::Ne => "Ne"@,
        Operator::Like => "Like"@,
        Operator::In => "In"@,
    }
}

pub open spec fn logical_name(o: LogicalOp) -> Seq<char> {
    match o {
        LogicalOp::And => "And"@,
        LogicalOp::Or => "Or"@,
        LogicalOp::Not => "Not"@,
    }
}

/// A token as the parser's error messages show it.
pub open spec fn token_text(t: TokenV) -> Seq<char> {
    match t {
        TokenV::Identifier(s) => "Identifier("@ + quoted(s) + ")"@,
        TokenV::String(s) => "String("@ + quoted(s) + ")"@,
        TokenV::Number(s) => "Number("@ + s + ")"@,
        TokenV::Boolean(b) => if b {
            "Boolean(true)"@
        } else {
            "Boolean(false)"@
        },
        TokenV::Operator(o) => "Operator("@ + operator_name(o) + ")"@,
        TokenV::LogicalOp(o) => "LogicalOp("@ + logical_name(o) + ")"@,
        TokenV::LParen => "LParen"@,
        TokenV::RParen => "RParen"@,
        TokenV::LBracket => "LBracket"@,
        TokenV::RBracket => "RBracket"@,
        TokenV::Comma => "Comma"@,
        TokenV::Dot => "Dot"@,
        TokenV::Eof => "Eof"@,
    }
}

/// The current token (or its absence) as the error messages show it.
pub open spec fn current_text(t: Option<TokenV>) -> Seq<char> {
    match t {
        None => "None"@,
        Some(t) => "Some("@ + token_text(t) + ")"@,
    }
}

// ---------------------------------------------------------------------
// The grammar.
//
//   or      := and ("OR" and)*
//   and     := not ("AND" not)*
//   not     := "NOT" primary | primary
//   primary := "(" or ")" | field operator value
//   field   := ident ("." ident)*
//   value   := string | number | boolean | "[" (value ("," value)*)? "]"
//
// Each function below parses from position `pos` and gives the result
// with the number of tokens it took.

pub type Parsed<T> = Result<(T, nat), Seq<char>>;

pub open spec fn tok(ts: Seq<TokenV>, pos: int) -> Option<TokenV> {
    if 0 <= pos < ts.len() {
        Some(ts[pos])
    } else {
        None
    }
}

pub open spec fn meas(ts: Seq<TokenV>, pos: int) -> nat {
    if pos < ts.len() {
        (ts.len() - pos) as nat
    } else {
        0
    }
}

pub open spec fn is_logical(t: Option<TokenV>, o: LogicalOp) -> bool {
    t == Some(TokenV::LogicalOp(o))
}

pub open spec fn parse_or_spec(ts: Seq<TokenV>, pos: int) -> Parsed<ExprV>
    decreases meas(ts, pos), 5nat,
{
    match parse_and_spec(ts, pos) {
        Err(e) => Err(e),
        Ok((l, n)) => match or_rest_spec(ts, l, pos + n) {
            Err(e) => Err(e),
            Ok((x, k)) => Ok((x, n + k)),
        },
    }
}

pub open spec fn or_rest_spec(ts: Seq<TokenV>, left: ExprV, pos: int) -> Parsed<ExprV>
    decreases meas(ts, pos), 4nat,
{
    if is_logical(tok(ts, pos), LogicalOp::Or) {
        match parse_and_spec(ts, pos + 1) {
            Err(e) => Err(e),
            Ok((r, m)) => match or_rest_spec(
                ts,
                ExprV::Or(Box::new(left), Box::new(r)),
                pos + 1 + m,
            ) {
                Err(e) => Err(e),
                Ok((x, k)) => Ok((x, 1 + m + k)),
            },
        }
    } else {
        Ok((left, 0))
    }
}

pub open spec fn parse_and_spec(ts: Seq<TokenV>, pos: int) -> Parsed<ExprV>
    decreases meas(ts, pos), 3nat,
{
    match parse_not_spec(ts, pos) {
        Err(e) => Err(e),
        Ok((l, n)) => match and_rest_spec(ts, l, pos + n) {
            Err(e) => Err(e),
            Ok((x, k)) => Ok((x, n + k)),
        },
    }
}

pub open spec fn and_rest_spec(ts: Seq<TokenV>, left: ExprV, pos: int) -> Parsed<ExprV>
    decreases meas(ts, pos), 2nat,
{
    if is_logical(tok(ts, pos), LogicalOp::And) {
        match parse_not_spec(ts, pos + 1) {
            Err(e) => Err(e),
            Ok((r, m)) => match and_rest_spec(
                ts,
                ExprV::And(Box::new(left), Box::new(r)),
                pos + 1 + m,
            ) {
                Err(e) => Err(e),
                Ok((x, k)) => Ok((x, 1 + m + k)),
            },
        }
    } else {
        Ok((left, 0))
    }
}

pub open spec fn parse_not_spec(ts: Seq<TokenV>, pos: int) -> Parsed<ExprV>
    decreases meas(ts, pos), 1nat,
{
    if is_logical(tok(ts, pos), LogicalOp::Not) {
        match parse_primary_spec(ts, pos + 1) {
            Err(e) => Err(e),
            Ok((x, n)) => Ok((ExprV::Not(Box::new(x)), n + 1)),
        }
    } else {
        parse_primary_spec(ts, pos)
    }
}

pub open spec fn parse_primary_spec(ts: Seq<TokenV>, pos: int) -> Parsed<ExprV>
    decreases meas(ts, pos), 0nat,
{
    if tok(ts, pos) == Some(TokenV::LParen) {
        match parse_or_spec(ts, pos + 1) {
            Err(e) => Err(e),
            Ok((x, n)) => if tok(ts, pos + 1 + n) == Some(TokenV::RParen) {
                Ok((x, n + 2))
            } else {
                Err("Expected closing parenthesis ')'"@)
            },
        }
    } else {
        parse_comparison_spec(ts, pos)
    }
}

pub open spec fn parse_comparison_spec(ts: Seq<TokenV>, pos: int) -> Parsed<ExprV> {
    match parse_field_path_spec(ts, pos) {
        Err(e) => Err(e),
        Ok((field, n)) => match tok(ts, pos + n) {
            Some(TokenV::Operator(op)) => match parse_value_spec(ts, pos + n + 1) {
                Err(e) => Err(e),
                Ok((value, m)) => Ok(
                    (ExprV::Comparison { field, operator: op, value }, n + 1 + m),
                ),
            },
            t => Err("Expected operator, got "@ + current_text(t)),
        },
    }
}

pub open spec fn parse_field_path_spec(ts: Seq<TokenV>, pos: int) -> Parsed<Seq<Seq<char>>> {
    match tok(ts, pos) {
        Some(TokenV::Identifier(name)) => match path_rest_spec(ts, pos + 1) {
            Err(e) => Err(e),
            Ok((rest, k)) => Ok((seq![name] + rest, 1 + k)),
        },
        t => Err("Expected identifier, got "@ + current_text(t)),
    }
}

pub open spec fn path_rest_spec(ts: Seq<TokenV>, pos: int) -> Parsed<Seq<Seq<char>>>
    decreases meas(ts, pos),
{
    if tok(ts, pos) == Some(TokenV::Dot) {
        match tok(ts, pos + 1) {
            Some(TokenV::Identifier(name)) => match path_rest_spec(ts, pos + 2) {
                Err(e) => Err(e),
                Ok((rest, k)) => Ok((seq![name] + rest, 2 + k)),
            },
            t => Err("Expected identifier after '.', got "@ + current_text(t)),
        }
    } else {
        Ok((Seq::empty(), 0))
    }
}

pub open spec fn parse_value_spec(ts: Seq<TokenV>, pos: int) -> Parsed<ValueV>
    decreases meas(ts, pos), 1nat,
{
    match tok(ts, pos) {
        Some(TokenV::String(s)) => Ok((ValueV::String(s), 1)),
        Some(TokenV::Number(s)) => Ok((ValueV::Number(s), 1)),
        Some(TokenV::Boolean(b)) => Ok((ValueV::Boolean(b), 1)),
        Some(TokenV::LBracket) => parse_array_spec(ts, pos),
        t => Err("Expected value, got "@ + current_text(t)),
    }
}

/// An array literal whose `[` is at `pos`.
pub open spec fn parse_array_spec(ts: Seq<TokenV>, pos: int) -> Parsed<ValueV>
    decreases meas(ts, pos), 0nat,
{
    if tok(ts, pos) != Some(TokenV::LBracket) {
        Err("Expected '['"@)
    } else if tok(ts, pos + 1) == Some(TokenV::RBracket) {
        Ok((ValueV::Array(Seq::empty()), 2))
    } else {
        match array_items_spec(ts, pos + 1) {
            Err(e) => Err(e),
            Ok((items, k)) => if tok(ts, pos + 1 + k) == Some(TokenV::RBracket) {
                Ok((ValueV::Array(items), k + 2))
            } else {
                Err("Expected ']'"@)
            },
        }
    }
}

/// One or more values separated by commas, from `pos`.
pub open spec fn array_items_spec(ts: Seq<TokenV>, pos: int) -> Parsed<Seq<ValueV>>
    decreases meas(ts, pos), 2nat,
{
    match parse_value_spec(ts, pos) {
        Err(e) => Err(e),
        Ok((v, n)) => if tok(ts, pos + n) == Some(TokenV::Comma) {
            match array_items_spec(ts, pos + n + 1) {
                Err(e) => Err(e),
                Ok((rest, k)) => Ok((seq![v] + rest, n + 1 + k)),
            }
        } else {
            Ok((seq![v], n))
        },
    }
}

pub open spec fn token_kind(t: TokenV) -> int {
    match t {
        TokenV::Identifier(_) => 0,
        TokenV::String(_) => 1,
        TokenV::Number(_) => 2,
        TokenV::Boolean(_) => 3,
        TokenV::Operator(_) => 4,
        TokenV::LogicalOp(_) => 5,
        TokenV::LParen => 6,
        TokenV::RParen => 7,
        TokenV::LBracket => 8,
        TokenV::RBracket => 9,
        TokenV::Comma => 10,
        TokenV::Dot => 11,
        TokenV::Eof => 12,
    }
}

/// Whether `t` is what the parser looks for when it expects `e`:
/// operators and logical operators must be the same one, any other
/// token only of the same kind.
pub open spec fn token_matches(t: TokenV, e: TokenV) -> bool {
    match (t, e) {
        (TokenV::LogicalOp(a), TokenV::LogicalOp(b)) => a == b,
        (TokenV::Operator(a), TokenV::Operator(b)) => a == b,
        _ => token_kind(t) == token_kind(e),
    }
}

fn push_str_lit(s: &mut String, t: &str)
    ensures
        final(s)@ == old(s)@ + t@,
{
    s.append(t);
}

fn escape_into(out: &mut String, s: &String)
    ensures
        final(out)@ == old(out)@ + escape_all(s@),
{
    let cs = crate::text::chars_of(s.as_str());
    let mut i: usize = 0;
    let ghost start = out@;
    while i < cs.len()
        invariant
            i <= cs.len(),
            cs@ == s@,
            out@ == start + escape_all(cs@.take(i as int)),
        decreases cs.len() - i,
    {
        let c = cs[i];
        let ghost before = out@;
        if c == '"' {
            push_char(out, '\\');
            push_char(out, '"');
        } else if c == '\\' {
            push_char(out, '\\');
            push_char(out, '\\');
        } else if c == '\n' {
            push_char(out, '\\');
            push_char(out, 'n');
        } else if c == '\t' {
            push_char(out, '\\');
            push_char(out, 't');
        } else if c == '\r' {
            push_char(out, '\\');
            push_char(out, 'r');
        } else {
            push_char(out, c);
        }
        assert(out@ =~= before + escaped_char(c));
        assert(cs@.take(i + 1).drop_last() =~= cs@.take(i as int));
        i = i + 1;
    }
    assert(cs@.take(cs.len() as int) =~= cs@);
}

fn quote_into(out: &mut String, s: &String)
    ensures
        final(out)@ == old(out)@ + quoted(s@),
{
    push_char(out, '"');
    escape_into(out, s);
    push_char(out, '"');
    proof {
        reveal_strlit("\"");
        assert(final(out)@ =~= old(out)@ + quoted(s@));
    }
}

/// The text of a message: `prefix` followed by how the current token, or
/// its absence, is shown.
fn message_with_token(prefix: &str, t: Option<&Token>) -> (r: String)
    ensures
        r@ == prefix@ + current_text(
            match t {
                Some(x) => Some(x@),
                None => None,
            },
        ),
{
    let mut out = owned(prefix);
    match t {
        None => {
            push_str_lit(&mut out, "None");
        },
        Some(tk) => {
            push_str_lit(&mut out, "Some(");
            match tk {
                Token::Identifier(s) => {
                    push_str_lit(&mut out, "Identifier(");
                    quote_into(&mut out, s);
                    push_str_lit(&mut out, ")");
                },
                Token::String(s) => {
                    push_str_lit(&mut out, "String(");
                    quote_into(&mut out, s);
                    push_str_lit(&mut out, ")");
                },
                Token::Number(s) => {
                    push_str_lit(&mut out, "Number(");
                    push_str_lit(&mut out, s.as_str());
                    push_str_lit(&mut out, ")");
                },
                Token::Boolean(b) => {
                    if *b {
                        push_str_lit(&mut out, "Boolean(true)");
                    } else {
                        push_str_lit(&mut out, "Boolean(false)");
                    }
                },
                Token::Operator(o) => {
                    push_str_lit(&mut out, "Operator(");
                    match o {
                        Operator::Eq => push_str_lit(&mut out, "Eq"),
                        Operator::Ne => push_str_lit(&mut out, "Ne"),
                        Operator::Like => push_str_lit(&mut out, "Like"),
                        Operator::In => push_str_lit(&mut out, "In"),
                    }
                    push_str_lit(&mut out, ")");
                },
                Token::LogicalOp(o) => {
                    push_str_lit(&mut out, "LogicalOp(");
                    match o {
                        LogicalOp::And => push_str_lit(&mut out, "And"),
                        LogicalOp::Or => push_str_lit(&mut out, "Or"),
                        LogicalOp::Not => push_str_lit(&mut out, "Not"),
                    }
                    push_str_lit(&mut out, ")");
                },
                Token::LParen => push_str_lit(&mut out, "LParen"),
                Token::RParen => push_str_lit(&mut out, "RParen"),
                Token::LBracket => push_str_lit(&mut out, "LBracket"),
                Token::RBracket => push_str_lit(&mut out, "RBracket"),
                Token::Comma => push_str_lit(&mut out, "Comma"),
                Token::Dot => push_str_lit(&mut out, "Dot"),
                Token::Eof => push_str_lit(&mut out, "Eof"),
            }
            push_str_lit(&mut out, ")");
        },
    }
    proof {
        let tv = match t {
            Some(x) => Some(x@),
            None => None,
        };
        assert(out@ =~= prefix@ + current_text(tv));
    }
    out
}


/// Parses a query from its tokens.
pub struct QueryParser {
    tokens: Vec<Token>,
    pos: usize,
}

impl QueryParser {
    /// The tokens being parsed.
    pub closed spec fn tokens(&self) -> Seq<TokenV> {
        tokens_view(self.tokens@)
    }

    /// The position of the next token to read.
    pub closed spec fn position(&self) -> int {
        self.pos as int
    }

    pub closed spec fn wf(&self) -> bool {
        self.pos <= self.tokens.len()
    }

    pub fn new(tokens: Vec<Token>) -> (r: Self)
        ensures
            r.tokens() == tokens_view(tokens@),
            r.position() == 0,
            r.wf(),
    {
        Self { tokens, pos: 0 }
    }

    /// Parses a whole query from the current position: an `OR`
    /// expression, as far as the tokens continue it.
    pub fn parse(&mut self) -> (r: Result<Expr, String>)
        requires
            old(self).wf(),
        ensures
            final(self).wf(),
            final(self).tokens() == old(self).tokens(),
            match parse_or_spec(old(self).tokens(), old(self).position()) {
                Ok((e, n)) => r matches Ok(x) && x@ == e && final(self).position() == old(
                    self,
                ).position() + n,
                Err(m) => r matches Err(x) && x@ == m,
            },
    {
        match self.parse_or_expr(self.pos) {
            Ok((e, p)) => {
                self.pos = p;
                Ok(e)
            },
            Err(m) => Err(m),
        }
    }

    fn current_token(&self, pos: usize) -> (r: Option<&Token>)
        ensures
            match r {
                Some(t) => tok(self.tokens(), pos as int) == Some(t@) && pos < self.tokens.len(),
                None => tok(self.tokens(), pos as int) is None,
            },
    {
        if pos < self.tokens.len() {
            Some(&self.tokens[pos])
        } else {
            None
        }
    }

    fn match_token(&self, pos: usize, expected: &Token) -> (r: bool)
        ensures
            r == match tok(self.tokens(), pos as int) {
                Some(t) => token_matches(t, expected@),
                None => false,
            },
            r ==> pos < self.tokens.len(),
    {
        match self.current_token(pos) {
            Some(token) => match (token, expected) {
                (Token::LogicalOp(a), Token::LogicalOp(b)) => *a == *b,
                (Token::Operator(a), Token::Operator(b)) => *a == *b,
                _ => token_kind_of(token) == token_kind_of(expected),
            },
            None => false,
        }
    }

    fn parse_or_expr(&self, pos: usize) -> (r: Result<(Expr, usize), String>)
        requires
            pos <= self.tokens.len(),
        ensures
            match parse_or_spec(self.tokens(), pos as int) {
                Ok((e, n)) => r matches Ok((x, q)) && x@ == e && q == pos + n && q <= self.tokens.len(),
                Err(m) => r matches Err(x) && x@ == m,
            },
        decreases meas(self.tokens(), pos as int), 5nat,
    {
        let (left, p) = self.parse_and_expr(pos)?;
        self.or_rest(left, p)
    }

    /// The `OR` operands that follow `left`, from `pos`.
    fn or_rest(&self, left: Expr, pos: usize) -> (r: Result<(Expr, usize), String>)
        requires
            pos <= self.tokens.len(),
        ensures
            match or_rest_spec(self.tokens(), left@, pos as int) {
                Ok((e, n)) => r matches Ok((x, q)) && x@ == e && q == pos + n && q <= self.tokens.len(),
                Err(m) => r matches Err(x) && x@ == m,
            },
        decreases meas(self.tokens(), pos as int), 4nat,
    {
        if self.match_token(pos, &Token::LogicalOp(LogicalOp::Or)) {
            let (right, q) = self.parse_and_expr(pos + 1)?;
            self.or_rest(Expr::Or(Box::new(left), Box::new(right)), q)
        } else {
            Ok((left, pos))
        }
    }

    fn parse_and_expr(&self, pos: usize) -> (r: Result<(Expr, usize), String>)
        requires
            pos <= self.tokens.len(),
        ensures
            match parse_and_spec(self.tokens(), pos as int) {
                Ok((e, n)) => r matches Ok((x, q)) && x@ == e && q == pos + n && q <= self.tokens.len(),
                Err(m) => r matches Err(x) && x@ == m,
            },
        decreases meas(self.tokens(), pos as int), 3nat,
    {
        let (left, p) = self.parse_not_expr(pos)?;
        self.and_rest(left, p)
    }

    /// The `AND` operands that follow `left`, from `pos`.
    fn and_rest(&self, left: Expr, pos: usize) -> (r: Result<(Expr, usize), String>)
        requires
            pos <= self.tokens.len(),
        ensures
            match and_rest_spec(self.tokens(), left@, pos as int) {
                Ok((e, n)) => r matches Ok((x, q)) && x@ == e && q == pos + n && q <= self.tokens.len(),
                Err(m) => r matches Err(x) && x@ == m,
            },
        decreases meas(self.tokens(), pos as int), 2nat,
    {
        if self.match_token(pos, &Token::LogicalOp(LogicalOp::And)) {
            let (right, q) = self.parse_not_expr(pos + 1)?;
            self.and_rest(Expr::And(Box::new(left), Box::new(right)), q)
        } else {
            Ok((left, pos))
        }
    }

    fn parse_not_expr(&self, pos: usize) -> (r: Result<(Expr, usize), String>)
        requires
            pos <= self.tokens.len(),
        ensures
            match parse_not_spec(self.tokens(), pos as int) {
                Ok((e, n)) => r matches Ok((x, q)) && x@ == e && q == pos + n && q <= self.tokens.len(),
                Err(m) => r matches Err(x) && x@ == m,
            },
        decreases meas(self.tokens(), pos as int), 1nat,
    {
        if self.match_token(pos, &Token::LogicalOp(LogicalOp::Not)) {
            let (expr, q) = self.parse_primary(pos + 1)?;
            Ok((Expr::Not(Box::new(expr)), q))
        } else {
            self.parse_primary(pos)
        }
    }

    fn parse_primary(&self, pos: usize) -> (r: Result<(Expr, usize), String>)
        requires
            pos <= self.tokens.len(),
        ensures
            match parse_primary_spec(self.tokens(), pos as int) {
                Ok((e, n)) => r matches Ok((x, q)) && x@ == e && q == pos + n && q <= self.tokens.len(),
                Err(m) => r matches Err(x) && x@ == m,
            },
        decreases meas(self.tokens(), pos as int), 0nat,
    {
        if self.match_token(pos, &Token::LParen) {
            let (expr, q) = self.parse_or_expr(pos + 1)?;
            if !self.match_token(q, &Token::RParen) {
                return Err(owned("Expected closing parenthesis ')'"));
            }
            Ok((expr, q + 1))
        } else {
            self.parse_comparison(pos)
        }
    }

    fn parse_comparison(&self, pos: usize) -> (r: Result<(Expr, usize), String>)
        requires
            pos <= self.tokens.len(),
        ensures
            match parse_comparison_spec(self.tokens(), pos as int) {
                Ok((e, n)) => r matches Ok((x, q)) && x@ == e && q == pos + n && q <= self.tokens.len(),
                Err(m) => r matches Err(x) && x@ == m,
            },
    {
        let (field, p) = self.parse_field_path(pos)?;
        let (operator, q) = self.parse_operator(p)?;
        let (value, e) = self.parse_value(q)?;
        Ok((Expr::Comparison { field, operator, value }, e))
    }

    fn parse_field_path(&self, pos: usize) -> (r: Result<(Vec<String>, usize), String>)
        requires
            pos <= self.tokens.len(),
        ensures
            match parse_field_path_spec(self.tokens(), pos as int) {
                Ok((f, n)) => r matches Ok((x, q)) && path_view(x@) == f && q == pos + n && q <= self.tokens.len(),
                Err(m) => r matches Err(x) && x@ == m,
            },
    {
        let mut path: Vec<String> = Vec::new();
        match self.current_token(pos) {
            Some(Token::Identifier(name)) => {
                path.push(name.clone());
                let ghost head = path_view(path@);
                let ghost nv = name@;
                let q = self.path_rest(&mut path, pos + 1)?;
                proof {
                    match path_rest_spec(self.tokens(), pos + 1) {
                        Ok((rest, k)) => {
                            assert(path_view(path@) =~= seq![nv] + rest);
                        },
                        Err(_) => {},
                    }
                }
                Ok((path, q))
            },
            t => Err(message_with_token("Expected identifier, got ", t)),
        }
    }

    /// Appends the `.`-separated names that follow, from `pos`.
    fn path_rest(&self, path: &mut Vec<String>, pos: usize) -> (r: Result<usize, String>)
        requires
            pos <= self.tokens.len(),
        ensures
            match path_rest_spec(self.tokens(), pos as int) {
                Ok((rest, n)) => r matches Ok(q) && path_view(final(path)@) == path_view(old(path)@) + rest && q == pos + n && q <= self.tokens.len(),
                Err(m) => r matches Err(x) && x@ == m,
            },
        decreases meas(self.tokens(), pos as int),
    {
        if self.match_token(pos, &Token::Dot) {
            match self.current_token(pos + 1) {
                Some(Token::Identifier(name)) => {
                    let ghost before = path_view(path@);
                    path.push(name.clone());
                    assert(path_view(path@) =~= before.push(name@));
                    let ghost mid = path_view(path@);
                    let q = self.path_rest(path, pos + 2)?;
                    proof {
                        match path_rest_spec(self.tokens(), pos + 2) {
                            Ok((rest, k)) => {
                                assert(path_view(path@) =~= before + (seq![name@] + rest));
                            },
                            Err(_) => {},
                        }
                    }
                    Ok(q)
                },
                t => Err(message_with_token("Expected identifier after '.', got ", t)),
            }
        } else {
            assert(path_view(path@) =~= path_view(path@) + Seq::<Seq<char>>::empty());
            Ok(pos)
        }
    }

    fn parse_operator(&self, pos: usize) -> (r: Result<(Operator, usize), String>)
        requires
            pos <= self.tokens.len(),
        ensures
            match tok(self.tokens(), pos as int) {
                Some(TokenV::Operator(op)) => r == Ok::<(Operator, usize), String>((op, (pos + 1) as usize)) && pos + 1 <= self.tokens.len(),
                t => r matches Err(x) && x@ == "Expected operator, got "@ + current_text(t),
            },
    {
        match self.current_token(pos) {
            Some(Token::Operator(op)) => Ok((*op, pos + 1)),
            t => Err(message_with_token("Expected operator, got ", t)),
        }
    }

    fn parse_value(&self, pos: usize) -> (r: Result<(QueryValue, usize), String>)
        requires
            pos <= self.tokens.len(),
        ensures
            match parse_value_spec(self.tokens(), pos as int) {
                Ok((v, n)) => r matches Ok((x, q)) && x@ == v && q == pos + n && q <= self.tokens.len(),
                Err(m) => r matches Err(x) && x@ == m,
            },
        decreases meas(self.tokens(), pos as int), 1nat,
    {
        match self.current_token(pos) {
            Some(Token::String(s)) => Ok((QueryValue::String(s.clone()), pos + 1)),
            Some(Token::Number(n)) => Ok((QueryValue::Number(n.clone()), pos + 1)),
            Some(Token::Boolean(b)) => Ok((QueryValue::Boolean(*b), pos + 1)),
            Some(Token::LBracket) => self.parse_array(pos),
            t => Err(message_with_token("Expected value, got ", t)),
        }
    }

    fn parse_array(&self, pos: usize) -> (r: Result<(QueryValue, usize), String>)
        requires
            pos <= self.tokens.len(),
        ensures
            match parse_array_spec(self.tokens(), pos as int) {
                Ok((v, n)) => r matches Ok((x, q)) && x@ == v && q == pos + n && q <= self.tokens.len(),
                Err(m) => r matches Err(x) && x@ == m,
            },
        decreases meas(self.tokens(), pos as int), 0nat,
    {
        if !self.match_token(pos, &Token::LBracket) {
            return Err(owned("Expected '['"));
        }
        let mut elements: Vec<QueryValue> = Vec::new();
        let mut p = pos + 1;
        if !self.match_token(p, &Token::RBracket) {
            p = self.array_items(&mut elements, p)?;
        }
        if !self.match_token(p, &Token::RBracket) {
            return Err(owned("Expected ']'"));
        }
        proof {
            assert(values_view(elements@) =~= Seq::<ValueV>::empty() + values_view(elements@));
        }
        Ok((QueryValue::Array(elements), p + 1))
    }

    /// Appends one or more values separated by commas, from `pos`.
    fn array_items(&self, elements: &mut Vec<QueryValue>, pos: usize) -> (r: Result<usize, String>)
        requires
            pos <= self.tokens.len(),
        ensures
            match array_items_spec(self.tokens(), pos as int) {
                Ok((items, n)) => r matches Ok(q) && values_view(final(elements)@) == values_view(old(elements)@) + items && q == pos + n && q <= self.tokens.len(),
                Err(m) => r matches Err(x) && x@ == m,
            },
        decreases meas(self.tokens(), pos as int), 2nat,
    {
        let (value, q) = self.parse_value(pos)?;
        let ghost before = values_view(elements@);
        let ghost vv = value@;
        elements.push(value);
        proof {
            broadcast use lemma_values_view_push;
        }
        if self.match_token(q, &Token::Comma) {
            let e = self.array_items(elements, q + 1)?;
            proof {
                match array_items_spec(self.tokens(), q + 1) {
                    Ok((rest, k)) => {
                        assert(values_view(elements@) =~= before + (seq![vv] + rest));
                    },
                    Err(_) => {},
                }
            }
            Ok(e)
        } else {
            assert(values_view(elements@) =~= before + seq![vv]);
            Ok(q)
        }
    }
}

fn token_kind_of(t: &Token) -> (k: u8)
    ensures
        k as int == token_kind(t@),
{
    match t {
        Token::Identifier(_) => 0,
        Token::String(_) => 1,
        Token::Number(_) => 2,
        Token::Boolean(_) => 3,
        Token::Operator(_) => 4,
        Token::LogicalOp(_) => 5,
        Token::LParen => 6,
        Token::RParen => 7,
        Token::LBracket => 8,
        Token::RBracket => 9,
        Token::Comma => 10,
        Token::Dot => 11,
        Token::Eof => 12,
    }
}


/// The value that a single-token literal stands for: a string, number or
/// boolean; none for any other token.
pub open spec fn scalar_value(t: TokenV) -> Option<ValueV> {
    match t {
        TokenV::String(s) => Some(ValueV::String(s)),
        TokenV::Number(s) => Some(ValueV::Number(s)),
        TokenV::Boolean(b) => Some(ValueV::Boolean(b)),
        _ => None,
    }
}

/// The comparison of a one-name field with a literal.
pub open spec fn simple_comparison(f: Seq<char>, o: Operator, v: ValueV) -> ExprV {
    ExprV::Comparison { field: seq![f], operator: o, value: v }
}

/// A field name, an operator and a single-token literal, followed by a
/// token that is not `.`, parse as one comparison of three tokens.
proof fn lemma_comparison_at(ts: Seq<TokenV>, pos: int, f: Seq<char>, o: Operator)
    requires
        0 <= pos,
        pos + 3 < ts.len(),
        ts[pos] == TokenV::Identifier(f),
        ts[pos + 1] == TokenV::Operator(o),
        scalar_value(ts[pos + 2]) is Some,
    ensures
        parse_not_spec(ts, pos) == Ok::<(ExprV, nat), Seq<char>>(
            (simple_comparison(f, o, scalar_value(ts[pos + 2])->0), 3nat),
        ),
        parse_primary_spec(ts, pos) == Ok::<(ExprV, nat), Seq<char>>(
            (simple_comparison(f, o, scalar_value(ts[pos + 2])->0), 3nat),
        ),
{
    assert(path_rest_spec(ts, pos + 1) == Ok::<(Seq<Seq<char>>, nat), Seq<char>>((Seq::<Seq<char>>::empty(), 0nat)));
    assert(seq![f] + Seq::<Seq<char>>::empty() =~= seq![f]);
    assert(parse_field_path_spec(ts, pos) == Ok::<(Seq<Seq<char>>, nat), Seq<char>>((seq![f], 1nat)));
    assert(parse_value_spec(ts, pos + 2) == Ok::<(ValueV, nat), Seq<char>>((scalar_value(ts[pos + 2])->0, 1nat)));
    assert(parse_comparison_spec(ts, pos) == Ok::<(ExprV, nat), Seq<char>>(
        (simple_comparison(f, o, scalar_value(ts[pos + 2])->0), 3nat),
    ));
    assert(parse_primary_spec(ts, pos) == parse_comparison_spec(ts, pos));
}

/// AND binds tighter than OR: `a OR b AND c` parses as `a OR (b AND c)`,
/// the OR token becoming the Or node and the AND token the And node, for
/// any three comparisons of a field with a literal.
pub proof fn law_and_binds_tighter_after_or(
    f1: Seq<char>, o1: Operator, v1: TokenV,
    f2: Seq<char>, o2: Operator, v2: TokenV,
    f3: Seq<char>, o3: Operator, v3: TokenV,
)
    requires
        scalar_value(v1) is Some,
        scalar_value(v2) is Some,
        scalar_value(v3) is Some,
    ensures
        parse_or_spec(
            seq![
                TokenV::Identifier(f1), TokenV::Operator(o1), v1, TokenV::LogicalOp(LogicalOp::Or),
                TokenV::Identifier(f2), TokenV::Operator(o2), v2, TokenV::LogicalOp(LogicalOp::And),
                TokenV::Identifier(f3), TokenV::Operator(o3), v3, TokenV::Eof,
            ],
            0,
        ) == Ok::<(ExprV, nat), Seq<char>>((
            ExprV::Or(
                Box::new(simple_comparison(f1, o1, scalar_value(v1)->0)),
                Box::new(ExprV::And(
                    Box::new(simple_comparison(f2, o2, scalar_value(v2)->0)),
                    Box::new(simple_comparison(f3, o3, scalar_value(v3)->0)),
                )),
            ),
            11nat,
        )),
{
    let ts = seq![
        TokenV::Identifier(f1), TokenV::Operator(o1), v1, TokenV::LogicalOp(LogicalOp::Or),
        TokenV::Identifier(f2), TokenV::Operator(o2), v2, TokenV::LogicalOp(LogicalOp::And),
        TokenV::Identifier(f3), TokenV::Operator(o3), v3, TokenV::Eof,
    ];
    let c1 = simple_comparison(f1, o1, scalar_value(v1)->0);
    let c2 = simple_comparison(f2, o2, scalar_value(v2)->0);
    let c3 = simple_comparison(f3, o3, scalar_value(v3)->0);
    let a23 = ExprV::And(Box::new(c2), Box::new(c3));
    let top = ExprV::Or(Box::new(c1), Box::new(a23));
    lemma_comparison_at(ts, 0, f1, o1);
    lemma_comparison_at(ts, 4, f2, o2);
    lemma_comparison_at(ts, 8, f3, o3);
    assert(and_rest_spec(ts, c1, 3) == Ok::<(ExprV, nat), Seq<char>>((c1, 0nat)));
    assert(parse_and_spec(ts, 0) == Ok::<(ExprV, nat), Seq<char>>((c1, 3nat)));
    assert(and_rest_spec(ts, a23, 11) == Ok::<(ExprV, nat), Seq<char>>((a23, 0nat)));
    assert(and_rest_spec(ts, c2, 7) == Ok::<(ExprV, nat), Seq<char>>((a23, 4nat)));
    assert(parse_and_spec(ts, 4) == Ok::<(ExprV, nat), Seq<char>>((a23, 7nat)));
    assert(or_rest_spec(ts, top, 11) == Ok::<(ExprV, nat), Seq<char>>((top, 0nat)));
    assert(or_rest_spec(ts, c1, 3) == Ok::<(ExprV, nat), Seq<char>>((top, 8nat)));
}

/// AND binds tighter than OR on the left too: `a AND b OR c` parses as
/// `(a AND b) OR c`, for any three comparisons of a field with a literal.
pub proof fn law_and_binds_tighter_before_or(
    f1: Seq<char>, o1: Operator, v1: TokenV,
    f2: Seq<char>, o2: Operator, v2: TokenV,
    f3: Seq<char>, o3: Operator, v3: TokenV,
)
    requires
        scalar_value(v1) is Some,
        scalar_value(v2) is Some,
        scalar_value(v3) is Some,
    ensures
        parse_or_spec(
            seq![
                TokenV::Identifier(f1), TokenV::Operator(o1), v1, TokenV::LogicalOp(LogicalOp::And),
                TokenV::Identifier(f2), TokenV::Operator(o2), v2, TokenV::LogicalOp(LogicalOp::Or),
                TokenV::Identifier(f3), TokenV::Operator(o3), v3, TokenV::Eof,
            ],
            0,
        ) == Ok::<(ExprV, nat), Seq<char>>((
            ExprV::Or(
                Box::new(ExprV::And(
                    Box::new(simple_comparison(f1, o1, scalar_value(v1)->0)),
                    Box::new(simple_comparison(f2, o2, scalar_value(v2)->0)),
                )),
                Box::new(simple_comparison(f3, o3, scalar_value(v3)->0)),
            ),
            11nat,
        )),
{
    let ts = seq![
        TokenV::Identifier(f1), TokenV::Operator(o1), v1, TokenV::LogicalOp(LogicalOp::And),
        TokenV::Identifier(f2), TokenV::Operator(o2), v2, TokenV::LogicalOp(LogicalOp::Or),
        TokenV::Identifier(f3), TokenV::Operator(o3), v3, TokenV::Eof,
    ];
    let c1 = simple_comparison(f1, o1, scalar_value(v1)->0);
    let c2 = simple_comparison(f2, o2, scalar_value(v2)->0);
    let c3 = simple_comparison(f3, o3, scalar_value(v3)->0);
    let a12 = ExprV::And(Box::new(c1), Box::new(c2));
    let top = ExprV::Or(Box::new(a12), Box::new(c3));
    lemma_comparison_at(ts, 0, f1, o1);
    lemma_comparison_at(ts, 4, f2, o2);
    lemma_comparison_at(ts, 8, f3, o3);
    assert(and_rest_spec(ts, a12, 7) == Ok::<(ExprV, nat), Seq<char>>((a12, 0nat)));
    assert(and_rest_spec(ts, c1, 3) == Ok::<(ExprV, nat), Seq<char>>((a12, 4nat)));
    assert(parse_and_spec(ts, 0) == Ok::<(ExprV, nat), Seq<char>>((a12, 7nat)));
    assert(and_rest_spec(ts, c3, 11) == Ok::<(ExprV, nat), Seq<char>>((c3, 0nat)));
    assert(parse_and_spec(ts, 8) == Ok::<(ExprV, nat), Seq<char>>((c3, 3nat)));
    assert(or_rest_spec(ts, top, 11) == Ok::<(ExprV, nat), Seq<char>>((top, 0nat)));
    assert(or_rest_spec(ts, a12, 7) == Ok::<(ExprV, nat), Seq<char>>((top, 4nat)));
}


/// NOT applies to the one comparison after it, not to what AND joins:
/// `NOT a AND b` parses as `(NOT a) AND b`.
pub proof fn law_not_binds_tighter_than_and(
    f1: Seq<char>, o1: Operator, v1: TokenV,
    f2: Seq<char>, o2: Operator, v2: TokenV,
)
    requires
        scalar_value(v1) is Some,
        scalar_value(v2) is Some,
    ensures
        parse_or_spec(
            seq![
                TokenV::LogicalOp(LogicalOp::Not), TokenV::Identifier(f1), TokenV::Operator(o1), v1,
                TokenV::LogicalOp(LogicalOp::And), TokenV::Identifier(f2), TokenV::Operator(o2), v2,
                TokenV::Eof,
            ],
            0,
        ) == Ok::<(ExprV, nat), Seq<char>>((
            ExprV::And(
                Box::new(ExprV::Not(Box::new(simple_comparison(f1, o1, scalar_value(v1)->0)))),
                Box::new(simple_comparison(f2, o2, scalar_value(v2)->0)),
            ),
            8nat,
        )),
{
    let ts = seq![
        TokenV::LogicalOp(LogicalOp::Not), TokenV::Identifier(f1), TokenV::Operator(o1), v1,
        TokenV::LogicalOp(LogicalOp::And), TokenV::Identifier(f2), TokenV::Operator(o2), v2,
        TokenV::Eof,
    ];
    let c1 = simple_comparison(f1, o1, scalar_value(v1)->0);
    let c2 = simple_comparison(f2, o2, scalar_value(v2)->0);
    let n1 = ExprV::Not(Box::new(c1));
    let top = ExprV::And(Box::new(n1), Box::new(c2));
    lemma_comparison_at(ts, 1, f1, o1);
    lemma_comparison_at(ts, 5, f2, o2);
    assert(parse_not_spec(ts, 0) == Ok::<(ExprV, nat), Seq<char>>((n1, 4nat)));
    assert(and_rest_spec(ts, top, 8) == Ok::<(ExprV, nat), Seq<char>>((top, 0nat)));
    assert(and_rest_spec(ts, n1, 4) == Ok::<(ExprV, nat), Seq<char>>((top, 4nat)));
    assert(parse_and_spec(ts, 0) == Ok::<(ExprV, nat), Seq<char>>((top, 8nat)));
    assert(or_rest_spec(ts, top, 8) == Ok::<(ExprV, nat), Seq<char>>((top, 0nat)));
}

/// Parentheses group first: `(a OR b) AND c` parses as the AND of the
/// parenthesised OR and `c`.
pub proof fn law_parentheses_group_first(
    f1: Seq<char>, o1: Operator, v1: TokenV,
    f2: Seq<char>, o2: Operator, v2: TokenV,
    f3: Seq<char>, o3: Operator, v3: TokenV,
)
    requires
        scalar_value(v1) is Some,
        scalar_value(v2) is Some,
        scalar_value(v3) is Some,
    ensures
        parse_or_spec(
            seq![
                TokenV::LParen, TokenV::Identifier(f1), TokenV::Operator(o1), v1,
                TokenV::LogicalOp(LogicalOp::Or), TokenV::Identifier(f2), TokenV::Operator(o2), v2,
                TokenV::RParen, TokenV::LogicalOp(LogicalOp::And), TokenV::Identifier(f3),
                TokenV::Operator(o3), v3, TokenV::Eof,
            ],
            0,
        ) == Ok::<(ExprV, nat), Seq<char>>((
            ExprV::And(
                Box::new(ExprV::Or(
                    Box::new(simple_comparison(f1, o1, scalar_value(v1)->0)),
                    Box::new(simple_comparison(f2, o2, scalar_value(v2)->0)),
                )),
                Box::new(simple_comparison(f3, o3, scalar_value(v3)->0)),
            ),
            13nat,
        )),
{
    let ts = seq![
        TokenV::LParen, TokenV::Identifier(f1), TokenV::Operator(o1), v1,
        TokenV::LogicalOp(LogicalOp::Or), TokenV::Identifier(f2), TokenV::Operator(o2), v2,
        TokenV::RParen, TokenV::LogicalOp(LogicalOp::And), TokenV::Identifier(f3),
        TokenV::Operator(o3), v3, TokenV::Eof,
    ];
    let c1 = simple_comparison(f1, o1, scalar_value(v1)->0);
    let c2 = simple_comparison(f2, o2, scalar_value(v2)->0);
    let c3 = simple_comparison(f3, o3, scalar_value(v3)->0);
    let o12 = ExprV::Or(Box::new(c1), Box::new(c2));
    let top = ExprV::And(Box::new(o12), Box::new(c3));
    lemma_comparison_at(ts, 1, f1, o1);
    lemma_comparison_at(ts, 5, f2, o2);
    lemma_comparison_at(ts, 10, f3, o3);
    assert(and_rest_spec(ts, c1, 4) == Ok::<(ExprV, nat), Seq<char>>((c1, 0nat)));
    assert(parse_and_spec(ts, 1) == Ok::<(ExprV, nat), Seq<char>>((c1, 3nat)));
    assert(and_rest_spec(ts, c2, 8) == Ok::<(ExprV, nat), Seq<char>>((c2, 0nat)));
    assert(parse_and_spec(ts, 5) == Ok::<(ExprV, nat), Seq<char>>((c2, 3nat)));
    assert(or_rest_spec(ts, o12, 8) == Ok::<(ExprV, nat), Seq<char>>((o12, 0nat)));
    assert(or_rest_spec(ts, c1, 4) == Ok::<(ExprV, nat), Seq<char>>((o12, 4nat)));
    assert(parse_or_spec(ts, 1) == Ok::<(ExprV, nat), Seq<char>>((o12, 7nat)));
    assert(parse_primary_spec(ts, 0) == Ok::<(ExprV, nat), Seq<char>>((o12, 9nat)));
    assert(parse_not_spec(ts, 0) == Ok::<(ExprV, nat), Seq<char>>((o12, 9nat)));
    assert(and_rest_spec(ts, top, 13) == Ok::<(ExprV, nat), Seq<char>>((top, 0nat)));
    assert(and_rest_spec(ts, o12, 9) == Ok::<(ExprV, nat), Seq<char>>((top, 4nat)));
    assert(parse_and_spec(ts, 0) == Ok::<(ExprV, nat), Seq<char>>((top, 13nat)));
    assert(or_rest_spec(ts, top, 13) == Ok::<(ExprV, nat), Seq<char>>((top, 0nat)));
}

} // verus!
