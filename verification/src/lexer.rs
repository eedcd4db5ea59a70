//! The tokenizer: from source text to a sequence of positioned tokens.

use vstd::prelude::*;
use crate::error::LexError;
use crate::text::{
    all_digits, char_is_digit, digits_number, from_chars, is_digit, parse_digits, same_text,
    to_chars, unicode_alphabetic, unicode_alphanumeric,
};

verus! {

/// Model of a [`TokenType`].
pub enum TokenKind {
    Integer(i64),
    Text(Seq<char>),
    Identifier(Seq<char>),
    Int,
    StringKeyword,
    Def,
    End,
    If,
    Else,
    Print,
    Class,
    Interface,
    Implements,
    New,
    Void,
    Plus,
    Minus,
    Multiply,
    Divide,
    Assign,
    Equal,
    LeftParen,
    RightParen,
    Arrow,
    Colon,
    Dot,
    Newline,
    Eof,
    InterpolationStart,
    InterpolationEnd,
}

/// Model of a [`Token`].
pub struct Tok {
    pub kind: TokenKind,
    pub line: usize,
    pub column: usize,
}

/// What a token is. `print` and `new` are ordinary identifiers: the
/// variants `Print` and `New` are never produced by the tokenizer.
#[derive(Debug, PartialEq)]
pub enum TokenType {
    Integer(i64),
    String(String),
    Identifier(String),
    Int,
    /// The keyword `String`.
    String_,
    Def,
    End,
    If,
    Else,
    Print,
    Class,
    Interface,
    Implements,
    New,
    Void,
    Plus,
    Minus,
    Multiply,
    Divide,
    Assign,
    Equal,
    LeftParen,
    RightParen,
    /// `->`
    Arrow,
    Colon,
    Dot,
    Newline,
    Eof,
    /// `#{`
    InterpolationStart,
    /// `}`
    InterpolationEnd,
}

/// A token and the place where it starts: line and column, both counted
/// from 1.
#[derive(Debug)]
pub struct Token {
    pub token_type: TokenType,
    pub line: usize,
    pub column: usize,
}

impl View for TokenType {
    type V = TokenKind;

    open spec fn view(&self) -> TokenKind {
        match self {
            TokenType::Integer(n) => TokenKind::Integer(*n),
            TokenType::String(s) => TokenKind::Text(s@),
            TokenType::Identifier(s) => TokenKind::Identifier(s@),
            TokenType::Int => TokenKind::Int,
            TokenType::String_ => TokenKind::StringKeyword,
            TokenType::Def => TokenKind::Def,
            TokenType::End => TokenKind::End,
            TokenType::If => TokenKind::If,
            TokenType::Else => TokenKind::Else,
            TokenType::Print => TokenKind::Print,
            TokenType::Class => TokenKind::Class,
            TokenType::Interface => TokenKind::Interface,
            TokenType::Implements => TokenKind::Implements,
            TokenType::New => TokenKind::New,
            TokenType::Void => TokenKind::Void,
            TokenType::Plus => TokenKind::Plus,
            TokenType::Minus => TokenKind::Minus,
            TokenType::Multiply => TokenKind::Multiply,
            TokenType::Divide => TokenKind::Divide,
            TokenType::Assign => TokenKind::Assign,
            TokenType::Equal => TokenKind::Equal,
            TokenType::LeftParen => TokenKind::LeftParen,
            TokenType::RightParen => TokenKind::RightParen,
            TokenType::Arrow => TokenKind::Arrow,
            TokenType::Colon => TokenKind::Colon,
            TokenType::Dot => TokenKind::Dot,
            TokenType::Newline => TokenKind::Newline,
            TokenType::Eof => TokenKind::Eof,
            TokenType::InterpolationStart => TokenKind::InterpolationStart,
            TokenType::InterpolationEnd => TokenKind::InterpolationEnd,
        }
    }
}

impl TokenKind {
    /// A number that tells the variants apart: two tokens have the same
    /// tag exactly when they are of the same variant, whatever they carry.
    pub open spec fn tag(self) -> int {
        match self {
            TokenKind::Integer(_) => 0,
            TokenKind::Text(_) => 1,
            TokenKind::Identifier(_) => 2,
            TokenKind::Int => 3,
            TokenKind::StringKeyword => 4,
            TokenKind::Def => 5,
            TokenKind::End => 6,
            TokenKind::If => 7,
            TokenKind::Else => 8,
            TokenKind::Print => 9,
            TokenKind::Class => 10,
            TokenKind::Interface => 11,
            TokenKind::Implements => 12,
            TokenKind::New => 13,
            TokenKind::Void => 14,
            TokenKind::Plus => 15,
            TokenKind::Minus => 16,
            TokenKind::Multiply => 17,
            TokenKind::Divide => 18,
            TokenKind::Assign => 19,
            TokenKind::Equal => 20,
            TokenKind::LeftParen => 21,
            TokenKind::RightParen => 22,
            TokenKind::Arrow => 23,
            TokenKind::Colon => 24,
            TokenKind::Dot => 25,
            TokenKind::Newline => 26,
            TokenKind::Eof => 27,
            TokenKind::InterpolationStart => 28,
            TokenKind::InterpolationEnd => 29,
        }
    }
}

impl TokenType {
    /// A number that tells the variants apart.
    pub fn tag(&self) -> (tag: u8)
        ensures
            tag == self@.tag(),
    {
        match self {
            TokenType::Integer(_) => 0,
            TokenType::String(_) => 1,
            TokenType::Identifier(_) => 2,
            TokenType::Int => 3,
            TokenType::String_ => 4,
            TokenType::Def => 5,
            TokenType::End => 6,
            TokenType::If => 7,
            TokenType::Else => 8,
            TokenType::Print => 9,
            TokenType::Class => 10,
            TokenType::Interface => 11,
            TokenType::Implements => 12,
            TokenType::New => 13,
            TokenType::Void => 14,
            TokenType::Plus => 15,
            TokenType::Minus => 16,
            TokenType::Multiply => 17,
            TokenType::Divide => 18,
            TokenType::Assign => 19,
            TokenType::Equal => 20,
            TokenType::LeftParen => 21,
            TokenType::RightParen => 22,
            TokenType::Arrow => 23,
            TokenType::Colon => 24,
            TokenType::Dot => 25,
            TokenType::Newline => 26,
            TokenType::Eof => 27,
            TokenType::InterpolationStart => 28,
            TokenType::InterpolationEnd => 29,
        }
    }
}

impl View for Token {
    type V = Tok;

    open spec fn view(&self) -> Tok {
        Tok { kind: self.token_type@, line: self.line, column: self.column }
    }
}

/// The models of a list of tokens, in order.
pub open spec fn tokens_view(tokens: Seq<Token>) -> Seq<Tok> {
    tokens.map_values(|t: Token| t@)
}

/// What each token of a list is, places dropped.
pub open spec fn token_kinds(tokens: Seq<Token>) -> Seq<TokenKind> {
    tokens.map_values(|t: Token| t.token_type@)
}

impl Clone for TokenType {
    fn clone(&self) -> (out: Self)
        ensures
            out@ == self@,
    {
        match self {
            TokenType::Integer(n) => TokenType::Integer(*n),
            TokenType::String(s) => TokenType::String(s.clone()),
            TokenType::Identifier(s) => TokenType::Identifier(s.clone()),
            TokenType::Int => TokenType::Int,
            TokenType::String_ => TokenType::String_,
            TokenType::Def => TokenType::Def,
            TokenType::End => TokenType::End,
            TokenType::If => TokenType::If,
            TokenType::Else => TokenType::Else,
            TokenType::Print => TokenType::Print,
            TokenType::Class => TokenType::Class,
            TokenType::Interface => TokenType::Interface,
            TokenType::Implements => TokenType::Implements,
            TokenType::New => TokenType::New,
            TokenType::Void => TokenType::Void,
            TokenType::Plus => TokenType::Plus,
            TokenType::Minus => TokenType::Minus,
            TokenType::Multiply => TokenType::Multiply,
            TokenType::Divide => TokenType::Divide,
            TokenType::Assign => TokenType::Assign,
            TokenType::Equal => TokenType::Equal,
            TokenType::LeftParen => TokenType::LeftParen,
            TokenType::RightParen => TokenType::RightParen,
            TokenType::Arrow => TokenType::Arrow,
            TokenType::Colon => TokenType::Colon,
            TokenType::Dot => TokenType::Dot,
            TokenType::Newline => TokenType::Newline,
            TokenType::Eof => TokenType::Eof,
            TokenType::InterpolationStart => TokenType::InterpolationStart,
            TokenType::InterpolationEnd => TokenType::InterpolationEnd,
        }
    }
}

impl Clone for Token {
    fn clone(&self) -> (out: Self)
        ensures
            out@ == self@,
    {
        Token { token_type: self.token_type.clone(), line: self.line, column: self.column }
    }
}

impl Token {
    pub fn new(token_type: TokenType, line: usize, column: usize) -> (token: Self)
        ensures
            token.token_type == token_type,
            token.line == line,
            token.column == column,
    {
        Token { token_type, line, column }
    }
}

/// The next line or column number. The counters stop at the largest
/// `usize` instead of wrapping.
pub open spec fn bump(n: usize) -> usize {
    if n < usize::MAX {
        (n + 1) as usize
    } else {
        n
    }
}

/// A place in the input: how many characters lie before it, and the line
/// and column it is on.
pub struct Cursor {
    pub position: int,
    pub line: usize,
    pub column: usize,
}

impl Cursor {
    /// The start of the input: line 1, column 1.
    pub open spec fn start() -> Cursor {
        Cursor { position: 0, line: 1, column: 1 }
    }

    /// The cursor one character further on the same line.
    pub open spec fn step(self) -> Cursor {
        Cursor { position: self.position + 1, line: self.line, column: bump(self.column) }
    }

    /// The cursor at the start of the next line, at the same position.
    pub open spec fn next_line(self) -> Cursor {
        Cursor { position: self.position, line: bump(self.line), column: 1 }
    }

    /// Whether nothing is left to read.
    pub open spec fn at_end(self, input: Seq<char>) -> bool {
        self.position < 0 || self.position >= input.len()
    }

    /// The character under the cursor, or NUL at the end of the input.
    pub open spec fn peek(self, input: Seq<char>) -> char {
        if self.at_end(input) {
            '\0'
        } else {
            input[self.position]
        }
    }
}

/// Whether `c` is a blank that separates tokens: a space, a tab or a
/// carriage return. A newline is a token of its own.
pub open spec fn is_blank(c: char) -> bool {
    c == ' ' || c == '\t' || c == '\r'
}

/// Whether `c` may start an identifier or a keyword.
pub open spec fn starts_word(c: char) -> bool {
    unicode_alphabetic(c) || c == '_'
}

/// Whether `c` may continue an identifier or a keyword.
pub open spec fn continues_word(c: char) -> bool {
    unicode_alphanumeric(c) || c == '_'
}

/// The cursor after the blanks that it stands on.
pub open spec fn skip_blanks(input: Seq<char>, c: Cursor) -> Cursor
    decreases input.len() - c.position,
{
    if !c.at_end(input) && is_blank(input[c.position]) {
        skip_blanks(input, c.step())
    } else {
        c
    }
}

/// The cursor at the end of the line it is on: on the newline, or at the
/// end of the input.
pub open spec fn skip_comment(input: Seq<char>, c: Cursor) -> Cursor
    decreases input.len() - c.position,
{
    if !c.at_end(input) && input[c.position] != '\n' {
        skip_comment(input, c.step())
    } else {
        c
    }
}

/// The cursor on the quote that closes a string literal whose contents
/// start under `c`, or at the end of the input when nothing closes it. A
/// newline in the literal starts a new line.
pub open spec fn scan_string(input: Seq<char>, c: Cursor) -> Cursor
    decreases input.len() - c.position,
{
    if c.at_end(input) || input[c.position] == '"' {
        c
    } else if input[c.position] == '\n' {
        scan_string(input, c.next_line().step())
    } else {
        scan_string(input, c.step())
    }
}

/// The cursor after the digits that it stands on.
pub open spec fn scan_digits(input: Seq<char>, c: Cursor) -> Cursor
    decreases input.len() - c.position,
{
    if !c.at_end(input) && is_digit(input[c.position]) {
        scan_digits(input, c.step())
    } else {
        c
    }
}

/// The cursor after the word characters that it stands on.
pub open spec fn scan_word(input: Seq<char>, c: Cursor) -> Cursor
    decreases input.len() - c.position,
{
    if !c.at_end(input) && continues_word(input[c.position]) {
        scan_word(input, c.step())
    } else {
        c
    }
}

/// The token that a word is: one of the ten keywords, or an identifier.
pub open spec fn word_kind(word: Seq<char>) -> TokenKind {
    if word == "Int"@ {
        TokenKind::Int
    } else if word == "String"@ {
        TokenKind::StringKeyword
    } else if word == "def"@ {
        TokenKind::Def
    } else if word == "end"@ {
        TokenKind::End
    } else if word == "if"@ {
        TokenKind::If
    } else if word == "else"@ {
        TokenKind::Else
    } else if word == "class"@ {
        TokenKind::Class
    } else if word == "interface"@ {
        TokenKind::Interface
    } else if word == "implements"@ {
        TokenKind::Implements
    } else if word == "void"@ {
        TokenKind::Void
    } else {
        TokenKind::Identifier(word)
    }
}

/// What reading one token gives, and where the cursor is afterwards.
pub struct Scan {
    pub token: Result<Tok, LexError>,
    pub cursor: Cursor,
}

/// A token of kind `kind` that starts at `at`, with the cursor left at
/// `cursor`.
pub open spec fn token_at(kind: TokenKind, at: Cursor, cursor: Cursor) -> Scan {
    Scan { token: Ok(Tok { kind, line: at.line, column: at.column }), cursor }
}

/// Each scanning function leaves the cursor at or after where it found it,
/// and not beyond the end of the input.
pub proof fn lemma_scans_advance(input: Seq<char>, c: Cursor)
    requires
        0 <= c.position <= input.len(),
    ensures
        c.position <= skip_blanks(input, c).position <= input.len(),
        c.position <= skip_comment(input, c).position <= input.len(),
        c.position <= scan_string(input, c).position <= input.len(),
        c.position <= scan_digits(input, c).position <= input.len(),
        c.position <= scan_word(input, c).position <= input.len(),
    decreases input.len() - c.position,
{
    if !c.at_end(input) {
        lemma_scans_advance(input, c.step());
        lemma_scans_advance(input, c.next_line().step());
    }
}

/// The token that starts at or after the cursor, blanks and comments
/// skipped, and the cursor after it. At the end of the input the token is
/// `Eof` and the cursor stays.
pub open spec fn next_token(input: Seq<char>, c: Cursor) -> Scan
    decreases input.len() - c.position,
{
    let at = skip_blanks(input, c);
    if c.position < 0 || at.at_end(input) {
        token_at(TokenKind::Eof, at, at)
    } else {
        let ch = input[at.position];
        let after = at.step();
        if ch == '\n' {
            token_at(TokenKind::Newline, at, after.next_line())
        } else if ch == '+' {
            token_at(TokenKind::Plus, at, after)
        } else if ch == '-' {
            if after.peek(input) == '>' {
                token_at(TokenKind::Arrow, at, after.step())
            } else {
                token_at(TokenKind::Minus, at, after)
            }
        } else if ch == '*' {
            token_at(TokenKind::Multiply, at, after)
        } else if ch == '/' {
            token_at(TokenKind::Divide, at, after)
        } else if ch == '=' {
            if after.peek(input) == '=' {
                token_at(TokenKind::Equal, at, after.step())
            } else {
                token_at(TokenKind::Assign, at, after)
            }
        } else if ch == '(' {
            token_at(TokenKind::LeftParen, at, after)
        } else if ch == ')' {
            token_at(TokenKind::RightParen, at, after)
        } else if ch == ':' {
            token_at(TokenKind::Colon, at, after)
        } else if ch == '.' {
            token_at(TokenKind::Dot, at, after)
        } else if ch == '"' {
            let close = scan_string(input, after);
            if close.at_end(input) {
                Scan {
                    token: Err(LexError::UnterminatedString { line: at.line, column: at.column }),
                    cursor: close,
                }
            } else {
                token_at(
                    TokenKind::Text(input.subrange(after.position, close.position)),
                    at,
                    close.step(),
                )
            }
        } else if ch == '#' {
            if after.peek(input) == '{' {
                token_at(TokenKind::InterpolationStart, at, after.step())
            } else {
                proof {
                    lemma_scans_advance(input, c);
                    lemma_scans_advance(input, after);
                }
                next_token(input, skip_comment(input, after))
            }
        } else if ch == '}' {
            token_at(TokenKind::InterpolationEnd, at, after)
        } else if is_digit(ch) {
            let end = scan_digits(input, after);
            let number = digits_number(input.subrange(at.position, end.position));
            if number <= i64::MAX {
                token_at(TokenKind::Integer(number as i64), at, end)
            } else {
                Scan {
                    token: Err(LexError::InvalidNumber { line: at.line, column: at.column }),
                    cursor: end,
                }
            }
        } else if starts_word(ch) {
            let end = scan_word(input, after);
            token_at(word_kind(input.subrange(at.position, end.position)), at, end)
        } else {
            Scan {
                token: Err(
                    LexError::UnexpectedCharacter {
                        character: ch,
                        line: at.line,
                        column: at.column,
                    },
                ),
                cursor: after,
            }
        }
    }
}

/// Reading a token never moves the cursor back or beyond the end of the
/// input, and moves it forward where anything is left to read.
pub proof fn lemma_token_advances(input: Seq<char>, c: Cursor)
    requires
        0 <= c.position <= input.len(),
    ensures
        c.position <= next_token(input, c).cursor.position <= input.len(),
        c.position < input.len() ==> c.position < next_token(input, c).cursor.position,
    decreases input.len() - c.position,
{
    let at = skip_blanks(input, c);
    lemma_scans_advance(input, c);
    if !at.at_end(input) {
        let after = at.step();
        lemma_scans_advance(input, after);
        if input[at.position] == '#' && after.peek(input) != '{' {
            lemma_token_advances(input, skip_comment(input, after));
        }
    }
}

/// The tokens from the cursor to the end of the input, appended to `acc`
/// and closed by an `Eof` token at the final place; or the first error.
pub open spec fn tokens_from(input: Seq<char>, c: Cursor, acc: Seq<Tok>) -> Result<
    Seq<Tok>,
    LexError,
>
    decreases input.len() - c.position,
{
    if c.at_end(input) {
        Ok(acc.push(Tok { kind: TokenKind::Eof, line: c.line, column: c.column }))
    } else {
        let scan = next_token(input, c);
        proof {
            lemma_token_advances(input, c);
        }
        match scan.token {
            Err(error) => Err(error),
            Ok(token) => tokens_from(input, scan.cursor, acc.push(token)),
        }
    }
}

/// The tokens of a whole source text.
pub open spec fn lex(input: Seq<char>) -> Result<Seq<Tok>, LexError> {
    tokens_from(input, Cursor::start(), Seq::empty())
}

/// The model of what reading one token returns.
pub open spec fn token_result(r: Result<Token, LexError>) -> Result<Tok, LexError> {
    match r {
        Ok(token) => Ok(token@),
        Err(error) => Err(error),
    }
}

/// The model of what tokenizing returns.
pub open spec fn tokens_result(r: Result<Vec<Token>, LexError>) -> Result<Seq<Tok>, LexError> {
    match r {
        Ok(tokens) => Ok(tokens_view(tokens@)),
        Err(error) => Err(error),
    }
}

fn next_number(n: usize) -> (next: usize)
    ensures
        next == bump(n),
{
    if n < usize::MAX {
        n + 1
    } else {
        n
    }
}

fn keyword_or_identifier(word: String) -> (kind: TokenType)
    ensures
        kind@ == word_kind(word@),
{
    let w = word.as_str();
    if same_text(w, "Int") {
        TokenType::Int
    } else if same_text(w, "String") {
        TokenType::String_
    } else if same_text(w, "def") {
        TokenType::Def
    } else if same_text(w, "end") {
        TokenType::End
    } else if same_text(w, "if") {
        TokenType::If
    } else if same_text(w, "else") {
        TokenType::Else
    } else if same_text(w, "class") {
        TokenType::Class
    } else if same_text(w, "interface") {
        TokenType::Interface
    } else if same_text(w, "implements") {
        TokenType::Implements
    } else if same_text(w, "void") {
        TokenType::Void
    } else {
        TokenType::Identifier(word)
    }
}

/// A tokenizer over one source text.
pub struct Lexer {
    input: Vec<char>,
    position: usize,
    line: usize,
    column: usize,
}

impl Lexer {
    #[verifier::type_invariant]
    spec fn in_bounds(self) -> bool {
        self.position <= self.input.len()
    }

    /// The text being tokenized.
    pub closed spec fn source(&self) -> Seq<char> {
        self.input@
    }

    /// Where the tokenizer stands.
    pub closed spec fn cursor(&self) -> Cursor {
        Cursor { position: self.position as int, line: self.line, column: self.column }
    }

    /// A tokenizer at the start of `input`.
    pub fn new(input: &str) -> (lexer: Self)
        ensures
            lexer.source() == input@,
            lexer.cursor() == Cursor::start(),
    {
        Lexer { input: to_chars(input), position: 0, line: 1, column: 1 }
    }

    /// Reads the rest of the input: every token in order, then an `Eof`
    /// token; or the first error.
    pub fn tokenize(&mut self) -> (r: Result<Vec<Token>, LexError>)
        ensures
            tokens_result(r) == tokens_from(old(self).source(), old(self).cursor(), Seq::empty()),
            final(self).source() == old(self).source(),
    {
        let mut tokens: Vec<Token> = Vec::new();
        assert(tokens_view(tokens@) =~= Seq::empty());
        while !self.is_at_end()
            invariant
                self.source() == old(self).source(),
                tokens_from(old(self).source(), old(self).cursor(), Seq::empty()) == tokens_from(
                    self.source(),
                    self.cursor(),
                    tokens_view(tokens@),
                ),
            decreases self.source().len() - self.cursor().position,
        {
            proof {
                use_type_invariant(&*self);
                lemma_token_advances(self.source(), self.cursor());
            }
            let ghost before = tokens_view(tokens@);
            match self.next_token() {
                Err(error) => {
                    return Err(error);
                },
                Ok(token) => {
                    tokens.push(token);
                    assert(tokens_view(tokens@) =~= before.push(token@));
                },
            }
        }
        let ghost before = tokens_view(tokens@);
        let end = Token::new(TokenType::Eof, self.line, self.column);
        tokens.push(end);
        assert(tokens_view(tokens@) =~= before.push(end@));
        Ok(tokens)
    }

    /// Reads one token.
    pub fn next_token(&mut self) -> (r: Result<Token, LexError>)
        ensures
            token_result(r) == next_token(old(self).source(), old(self).cursor()).token,
            final(self).cursor() == next_token(old(self).source(), old(self).cursor()).cursor,
            final(self).source() == old(self).source(),
        decreases old(self).source().len() - old(self).cursor().position,
    {
        proof {
            use_type_invariant(&*self);
            lemma_scans_advance(self.source(), self.cursor());
        }
        self.skip_whitespace_except_newline();
        let line = self.line;
        let column = self.column;
        if self.is_at_end() {
            return Ok(Token::new(TokenType::Eof, line, column));
        }
        let ghost at = self.cursor();
        let start = self.position;
        let ch = self.advance();
        proof {
            use_type_invariant(&*self);
            lemma_scans_advance(self.source(), self.cursor());
        }
        if ch == '\n' {
            self.line = next_number(self.line);
            self.column = 1;
            Ok(Token::new(TokenType::Newline, line, column))
        } else if ch == '+' {
            Ok(Token::new(TokenType::Plus, line, column))
        } else if ch == '-' {
            if self.peek() == '>' {
                self.advance();
                Ok(Token::new(TokenType::Arrow, line, column))
            } else {
                Ok(Token::new(TokenType::Minus, line, column))
            }
        } else if ch == '*' {
            Ok(Token::new(TokenType::Multiply, line, column))
        } else if ch == '/' {
            Ok(Token::new(TokenType::Divide, line, column))
        } else if ch == '=' {
            if self.peek() == '=' {
                self.advance();
                Ok(Token::new(TokenType::Equal, line, column))
            } else {
                Ok(Token::new(TokenType::Assign, line, column))
            }
        } else if ch == '(' {
            Ok(Token::new(TokenType::LeftParen, line, column))
        } else if ch == ')' {
            Ok(Token::new(TokenType::RightParen, line, column))
        } else if ch == ':' {
            Ok(Token::new(TokenType::Colon, line, column))
        } else if ch == '.' {
            Ok(Token::new(TokenType::Dot, line, column))
        } else if ch == '"' {
            self.string_literal(line, column)
        } else if ch == '#' {
            if self.peek() == '{' {
                self.advance();
                Ok(Token::new(TokenType::InterpolationStart, line, column))
            } else {
                self.skip_line();
                self.next_token()
            }
        } else if ch == '}' {
            Ok(Token::new(TokenType::InterpolationEnd, line, column))
        } else if char_is_digit(ch) {
            self.number(start, line, column)
        } else if ch.is_alphabetic() || ch == '_' {
            self.identifier(start, line, column)
        } else {
            Err(LexError::UnexpectedCharacter { character: ch, line, column })
        }
    }

    fn string_literal(&mut self, line: usize, column: usize) -> (r: Result<Token, LexError>)
        ensures
            final(self).source() == old(self).source(),
            ({
                let close = scan_string(old(self).source(), old(self).cursor());
                if close.at_end(old(self).source()) {
                    &&& r == Err::<Token, LexError>(LexError::UnterminatedString { line, column })
                    &&& final(self).cursor() == close
                } else {
                    &&& r matches Ok(token)
                    &&& token@ == (Tok {
                        kind: TokenKind::Text(
                            old(self).source().subrange(
                                old(self).cursor().position,
                                close.position,
                            ),
                        ),
                        line,
                        column,
                    })
                    &&& final(self).cursor() == close.step()
                }
            }),
    {
        let start = self.position;
        while !self.is_at_end() && self.peek() != '"'
            invariant
                self.source() == old(self).source(),
                start == old(self).cursor().position,
                start <= self.cursor().position,
                scan_string(old(self).source(), old(self).cursor()) == scan_string(
                    self.source(),
                    self.cursor(),
                ),
            decreases self.source().len() - self.cursor().position,
        {
            if self.peek() == '\n' {
                self.line = next_number(self.line);
                self.column = 1;
            }
            self.advance();
        }
        if self.is_at_end() {
            return Err(LexError::UnterminatedString { line, column });
        }
        proof {
            use_type_invariant(&*self);
        }
        let value = from_chars(&self.input, start, self.position);
        self.advance();
        Ok(Token::new(TokenType::String(value), line, column))
    }

    fn number(&mut self, start: usize, line: usize, column: usize) -> (r: Result<Token, LexError>)
        requires
            start + 1 == old(self).cursor().position,
            is_digit(old(self).source()[start as int]),
        ensures
            final(self).source() == old(self).source(),
            final(self).cursor() == scan_digits(old(self).source(), old(self).cursor()),
            ({
                let end = scan_digits(old(self).source(), old(self).cursor());
                let value = digits_number(old(self).source().subrange(start as int, end.position));
                if value <= i64::MAX {
                    r matches Ok(token) && token@ == (Tok {
                        kind: TokenKind::Integer(value as i64),
                        line,
                        column,
                    })
                } else {
                    r == Err::<Token, LexError>(LexError::InvalidNumber { line, column })
                }
            }),
    {
        proof {
            use_type_invariant(&*self);
        }
        while char_is_digit(self.peek())
            invariant
                self.source() == old(self).source(),
                start + 1 == old(self).cursor().position,
                start < self.cursor().position <= self.source().len(),
                is_digit(self.source()[start as int]),
                forall|j: int| start < j < self.cursor().position ==> is_digit(self.source()[j]),
                scan_digits(old(self).source(), old(self).cursor()) == scan_digits(
                    self.source(),
                    self.cursor(),
                ),
            decreases self.source().len() - self.cursor().position,
        {
            self.advance();
            proof {
                use_type_invariant(&*self);
            }
        }
        assert(all_digits(self.input@.subrange(start as int, self.position as int)));
        match parse_digits(&self.input, start, self.position) {
            Some(n) => Ok(Token::new(TokenType::Integer(n), line, column)),
            None => Err(LexError::InvalidNumber { line, column }),
        }
    }

    fn identifier(&mut self, start: usize, line: usize, column: usize) -> (r: Result<
        Token,
        LexError,
    >)
        requires
            start + 1 == old(self).cursor().position,
        ensures
            final(self).source() == old(self).source(),
            final(self).cursor() == scan_word(old(self).source(), old(self).cursor()),
            r matches Ok(token) && token@ == (Tok {
                kind: word_kind(
                    old(self).source().subrange(
                        start as int,
                        scan_word(old(self).source(), old(self).cursor()).position,
                    ),
                ),
                line,
                column,
            }),
    {
        proof {
            use_type_invariant(&*self);
        }
        while !self.is_at_end() && (self.peek().is_alphanumeric() || self.peek() == '_')
            invariant
                self.source() == old(self).source(),
                start + 1 == old(self).cursor().position,
                start < self.cursor().position <= self.source().len(),
                scan_word(old(self).source(), old(self).cursor()) == scan_word(
                    self.source(),
                    self.cursor(),
                ),
            decreases self.source().len() - self.cursor().position,
        {
            self.advance();
            proof {
                use_type_invariant(&*self);
            }
        }
        let word = from_chars(&self.input, start, self.position);
        Ok(Token::new(keyword_or_identifier(word), line, column))
    }

    fn skip_whitespace_except_newline(&mut self)
        ensures
            final(self).source() == old(self).source(),
            final(self).cursor() == skip_blanks(old(self).source(), old(self).cursor()),
    {
        while !self.is_at_end() && (self.peek() == ' ' || self.peek() == '\t' || self.peek()
            == '\r')
            invariant
                self.source() == old(self).source(),
                skip_blanks(old(self).source(), old(self).cursor()) == skip_blanks(
                    self.source(),
                    self.cursor(),
                ),
            decreases self.source().len() - self.cursor().position,
        {
            self.advance();
        }
    }

    fn skip_line(&mut self)
        ensures
            final(self).source() == old(self).source(),
            final(self).cursor() == skip_comment(old(self).source(), old(self).cursor()),
    {
        while !self.is_at_end() && self.peek() != '\n'
            invariant
                self.source() == old(self).source(),
                skip_comment(old(self).source(), old(self).cursor()) == skip_comment(
                    self.source(),
                    self.cursor(),
                ),
            decreases self.source().len() - self.cursor().position,
        {
            self.advance();
        }
    }

    fn advance(&mut self) -> (ch: char)
        requires
            !old(self).cursor().at_end(old(self).source()),
        ensures
            final(self).source() == old(self).source(),
            final(self).cursor() == old(self).cursor().step(),
            ch == old(self).source()[old(self).cursor().position],
    {
        assert(self.position < self.input.len());
        let ch = self.input[self.position];
        self.position = self.position + 1;
        self.column = next_number(self.column);
        ch
    }

    fn peek(&self) -> (ch: char)
        ensures
            ch == self.cursor().peek(self.source()),
    {
        if self.is_at_end() {
            '\0'
        } else {
            self.input[self.position]
        }
    }

    fn is_at_end(&self) -> (at_end: bool)
        ensures
            at_end == self.cursor().at_end(self.source()),
    {
        self.position >= self.input.len()
    }
}

} // verus!
