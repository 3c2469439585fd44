//! Lexical analysis: turns data-definition source text into an ordered token
//! stream. Whitespace is skipped, punctuation and keywords become dedicated
//! token kinds, and every other alphanumeric run becomes an identifier.
//! Each token carries the source location recorded just after consuming the
//! character (or the first character of the run) that produced it.

use vstd::prelude::*;

verus! {

/// Lexing is bounded so that the `i32` line and position counters can never
/// overflow: each counter grows by at most one per consumed character.
pub const SOURCE_LENGTH_LIMIT: usize = 0x7fff_0000;

/// Represents a location within a string: which line (1-based), and at what
/// position on that line (0-based, reset to 0 on every newline).
#[derive(Debug, PartialEq, Eq, Clone, Copy, Structural)]
pub struct SourceLocation {
    pub line: i32,
    pub position: i32,
}

/// The mathematical value of a [`SourceLocation`], with unbounded integers.
pub struct SourceLocationV {
    pub line: int,
    pub position: int,
}

impl View for SourceLocation {
    type V = SourceLocationV;

    open spec fn view(&self) -> SourceLocationV {
        SourceLocationV { line: self.line as int, position: self.position as int }
    }
}

impl core::default::Default for SourceLocation {
    /// The location before any character has been consumed: line 1, position 0.
    fn default() -> (r: Self)
        ensures
            r@ == initial_location(),
    {
        SourceLocation { line: 1, position: 0 }
    }
}

/// The location at the very start of a source text.
pub open spec fn initial_location() -> SourceLocationV {
    SourceLocationV { line: 1, position: 0 }
}

/// Our token type.
#[derive(Debug, PartialEq, Eq, Clone)]
pub enum TokenType {
    // Grammar
    LParen,
    RParen,
    LCurly,
    RCurly,
    LSquare,
    RSquare,
    Comma,
    Colon,
    // keywords
    Struct,
    Enum,
    // type keywords
    U8,
    U16,
    U32,
    U64,
    I8,
    I16,
    I32,
    I64,
    F32,
    F64,
    String,
    Char,
    Bool,
    Option,
    Array,
    // Generic string identifier
    Identifier(String),
}

/// The mathematical value of a [`TokenType`]: identical, except that an
/// identifier's text is a sequence of characters.
pub enum TokenTypeV {
    LParen,
    RParen,
    LCurly,
    RCurly,
    LSquare,
    RSquare,
    Comma,
    Colon,
    Struct,
    Enum,
    U8,
    U16,
    U32,
    U64,
    I8,
    I16,
    I32,
    I64,
    F32,
    F64,
    String,
    Char,
    Bool,
    Option,
    Array,
    Identifier(Seq<char>),
}

impl View for TokenType {
    type V = TokenTypeV;

    open spec fn view(&self) -> TokenTypeV {
        match self {
            TokenType::LParen => TokenTypeV::LParen,
            TokenType::RParen => TokenTypeV::RParen,
            TokenType::LCurly => TokenTypeV::LCurly,
            TokenType::RCurly => TokenTypeV::RCurly,
            TokenType::LSquare => TokenTypeV::LSquare,
            TokenType::RSquare => TokenTypeV::RSquare,
            TokenType::Comma => TokenTypeV::Comma,
            TokenType::Colon => TokenTypeV::Colon,
            TokenType::Struct => TokenTypeV::Struct,
            TokenType::Enum => TokenTypeV::Enum,
            TokenType::U8 => TokenTypeV::U8,
            TokenType::U16 => TokenTypeV::U16,
            TokenType::U32 => TokenTypeV::U32,
            TokenType::U64 => TokenTypeV::U64,
            TokenType::I8 => TokenTypeV::I8,
            TokenType::I16 => TokenTypeV::I16,
            TokenType::I32 => TokenTypeV::I32,
            TokenType::I64 => TokenTypeV::I64,
            TokenType::F32 => TokenTypeV::F32,
            TokenType::F64 => TokenTypeV::F64,
            TokenType::String => TokenTypeV::String,
            TokenType::Char => TokenTypeV::Char,
            TokenType::Bool => TokenTypeV::Bool,
            TokenType::Option => TokenTypeV::Option,
            TokenType::Array => TokenTypeV::Array,
            TokenType::Identifier(name) => TokenTypeV::Identifier(name@),
        }
    }
}

/// A token: its kind plus the source location it was produced at.
#[derive(Debug, PartialEq, Eq, Clone)]
pub struct Token {
    pub token_type: TokenType,
    pub source_location: SourceLocation,
}

/// The mathematical value of a [`Token`].
pub struct TokenV {
    pub token_type: TokenTypeV,
    pub source_location: SourceLocationV,
}

impl View for Token {
    type V = TokenV;

    open spec fn view(&self) -> TokenV {
        TokenV { token_type: self.token_type@, source_location: self.source_location@ }
    }
}

/// Simple error type.
#[derive(Debug, PartialEq, Eq)]
pub enum LexError {
    UnknownCharacterError(SourceLocation),
}

/// The mathematical value of a [`LexError`].
pub enum LexErrorV {
    UnknownCharacterError(SourceLocationV),
}

impl View for LexError {
    type V = LexErrorV;

    open spec fn view(&self) -> LexErrorV {
        match self {
            LexError::UnknownCharacterError(loc) => LexErrorV::UnknownCharacterError(loc@),
        }
    }
}

/// The ordered token stream produced by one whole lex.
#[derive(Debug, PartialEq, Eq)]
pub struct TokenList(pub Vec<Token>);

impl View for TokenList {
    type V = Seq<TokenV>;

    open spec fn view(&self) -> Seq<TokenV> {
        tokens_view(self.0@)
    }
}

/// The views of a sequence of tokens, element by element.
pub open spec fn tokens_view(ts: Seq<Token>) -> Seq<TokenV> {
    ts.map_values(|t: Token| t@)
}

/// What `char::is_whitespace` returns for a character.
pub uninterp spec fn is_whitespace(c: char) -> bool;

/// Relies on `char::is_whitespace`: whether the character has the Unicode
/// `White_Space` property. The result depends on the character alone.
#[verifier::external_body]
fn char_is_whitespace(c: char) -> (r: bool)
    ensures
        r == is_whitespace(c),
{
    c.is_whitespace()
}

/// What `char::is_alphanumeric` returns for a character.
pub uninterp spec fn is_alphanumeric(c: char) -> bool;

/// Relies on `char::is_alphanumeric`: whether the character is Unicode
/// alphabetic or a numeric digit. The result depends on the character alone.
#[verifier::external_body]
fn char_is_alphanumeric(c: char) -> (r: bool)
    ensures
        r == is_alphanumeric(c),
{
    c.is_alphanumeric()
}

/// Relies on `String::push`: appends the given character to the end of the
/// string.
#[verifier::external_body]
fn push_char(s: &mut String, c: char)
    ensures
        final(s)@ == old(s)@.push(c),
{
    s.push(c);
}

/// Character-by-character string equality, proved against the string views.
pub(crate) fn str_eq(a: &str, b: &str) -> (r: bool)
    ensures
        r == (a@ == b@),
{
    let la = a.unicode_len();
    let lb = b.unicode_len();
    if la != lb {
        return false;
    }
    let mut i: usize = 0;
    while i < la
        invariant
            la == a@.len(),
            lb == b@.len(),
            la == lb,
            i <= la,
            forall|k: int| 0 <= k < i ==> a@[k] == b@[k],
        decreases la - i,
    {
        if a.get_char(i) != b.get_char(i) {
            return false;
        }
        i = i + 1;
    }
    proof {
        assert(a@ =~= b@);
    }
    true
}

/// How consuming one character moves the source location: a newline starts the
/// next line at position 0, anything else advances the position by one.
pub open spec fn advance_location(loc: SourceLocationV, c: char) -> SourceLocationV {
    if c == '\n' {
        SourceLocationV { line: loc.line + 1, position: 0 }
    } else {
        SourceLocationV { line: loc.line, position: loc.position + 1 }
    }
}

/// The source location after consuming a whole sequence of characters.
pub open spec fn advance_location_over(loc: SourceLocationV, s: Seq<char>) -> SourceLocationV
    decreases s.len(),
{
    if s.len() == 0 {
        loc
    } else {
        advance_location_over(advance_location(loc, s[0]), s.subrange(1, s.len() as int))
    }
}

/// The length of the maximal run of alphanumeric characters of `s` that starts
/// at index `i`.
pub open spec fn name_run_len(s: Seq<char>, i: int) -> int
    decreases s.len() - i,
{
    if i < 0 || i >= s.len() || !is_alphanumeric(s[i]) {
        0
    } else {
        1 + name_run_len(s, i + 1)
    }
}

/// A maximal alphanumeric run is never longer than the rest of the text.
proof fn lemma_name_run_len_bounds(s: Seq<char>, i: int)
    requires
        0 <= i <= s.len(),
    ensures
        0 <= name_run_len(s, i) <= s.len() - i,
    decreases s.len() - i,
{
    if i < s.len() && is_alphanumeric(s[i]) {
        lemma_name_run_len_bounds(s, i + 1);
    }
}

/// The token kind of a lexed name: one of the fixed keywords, or an identifier
/// carrying the name itself.
pub open spec fn keyword_or_identifier(name: Seq<char>) -> TokenTypeV {
    if name == "struct"@ {
        TokenTypeV::Struct
    } else if name == "enum"@ {
        TokenTypeV::Enum
    } else if name == "u8"@ {
        TokenTypeV::U8
    } else if name == "u16"@ {
        TokenTypeV::U16
    } else if name == "u32"@ {
        TokenTypeV::U32
    } else if name == "u64"@ {
        TokenTypeV::U64
    } else if name == "i8"@ {
        TokenTypeV::I8
    } else if name == "i16"@ {
        TokenTypeV::I16
    } else if name == "i32"@ {
        TokenTypeV::I32
    } else if name == "i64"@ {
        TokenTypeV::I64
    } else if name == "f32"@ {
        TokenTypeV::F32
    } else if name == "f64"@ {
        TokenTypeV::F64
    } else if name == "string"@ {
        TokenTypeV::String
    } else if name == "char"@ {
        TokenTypeV::Char
    } else if name == "bool"@ {
        TokenTypeV::Bool
    } else if name == "option"@ {
        TokenTypeV::Option
    } else if name == "array"@ {
        TokenTypeV::Array
    } else {
        TokenTypeV::Identifier(name)
    }
}

/// The token kind of a single punctuation character, if it is one.
pub open spec fn punctuation_token(c: char) -> Option<TokenTypeV> {
    if c == '(' {
        Some(TokenTypeV::LParen)
    } else if c == '{' {
        Some(TokenTypeV::LCurly)
    } else if c == '[' {
        Some(TokenTypeV::LSquare)
    } else if c == ')' {
        Some(TokenTypeV::RParen)
    } else if c == '}' {
        Some(TokenTypeV::RCurly)
    } else if c == ']' {
        Some(TokenTypeV::RSquare)
    } else if c == ',' {
        Some(TokenTypeV::Comma)
    } else if c == ':' {
        Some(TokenTypeV::Colon)
    } else {
        None
    }
}

/// Puts one token in front of the outcome of lexing the rest of the text.
pub open spec fn prepend_token(t: TokenV, r: Result<Seq<TokenV>, LexErrorV>) -> Result<
    Seq<TokenV>,
    LexErrorV,
> {
    match r {
        Ok(rest) => Ok(seq![t] + rest),
        Err(e) => Err(e),
    }
}

/// Puts finished tokens in front of the outcome of lexing the rest of the
/// text.
pub open spec fn prepend_tokens(ts: Seq<TokenV>, r: Result<Seq<TokenV>, LexErrorV>) -> Result<
    Seq<TokenV>,
    LexErrorV,
> {
    match r {
        Ok(rest) => Ok(ts + rest),
        Err(e) => Err(e),
    }
}

/// The outcome of lexing `s` from index `i` onward, having already reached
/// source location `loc`. This is the defining description of the lexer:
/// whitespace is skipped, punctuation becomes its token, an alphanumeric
/// character starts a maximal alphanumeric run that becomes a keyword or
/// identifier token, and any other character is an error at the location
/// just after it. A token's location is the one reached after consuming its
/// first character.
pub open spec fn spec_lex_from(s: Seq<char>, i: int, loc: SourceLocationV) -> Result<
    Seq<TokenV>,
    LexErrorV,
>
    decreases s.len() - i,
    via spec_lex_from_decreases
{
    if i < 0 || i >= s.len() {
        Ok(Seq::empty())
    } else {
        let c = s[i];
        let loc1 = advance_location(loc, c);
        if is_whitespace(c) {
            spec_lex_from(s, i + 1, loc1)
        } else if punctuation_token(c) is Some {
            prepend_token(
                TokenV { token_type: punctuation_token(c)->0, source_location: loc1 },
                spec_lex_from(s, i + 1, loc1),
            )
        } else if is_alphanumeric(c) {
            let n = name_run_len(s, i + 1);
            let name = s.subrange(i, i + 1 + n);
            let loc2 = advance_location_over(loc1, s.subrange(i + 1, i + 1 + n));
            prepend_token(
                TokenV { token_type: keyword_or_identifier(name), source_location: loc1 },
                spec_lex_from(s, i + 1 + n, loc2),
            )
        } else {
            Err(LexErrorV::UnknownCharacterError(loc1))
        }
    }
}

#[via_fn]
proof fn spec_lex_from_decreases(s: Seq<char>, i: int, loc: SourceLocationV) {
    if 0 <= i < s.len() {
        lemma_name_run_len_bounds(s, i + 1);
    }
}

/// The outcome of lexing a whole source text.
pub open spec fn spec_lex(s: Seq<char>) -> Result<Seq<TokenV>, LexErrorV> {
    spec_lex_from(s, 0, initial_location())
}

/// The view of a lexer result, for stating what [`lex_tokens`] returns.
pub open spec fn lex_result_view(r: Result<TokenList, LexError>) -> Result<
    Seq<TokenV>,
    LexErrorV,
> {
    match r {
        Ok(tl) => Ok(tl@),
        Err(e) => Err(e@),
    }
}

/// Transforms a string into a list of Tokens.
/// This is intended to make parsing much easier.
/// Whitespace is disregarded and discarded, and so has no effect on the tokens.
/// # Arguments
/// `contents` - The string to extract tokens from
/// # Returns
/// Ok(TokenList) if the string is lexed without error,
/// Err(UnknownCharacterError) if an unknown character is encountered.
pub fn lex_tokens(contents: String) -> (r: Result<TokenList, LexError>)
    requires
        contents@.len() <= SOURCE_LENGTH_LIMIT,
    ensures
        lex_result_view(r) == spec_lex(contents@),
{
    let mut lexer = Lexer::new(contents.as_str());
    lexer.lex_impl()
}

/// Helper struct to allow for tracking the source location of tokens.
pub struct Lexer {
    source_location: SourceLocation,
    chars: Vec<char>,
    index: usize,
}

impl Lexer {
    /// The characters of the source text being lexed.
    pub closed spec fn source(&self) -> Seq<char> {
        self.chars@
    }

    /// How many characters have been consumed so far.
    pub closed spec fn position(&self) -> int {
        self.index as int
    }

    /// The source location reached so far.
    pub closed spec fn location(&self) -> SourceLocationV {
        self.source_location@
    }

    /// The lexer's invariant: the index stays within the (bounded) source, and
    /// the recorded source location is exactly the one reached by consuming
    /// every character before the index.
    pub closed spec fn wf(&self) -> bool {
        &&& self.index <= self.chars@.len()
        &&& self.chars@.len() <= SOURCE_LENGTH_LIMIT
        &&& self.source_location@ == advance_location_over(
            initial_location(),
            self.chars@.subrange(0, self.index as int),
        )
    }

    /// A fresh lexer over the given source text, at its start.
    pub fn new(contents: &str) -> (lexer: Lexer)
        requires
            contents@.len() <= SOURCE_LENGTH_LIMIT,
        ensures
            lexer.wf(),
            lexer.source() == contents@,
            lexer.position() == 0,
            lexer.location() == initial_location(),
    {
        let n = contents.unicode_len();
        let mut chars: Vec<char> = Vec::new();
        let mut i: usize = 0;
        while i < n
            invariant
                n == contents@.len(),
                i <= n,
                chars@ =~= contents@.subrange(0, i as int),
            decreases n - i,
        {
            chars.push(contents.get_char(i));
            i = i + 1;
        }
        proof {
            assert(chars@ =~= contents@);
        }
        let lexer = Lexer { source_location: SourceLocation { line: 1, position: 0 }, chars, index: 0 };
        proof {
            assert(lexer.chars@.subrange(0, 0) =~= Seq::<char>::empty());
        }
        lexer
    }

    /// Does the actual lexing.
    pub fn lex_impl(&mut self) -> (r: Result<TokenList, LexError>)
        requires
            old(self).wf(),
        ensures
            final(self).wf(),
            lex_result_view(r) == spec_lex_from(
                old(self).source(),
                old(self).position(),
                old(self).location(),
            ),
    {
        let mut tokens: Vec<Token> = Vec::new();
        loop
            invariant
                self.wf(),
                self.source() == old(self).source(),
                prepend_tokens(
                    tokens_view(tokens@),
                    spec_lex_from(self.source(), self.position(), self.location()),
                ) == spec_lex_from(old(self).source(), old(self).position(), old(self).location()),
            ensures
                self.wf(),
                self.source() == old(self).source(),
                self.position() == self.source().len(),
                prepend_tokens(
                    tokens_view(tokens@),
                    spec_lex_from(self.source(), self.position(), self.location()),
                ) == spec_lex_from(old(self).source(), old(self).position(), old(self).location()),
            decreases self.source().len() - self.position(),
        {
            let ghost prev = *self;
            let ghost prev_tokens = tokens@;
            if self.peek().is_none() {
                break ;
            }
            let c = self.next().unwrap();
            let ghost i = prev.position();
            let ghost loc1 = advance_location(prev.location(), c);

            if char_is_whitespace(c) {
                proof {
                    assert(spec_lex_from(prev.source(), i, prev.location()) == spec_lex_from(
                        self.source(),
                        self.position(),
                        self.location(),
                    ));
                }
                continue ;
            }
            let source_location = self.source_location;

            let token = if c == '(' {
                Token { token_type: TokenType::LParen, source_location }
            } else if c == '{' {
                Token { token_type: TokenType::LCurly, source_location }
            } else if c == '[' {
                Token { token_type: TokenType::LSquare, source_location }
            } else if c == ')' {
                Token { token_type: TokenType::RParen, source_location }
            } else if c == '}' {
                Token { token_type: TokenType::RCurly, source_location }
            } else if c == ']' {
                Token { token_type: TokenType::RSquare, source_location }
            } else if c == ',' {
                Token { token_type: TokenType::Comma, source_location }
            } else if c == ':' {
                Token { token_type: TokenType::Colon, source_location }
            } else if char_is_alphanumeric(c) {
                let t = self.lex_name(c);
                proof {
                    let src = prev.source();
                    let n = name_run_len(src, i + 1);
                    lemma_name_run_len_bounds(src, i + 1);
                    assert(seq![c] + src.subrange(i + 1, i + 1 + n) =~= src.subrange(
                        i,
                        i + 1 + n,
                    ));
                }
                t
            } else {
                proof {
                    assert(spec_lex_from(prev.source(), i, prev.location())
                        == Err::<Seq<TokenV>, LexErrorV>(LexErrorV::UnknownCharacterError(loc1)));
                }
                return Err(LexError::UnknownCharacterError(source_location));
            };
            tokens.push(token);
            proof {
                lemma_tokens_view_push(prev_tokens, token);
                lemma_prepend_assoc(
                    tokens_view(prev_tokens),
                    token@,
                    spec_lex_from(self.source(), self.position(), self.location()),
                );
                assert(spec_lex_from(prev.source(), i, prev.location()) == prepend_token(
                    token@,
                    spec_lex_from(self.source(), self.position(), self.location()),
                ));
            }
        }
        proof {
            assert(tokens_view(tokens@) + Seq::<TokenV>::empty() =~= tokens_view(tokens@));
        }
        Ok(TokenList(tokens))
    }

    /// Lexes a name, being any of a struct, enum, or named identifier. The
    /// first character of the name has already been consumed and is passed in
    /// as `start_char`; the token's location is the one reached just after it.
    fn lex_name(&mut self, start_char: char) -> (t: Token)
        requires
            old(self).wf(),
        ensures
            final(self).wf(),
            final(self).source() == old(self).source(),
            ({
                let src = old(self).source();
                let p = old(self).position();
                let n = name_run_len(src, p);
                &&& final(self).position() == p + n
                &&& final(self).location() == advance_location_over(
                    old(self).location(),
                    src.subrange(p, p + n),
                )
                &&& t@ == (TokenV {
                    token_type: keyword_or_identifier(seq![start_char] + src.subrange(p, p + n)),
                    source_location: old(self).location(),
                })
            }),
    {
        let mut name = String::new();
        push_char(&mut name, start_char);
        let source_location = self.source_location;
        proof {
            let p = old(self).position();
            assert(self.source().subrange(p, p) =~= Seq::<char>::empty());
            assert(name@ =~= seq![start_char] + self.source().subrange(p, p));
        }
        loop
            invariant
                self.wf(),
                self.source() == old(self).source(),
                old(self).position() <= self.position() <= self.source().len(),
                name@ == seq![start_char] + self.source().subrange(
                    old(self).position(),
                    self.position(),
                ),
                forall|k: int|
                    old(self).position() <= k < self.position() ==> is_alphanumeric(
                        self.source()[k],
                    ),
                self.location() == advance_location_over(
                    old(self).location(),
                    self.source().subrange(old(self).position(), self.position()),
                ),
            ensures
                self.wf(),
                self.source() == old(self).source(),
                old(self).position() <= self.position() <= self.source().len(),
                name@ == seq![start_char] + self.source().subrange(
                    old(self).position(),
                    self.position(),
                ),
                forall|k: int|
                    old(self).position() <= k < self.position() ==> is_alphanumeric(
                        self.source()[k],
                    ),
                self.location() == advance_location_over(
                    old(self).location(),
                    self.source().subrange(old(self).position(), self.position()),
                ),
                self.position() == self.source().len() || !is_alphanumeric(
                    self.source()[self.position()],
                ),
            decreases self.source().len() - self.position(),
        {
            let ghost prev = *self;
            let keep = match self.peek() {
                Some(c2) => char_is_alphanumeric(c2),
                None => false,
            };
            if !keep {
                break ;
            }
            let c2 = self.next().unwrap();
            push_char(&mut name, c2);
            proof {
                let p = old(self).position();
                let q = prev.position();
                assert(self.source().subrange(p, q + 1) =~= self.source().subrange(p, q).push(
                    c2,
                ));
                assert(name@ =~= seq![start_char] + self.source().subrange(p, q + 1));
                lemma_advance_location_over_snoc(
                    old(self).location(),
                    self.source().subrange(p, q),
                    c2,
                );
            }
        }
        proof {
            lemma_name_run_len_chars(
                self.source(),
                old(self).position(),
                self.position(),
            );
        }
        let token_type = if str_eq(name.as_str(), "struct") {
            TokenType::Struct
        } else if str_eq(name.as_str(), "enum") {
            TokenType::Enum
        } else if str_eq(name.as_str(), "u8") {
            TokenType::U8
        } else if str_eq(name.as_str(), "u16") {
            TokenType::U16
        } else if str_eq(name.as_str(), "u32") {
            TokenType::U32
        } else if str_eq(name.as_str(), "u64") {
            TokenType::U64
        } else if str_eq(name.as_str(), "i8") {
            TokenType::I8
        } else if str_eq(name.as_str(), "i16") {
            TokenType::I16
        } else if str_eq(name.as_str(), "i32") {
            TokenType::I32
        } else if str_eq(name.as_str(), "i64") {
            TokenType::I64
        } else if str_eq(name.as_str(), "f32") {
            TokenType::F32
        } else if str_eq(name.as_str(), "f64") {
            TokenType::F64
        } else if str_eq(name.as_str(), "string") {
            TokenType::String
        } else if str_eq(name.as_str(), "char") {
            TokenType::Char
        } else if str_eq(name.as_str(), "bool") {
            TokenType::Bool
        } else if str_eq(name.as_str(), "option") {
            TokenType::Option
        } else if str_eq(name.as_str(), "array") {
            TokenType::Array
        } else {
            TokenType::Identifier(name)
        };
        Token { token_type, source_location }
    }

    /// The next character, if any, without consuming it.
    fn peek(&self) -> (r: Option<char>)
        ensures
            r == (if self.position() < self.source().len() {
                Some(self.source()[self.position()])
            } else {
                Option::<char>::None
            }),
    {
        if self.index < self.chars.len() {
            Some(self.chars[self.index])
        } else {
            None
        }
    }

    /// Consumes one character, keeping the source location in step with it.
    fn next(&mut self) -> (r: Option<char>)
        requires
            old(self).wf(),
        ensures
            final(self).wf(),
            final(self).source() == old(self).source(),
            if old(self).position() < old(self).source().len() {
                let c = old(self).source()[old(self).position()];
                &&& r == Some(c)
                &&& final(self).position() == old(self).position() + 1
                &&& final(self).location() == advance_location(old(self).location(), c)
            } else {
                &&& r == Option::<char>::None
                &&& *final(self) == *old(self)
            },
    {
        if self.index < self.chars.len() {
            let c = self.chars[self.index];
            proof {
                lemma_location_bounds(self.chars@.subrange(0, self.index as int));
                lemma_advance_location_over_snoc(
                    initial_location(),
                    self.chars@.subrange(0, self.index as int),
                    c,
                );
                assert(self.chars@.subrange(0, self.index as int).push(c) =~= self.chars@.subrange(
                    0,
                    self.index as int + 1,
                ));
            }
            self.index = self.index + 1;
            self.source_location.position = self.source_location.position + 1;
            if c == '\n' {
                self.source_location.line = self.source_location.line + 1;
                self.source_location.position = 0;
            }
            Some(c)
        } else {
            None
        }
    }
}

/// If everything from `p` up to `q` is alphanumeric and the run stops at `q`,
/// then the maximal alphanumeric run starting at `p` ends exactly at `q`.
proof fn lemma_name_run_len_chars(s: Seq<char>, p: int, q: int)
    requires
        0 <= p <= q <= s.len(),
        forall|k: int| p <= k < q ==> is_alphanumeric(s[k]),
        q == s.len() || !is_alphanumeric(s[q]),
    ensures
        name_run_len(s, p) == q - p,
    decreases q - p,
{
    if p < q {
        lemma_name_run_len_chars(s, p + 1, q);
    }
}

/// Moving one token from the front of the remaining outcome to the back of
/// the finished tokens.
proof fn lemma_prepend_assoc(ts: Seq<TokenV>, t: TokenV, r: Result<Seq<TokenV>, LexErrorV>)
    ensures
        prepend_tokens(ts, prepend_token(t, r)) == prepend_tokens(ts.push(t), r),
{
    match r {
        Ok(rest) => {
            assert(ts + (seq![t] + rest) =~= ts.push(t) + rest);
        },
        Err(_) => {},
    }
}

/// Token views are taken element by element.
proof fn lemma_tokens_view_push(ts: Seq<Token>, t: Token)
    ensures
        tokens_view(ts.push(t)) == tokens_view(ts).push(t@),
{
    assert(tokens_view(ts.push(t)) =~= tokens_view(ts).push(t@));
}

/// Consuming one more character after a run reaches the same location as
/// consuming the whole extended run.
proof fn lemma_advance_location_over_snoc(loc: SourceLocationV, s: Seq<char>, c: char)
    ensures
        advance_location_over(loc, s.push(c)) == advance_location(advance_location_over(loc, s), c),
    decreases s.len(),
{
    if s.len() == 0 {
        assert(s.push(c).subrange(1, s.push(c).len() as int) =~= Seq::<char>::empty());
        assert(s.push(c)[0] == c);
        assert(advance_location_over(loc, s.push(c)) == advance_location_over(
            advance_location(loc, c),
            Seq::<char>::empty(),
        ));
        assert(advance_location_over(loc, s) == loc);
    } else {
        assert(s.push(c).subrange(1, s.push(c).len() as int) =~= s.subrange(
            1,
            s.len() as int,
        ).push(c));
        assert(s.push(c)[0] == s[0]);
        lemma_advance_location_over_snoc(
            advance_location(loc, s[0]),
            s.subrange(1, s.len() as int),
            c,
        );
        assert(advance_location_over(loc, s) == advance_location_over(
            advance_location(loc, s[0]),
            s.subrange(1, s.len() as int),
        ));
    }
}

/// Starting from the initial location, the line never exceeds one more than
/// the number of consumed characters, and the position never exceeds it.
proof fn lemma_location_bounds(s: Seq<char>)
    ensures
        1 <= advance_location_over(initial_location(), s).line <= 1 + s.len(),
        0 <= advance_location_over(initial_location(), s).position <= s.len(),
    decreases s.len(),
{
    lemma_location_bounds_from(initial_location(), s);
}

/// Bounds on how far a run of characters can move any location.
proof fn lemma_location_bounds_from(loc: SourceLocationV, s: Seq<char>)
    requires
        loc.position >= 0,
    ensures
        loc.line <= advance_location_over(loc, s).line <= loc.line + s.len(),
        0 <= advance_location_over(loc, s).position <= loc.position + s.len(),
    decreases s.len(),
{
    if s.len() > 0 {
        lemma_location_bounds_from(advance_location(loc, s[0]), s.subrange(1, s.len() as int));
    }
}

} // verus!
