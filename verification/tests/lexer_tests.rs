use fruko_bindgen::lexer::{LexError, SourceLocation, Token, TokenList, TokenType, lex_tokens};

const TEST_DATA: &str = "{ name: string, age: u32, height: f32 }";

#[test]
fn test_expected_tokens() {
    let tokens = lex_tokens(String::from(TEST_DATA)).expect("should be able to tokenize");
    let expected_tokens = vec![
        Token {
            token_type: TokenType::LCurly,
            source_location: SourceLocation { line: 1, position: 1 },
        },
        Token {
            token_type: TokenType::Identifier(String::from("name")),
            source_location: SourceLocation { line: 1, position: 3 },
        },
        Token {
            token_type: TokenType::Colon,
            source_location: SourceLocation { line: 1, position: 7 },
        },
        Token {
            token_type: TokenType::String,
            source_location: SourceLocation { line: 1, position: 9 },
        },
        Token {
            token_type: TokenType::Comma,
            source_location: SourceLocation { line: 1, position: 15 },
        },
        Token {
            token_type: TokenType::Identifier(String::from("age")),
            source_location: SourceLocation { line: 1, position: 17 },
        },
        Token {
            token_type: TokenType::Colon,
            source_location: SourceLocation { line: 1, position: 20 },
        },
        Token {
            token_type: TokenType::U32,
            source_location: SourceLocation { line: 1, position: 22 },
        },
        Token {
            token_type: TokenType::Comma,
            source_location: SourceLocation { line: 1, position: 25 },
        },
        Token {
            token_type: TokenType::Identifier(String::from("height")),
            source_location: SourceLocation { line: 1, position: 27 },
        },
        Token {
            token_type: TokenType::Colon,
            source_location: SourceLocation { line: 1, position: 33 },
        },
        Token {
            token_type: TokenType::F32,
            source_location: SourceLocation { line: 1, position: 35 },
        },
        Token {
            token_type: TokenType::RCurly,
            source_location: SourceLocation { line: 1, position: 39 },
        },
    ];

    assert_eq!(tokens.0, expected_tokens);
}

#[test]
fn test_newline_locations() {
    // Lexing "a\nb" puts `a` on line 1 and `b` on line 2, with the position
    // reset to 0 right after the newline (and then advanced past `b`).
    let tokens = lex_tokens(String::from("a\nb")).expect("should be able to tokenize");
    let expected_tokens = vec![
        Token {
            token_type: TokenType::Identifier(String::from("a")),
            source_location: SourceLocation { line: 1, position: 1 },
        },
        Token {
            token_type: TokenType::Identifier(String::from("b")),
            source_location: SourceLocation { line: 2, position: 1 },
        },
    ];
    assert_eq!(tokens.0, expected_tokens);
}

#[test]
fn test_every_keyword() {
    let tokens = lex_tokens(String::from(
        "struct enum u8 u16 u32 u64 i8 i16 i32 i64 f32 f64 string char bool option array other1",
    ))
    .expect("should be able to tokenize");
    let kinds: Vec<TokenType> = tokens.0.into_iter().map(|t| t.token_type).collect();
    assert_eq!(
        kinds,
        vec![
            TokenType::Struct,
            TokenType::Enum,
            TokenType::U8,
            TokenType::U16,
            TokenType::U32,
            TokenType::U64,
            TokenType::I8,
            TokenType::I16,
            TokenType::I32,
            TokenType::I64,
            TokenType::F32,
            TokenType::F64,
            TokenType::String,
            TokenType::Char,
            TokenType::Bool,
            TokenType::Option,
            TokenType::Array,
            TokenType::Identifier(String::from("other1")),
        ]
    );
}

#[test]
fn test_punctuation_tokens() {
    let tokens = lex_tokens(String::from("(){}[],:")).expect("should be able to tokenize");
    let kinds: Vec<TokenType> = tokens.0.into_iter().map(|t| t.token_type).collect();
    assert_eq!(
        kinds,
        vec![
            TokenType::LParen,
            TokenType::RParen,
            TokenType::LCurly,
            TokenType::RCurly,
            TokenType::LSquare,
            TokenType::RSquare,
            TokenType::Comma,
            TokenType::Colon,
        ]
    );
}

#[test]
fn test_unknown_character() {
    // The error names the location just after consuming the offending
    // character: `a`, a space, then `$` at position 3 of line 1.
    let result = lex_tokens(String::from("a $"));
    assert_eq!(
        result,
        Err(LexError::UnknownCharacterError(SourceLocation { line: 1, position: 3 }))
    );
}

#[test]
fn test_empty_input() {
    let tokens = lex_tokens(String::new()).expect("should be able to tokenize");
    assert_eq!(tokens, TokenList(Vec::new()));
}
