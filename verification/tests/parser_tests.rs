use fruko_bindgen::lexer::lex_tokens;
use fruko_bindgen::parser::{
    ASTNode, DataDefinition, DataType, EnumMemberDeclaration, NamedStatementList, ParseError,
    StructMemberDeclaration, parse_tokens,
};

const TEXT: &str = "struct name { member1: u32, member2: option(f32) }";

#[test]
fn test_correctly_parses_ast() {
    let tokens = lex_tokens(String::from(TEXT)).expect("should be able to lex");

    let ast_start = parse_tokens(tokens).expect("should be able to parse");
    let expected_ast = ASTNode::DataDefinition(DataDefinition {
        child_nodes: vec![ASTNode::StructDeclaration(NamedStatementList {
            name: String::from("name"),
            child_nodes: vec![
                ASTNode::StructMemberDeclaration(StructMemberDeclaration {
                    name: String::from("member1"),
                    data_type: Box::new(ASTNode::TypeLiteral(DataType::U32)),
                }),
                ASTNode::StructMemberDeclaration(StructMemberDeclaration {
                    name: String::from("member2"),
                    data_type: Box::new(ASTNode::TypeLiteral(DataType::Option(Box::new(
                        DataType::F32,
                    )))),
                }),
            ],
        })],
    });

    assert_eq!(ast_start, expected_ast);
}

#[test]
fn test_parses_enum_members() {
    let tokens =
        lex_tokens(String::from("enum colour { red, green, blue }")).expect("should be able to lex");
    let ast = parse_tokens(tokens).expect("should be able to parse");
    let expected = ASTNode::DataDefinition(DataDefinition {
        child_nodes: vec![ASTNode::EnumDeclaration(NamedStatementList {
            name: String::from("colour"),
            child_nodes: vec![
                ASTNode::EnumMemberDeclaration(EnumMemberDeclaration { name: String::from("red") }),
                ASTNode::EnumMemberDeclaration(EnumMemberDeclaration {
                    name: String::from("green"),
                }),
                ASTNode::EnumMemberDeclaration(EnumMemberDeclaration {
                    name: String::from("blue"),
                }),
            ],
        })],
    });
    assert_eq!(ast, expected);
}

#[test]
fn test_parses_nested_containers() {
    // `array` wraps the recursively parsed inner type in `DataType::Array`.
    let tokens = lex_tokens(String::from("struct s { m: array(option(u8)) }"))
        .expect("should be able to lex");
    let ast = parse_tokens(tokens).expect("should be able to parse");
    let expected = ASTNode::DataDefinition(DataDefinition {
        child_nodes: vec![ASTNode::StructDeclaration(NamedStatementList {
            name: String::from("s"),
            child_nodes: vec![ASTNode::StructMemberDeclaration(StructMemberDeclaration {
                name: String::from("m"),
                data_type: Box::new(ASTNode::TypeLiteral(DataType::Array(Box::new(
                    DataType::Option(Box::new(DataType::U8)),
                )))),
            })],
        })],
    });
    assert_eq!(ast, expected);
}

#[test]
fn test_parses_inline_struct() {
    let tokens = lex_tokens(String::from("struct outer { inner1: struct inner { a: bool } }"))
        .expect("should be able to lex");
    let ast = parse_tokens(tokens).expect("should be able to parse");
    let expected = ASTNode::DataDefinition(DataDefinition {
        child_nodes: vec![ASTNode::StructDeclaration(NamedStatementList {
            name: String::from("outer"),
            child_nodes: vec![ASTNode::StructMemberDeclaration(StructMemberDeclaration {
                name: String::from("inner1"),
                data_type: Box::new(ASTNode::StructDeclaration(NamedStatementList {
                    name: String::from("inner"),
                    child_nodes: vec![ASTNode::StructMemberDeclaration(StructMemberDeclaration {
                        name: String::from("a"),
                        data_type: Box::new(ASTNode::TypeLiteral(DataType::Bool)),
                    })],
                })),
            })],
        })],
    });
    assert_eq!(ast, expected);
}

#[test]
fn test_user_defined_type_is_carried_through() {
    let tokens =
        lex_tokens(String::from("struct s { m: something }")).expect("should be able to lex");
    let ast = parse_tokens(tokens).expect("should be able to parse");
    let expected = ASTNode::DataDefinition(DataDefinition {
        child_nodes: vec![ASTNode::StructDeclaration(NamedStatementList {
            name: String::from("s"),
            child_nodes: vec![ASTNode::StructMemberDeclaration(StructMemberDeclaration {
                name: String::from("m"),
                data_type: Box::new(ASTNode::TypeLiteral(DataType::UserDefined(String::from(
                    "something",
                )))),
            })],
        })],
    });
    assert_eq!(ast, expected);
}

#[test]
fn test_unexpected_token() {
    // A declaration must start with `struct` or `enum`; a name must follow.
    let tokens = lex_tokens(String::from("struct { }")).expect("should be able to lex");
    let result = parse_tokens(tokens);
    assert!(matches!(result, Err(ParseError::UnexpectedToken)));
}

#[test]
fn test_unexpected_end_of_tokens() {
    let tokens = lex_tokens(String::from("struct name {")).expect("should be able to lex");
    let result = parse_tokens(tokens);
    assert!(matches!(result, Err(ParseError::UnexpectedEndOfTokens)));
}

#[test]
fn test_empty_input_parses_to_empty_definition() {
    let tokens = lex_tokens(String::new()).expect("should be able to lex");
    let ast = parse_tokens(tokens).expect("should be able to parse");
    assert_eq!(ast, ASTNode::DataDefinition(DataDefinition { child_nodes: Vec::new() }));
}
