use fruko_bindgen::cxx::{CXXASTTransformer, generate, generate_code};
use fruko_bindgen::lexer::lex_tokens;
use fruko_bindgen::parser::{
    ASTNode, DataDefinition, DataType, NamedStatementList, StructMemberDeclaration, parse_tokens,
};

const GENERATED_OUTPUT: &str = "struct inner struct 2 {  };struct inner struct 1 { inner struct 2 inner struct 1 member 1; };struct outer struct { inner struct 1 outer struct member 1; };";

fn initial_ast() -> ASTNode {
    ASTNode::DataDefinition(DataDefinition {
        child_nodes: vec![ASTNode::StructDeclaration(NamedStatementList {
            name: "outer struct".to_owned(),
            child_nodes: vec![ASTNode::StructMemberDeclaration(StructMemberDeclaration {
                name: "outer struct member 1".to_owned(),
                data_type: Box::new(ASTNode::StructDeclaration(NamedStatementList {
                    name: "inner struct 1".to_owned(),
                    child_nodes: vec![ASTNode::StructMemberDeclaration(StructMemberDeclaration {
                        name: "inner struct 1 member 1".to_owned(),
                        data_type: Box::new(ASTNode::StructDeclaration(NamedStatementList {
                            name: "inner struct 2".to_owned(),
                            child_nodes: Vec::new(),
                        })),
                    })],
                })),
            })],
        })],
    })
}

fn transformed_ast() -> ASTNode {
    ASTNode::DataDefinition(DataDefinition {
        child_nodes: vec![
            ASTNode::StructDeclaration(NamedStatementList {
                name: "inner struct 2".to_owned(),
                child_nodes: Vec::new(),
            }),
            ASTNode::StructDeclaration(NamedStatementList {
                name: "inner struct 1".to_owned(),
                child_nodes: vec![ASTNode::StructMemberDeclaration(StructMemberDeclaration {
                    name: "inner struct 1 member 1".to_owned(),
                    data_type: Box::new(ASTNode::TypeLiteral(DataType::UserDefined(
                        "inner struct 2".to_owned(),
                    ))),
                })],
            }),
            ASTNode::StructDeclaration(NamedStatementList {
                name: "outer struct".to_owned(),
                child_nodes: vec![ASTNode::StructMemberDeclaration(StructMemberDeclaration {
                    name: "outer struct member 1".to_owned(),
                    data_type: Box::new(ASTNode::TypeLiteral(DataType::UserDefined(
                        "inner struct 1".to_owned(),
                    ))),
                })],
            }),
        ],
    })
}

#[test]
fn test_ast_transformation() {
    assert_eq!(CXXASTTransformer::transform_ast(&initial_ast()), transformed_ast());
}

#[test]
fn test_cxx_code_generation() {
    assert_eq!(generate(&transformed_ast()), GENERATED_OUTPUT);
}

#[test]
fn test_cxx_generation() {
    assert_eq!(generate_code(&initial_ast()), GENERATED_OUTPUT);
}

#[test]
fn test_transformation_is_identity_without_inline_declarations() {
    // Round-trip: with no inline nested declarations, normalization changes
    // nothing about the tree.
    let tokens = lex_tokens(String::from(
        "struct plain { a: u32, b: option(string) } enum colour { red, green, }",
    ))
    .expect("should be able to lex");
    let ast = parse_tokens(tokens).expect("should be able to parse");
    assert_eq!(CXXASTTransformer::transform_ast(&ast), ast);
}

#[test]
fn test_hoisted_declaration_precedes_its_use() {
    // Dependency before use: the hoisted inner struct's declaration text
    // stands strictly before the declaration of the struct that refers to it.
    let tokens = lex_tokens(String::from("struct outer { m: struct inner { a: u8 } }"))
        .expect("should be able to lex");
    let ast = parse_tokens(tokens).expect("should be able to parse");
    let code = generate_code(&ast);
    assert_eq!(
        code,
        "struct inner { std::uint8_t a; };struct outer { inner m; };"
    );
    let inner_pos = code.find("struct inner").expect("inner must be declared");
    let outer_pos = code.find("struct outer").expect("outer must be declared");
    assert!(inner_pos < outer_pos);
}

#[test]
fn test_type_name_spellings() {
    let tokens = lex_tokens(String::from(
        "struct s { a: i64, b: array(option(u8)), c: f64, d: char, e: string, f: bool }",
    ))
    .expect("should be able to lex");
    let ast = parse_tokens(tokens).expect("should be able to parse");
    assert_eq!(
        generate_code(&ast),
        "struct s { std::int64_t a;std::vector<std::optional<std::uint8_t>> b;double c;char d;std::string e;bool f; };"
    );
}

#[test]
fn test_enum_renders_as_label_list() {
    let tokens = lex_tokens(String::from("enum colour { red, green, blue }"))
        .expect("should be able to lex");
    let ast = parse_tokens(tokens).expect("should be able to parse");
    assert_eq!(generate_code(&ast), "enum class colour { red,green,blue };");
}

#[test]
fn test_nested_chain_counts_depth_plus_one() {
    // Hoist ordering: a chain nested two deep yields three declarations,
    // innermost first.
    let code = generate_code(&initial_ast());
    assert_eq!(code.matches(" };").count(), 3);
    let first = code.find("inner struct 2").expect("innermost first");
    let second = code.find("inner struct 1").expect("middle second");
    let third = code.find("outer struct").expect("outermost last");
    assert!(first < second && second < third);
}
