use fruko_bindgen::compilation_target::{
    CompilationError, CompilationInfo, CompilationTarget,
};
use fruko_bindgen::parser::{
    ASTNode, DataDefinition, DataType, EnumMemberDeclaration, NamedStatementList,
    StructMemberDeclaration,
};
use fruko_bindgen::ts_mobx::{TSMobXGenerator, generate_code};

fn initial_ast() -> ASTNode {
    ASTNode::DataDefinition(DataDefinition {
        child_nodes: vec![ASTNode::StructDeclaration(NamedStatementList {
            name: "struct1".to_owned(),
            child_nodes: vec![
                ASTNode::StructMemberDeclaration(StructMemberDeclaration {
                    name: "member1".to_owned(),
                    data_type: Box::new(ASTNode::TypeLiteral(DataType::U32)),
                }),
                ASTNode::StructMemberDeclaration(StructMemberDeclaration {
                    name: "member2".to_owned(),
                    data_type: Box::new(ASTNode::TypeLiteral(DataType::F64)),
                }),
                ASTNode::StructMemberDeclaration(StructMemberDeclaration {
                    name: "member3".to_owned(),
                    data_type: Box::new(ASTNode::TypeLiteral(DataType::Option(Box::new(
                        DataType::String,
                    )))),
                }),
                ASTNode::StructMemberDeclaration(StructMemberDeclaration {
                    name: "member4".to_owned(),
                    data_type: Box::new(ASTNode::StructDeclaration(NamedStatementList {
                        name: "inner_struct".to_owned(),
                        child_nodes: vec![ASTNode::StructMemberDeclaration(
                            StructMemberDeclaration {
                                name: "member1".to_owned(),
                                data_type: Box::new(ASTNode::TypeLiteral(DataType::Bool)),
                            },
                        )],
                    })),
                }),
            ],
        })],
    })
}

const GENERATED_CODE: &str = "export const struct1 = types.model({ member1: types.num, member2: types.num, member3: types.maybe(types.string), member4: types.model({ member1: types.bool,  }),  }); export type struct1SnapshotType = SnapshotIn<typeof struct1>;";

#[test]
fn test_generate_ts_mobx() {
    assert_eq!(
        generate_code(&initial_ast()).expect("should generate code"),
        GENERATED_CODE.to_owned()
    )
}

#[test]
fn test_one_export_per_declaration_with_preamble() {
    // The reactive-model backend emits one model export plus one paired
    // snapshot type alias per top level declaration, prefixed by one comment
    // line per configured preamble entry.
    let ast = ASTNode::DataDefinition(DataDefinition {
        child_nodes: vec![
            ASTNode::StructDeclaration(NamedStatementList {
                name: "point".to_owned(),
                child_nodes: vec![ASTNode::StructMemberDeclaration(StructMemberDeclaration {
                    name: "x".to_owned(),
                    data_type: Box::new(ASTNode::TypeLiteral(DataType::I16)),
                })],
            }),
            ASTNode::EnumDeclaration(NamedStatementList {
                name: "colour".to_owned(),
                child_nodes: vec![
                    ASTNode::EnumMemberDeclaration(EnumMemberDeclaration {
                        name: "red".to_owned(),
                    }),
                    ASTNode::EnumMemberDeclaration(EnumMemberDeclaration {
                        name: "green".to_owned(),
                    }),
                ],
            }),
        ],
    });
    let info = CompilationInfo {
        source_file_name: "defs.fk".to_owned(),
        preamble_comments: vec![
            "This file has been generated from 'defs.fk'".to_owned(),
            "do not edit".to_owned(),
        ],
    };
    let generated = TSMobXGenerator
        .generate_code(&ast, &info)
        .expect("should generate code");
    assert_eq!(
        generated,
        "// This file has been generated from 'defs.fk'\n// do not edit\n\
         export const point = types.model({ x: types.num,  }); \
         export type pointSnapshotType = SnapshotIn<typeof point>;\
         export const colour = types.enum([ 'red', 'green',  ]); \
         export type colourSnapshotType = SnapshotIn<typeof colour>;"
    );
}

#[test]
fn test_empty_preamble_still_separates_with_newline() {
    let ast = ASTNode::DataDefinition(DataDefinition { child_nodes: Vec::new() });
    let info = CompilationInfo {
        source_file_name: "empty.fk".to_owned(),
        preamble_comments: Vec::new(),
    };
    let generated = TSMobXGenerator
        .generate_code(&ast, &info)
        .expect("should generate code");
    assert_eq!(generated, "\n");
}

#[test]
fn test_invalid_ast_for_top_level_non_declaration() {
    // A backend asked to emit a top level export for a node that is not a
    // declaration fails with InvalidAST.
    let ast = ASTNode::DataDefinition(DataDefinition {
        child_nodes: vec![ASTNode::TypeLiteral(DataType::U8)],
    });
    let result = generate_code(&ast);
    assert!(matches!(result, Err(CompilationError::InvalidAST)));
}

#[test]
fn test_numeric_widths_collapse() {
    // Width and signedness are deliberately not preserved in this target:
    // every integer and floating point kind renders as the same marker.
    let ast = ASTNode::DataDefinition(DataDefinition {
        child_nodes: vec![ASTNode::StructDeclaration(NamedStatementList {
            name: "nums".to_owned(),
            child_nodes: vec![
                ASTNode::StructMemberDeclaration(StructMemberDeclaration {
                    name: "a".to_owned(),
                    data_type: Box::new(ASTNode::TypeLiteral(DataType::U8)),
                }),
                ASTNode::StructMemberDeclaration(StructMemberDeclaration {
                    name: "b".to_owned(),
                    data_type: Box::new(ASTNode::TypeLiteral(DataType::I64)),
                }),
                ASTNode::StructMemberDeclaration(StructMemberDeclaration {
                    name: "c".to_owned(),
                    data_type: Box::new(ASTNode::TypeLiteral(DataType::F32)),
                }),
            ],
        })],
    });
    let generated = generate_code(&ast).expect("should generate code");
    assert_eq!(
        generated,
        "export const nums = types.model({ a: types.num, b: types.num, c: types.num,  }); \
         export type numsSnapshotType = SnapshotIn<typeof nums>;"
    );
}

#[test]
fn test_array_type_rendering() {
    let ast = ASTNode::DataDefinition(DataDefinition {
        child_nodes: vec![ASTNode::StructDeclaration(NamedStatementList {
            name: "bag".to_owned(),
            child_nodes: vec![ASTNode::StructMemberDeclaration(StructMemberDeclaration {
                name: "items".to_owned(),
                data_type: Box::new(ASTNode::TypeLiteral(DataType::Array(Box::new(
                    DataType::UserDefined("thing".to_owned()),
                )))),
            })],
        })],
    });
    let generated = generate_code(&ast).expect("should generate code");
    assert_eq!(
        generated,
        "export const bag = types.model({ items: types.array(thing),  }); \
         export type bagSnapshotType = SnapshotIn<typeof bag>;"
    );
}
