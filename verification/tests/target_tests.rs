use fruko_bindgen::compilation_target::{CompilationError, CompilationInfo, Target};
use fruko_bindgen::cxx;
use fruko_bindgen::lexer::lex_tokens;
use fruko_bindgen::parser::parse_tokens;

fn sample_info() -> CompilationInfo {
    CompilationInfo {
        source_file_name: "sample.fk".to_owned(),
        preamble_comments: vec!["This file has been generated from 'sample.fk'".to_owned()],
    }
}

#[test]
fn test_unknown_target_carries_name() {
    // Resolving the target identifier "bogus" fails with an error carrying
    // exactly that string.
    match Target::from_str("bogus") {
        Err(CompilationError::UnknownTarget(name)) => assert_eq!(name, "bogus"),
        _ => panic!("resolving an unknown target must fail with UnknownTarget"),
    }
}

#[test]
fn test_cxx_aliases_resolve() {
    let tokens = lex_tokens(String::from("struct s { a: u8 }")).expect("should lex");
    let ast = parse_tokens(tokens).expect("should parse");
    let expected = cxx::generate_code(&ast);
    for alias in ["cxx", "cpp", "c++", "h"] {
        let target = Target::from_str(alias).expect("alias should resolve");
        let generated = target
            .generate_code(&ast, &sample_info())
            .expect("generation should succeed");
        assert_eq!(generated, expected);
    }
}

#[test]
fn test_ts_mobx_aliases_resolve() {
    let tokens = lex_tokens(String::from("struct s { a: u8 }")).expect("should lex");
    let ast = parse_tokens(tokens).expect("should parse");
    for alias in ["ts-mobx", "typescript-mobx", "ts"] {
        let target = Target::from_str(alias).expect("alias should resolve");
        let generated = target
            .generate_code(&ast, &sample_info())
            .expect("generation should succeed");
        assert_eq!(
            generated,
            "// This file has been generated from 'sample.fk'\n\
             export const s = types.model({ a: types.num,  }); \
             export type sSnapshotType = SnapshotIn<typeof s>;"
        );
    }
}

#[test]
fn test_lookup_is_case_exact() {
    assert!(matches!(
        Target::from_str("CXX"),
        Err(CompilationError::UnknownTarget(_))
    ));
    assert!(matches!(
        Target::from_str("Ts"),
        Err(CompilationError::UnknownTarget(_))
    ));
}

#[test]
fn test_whole_pipeline_end_to_end() {
    let source = "struct name { member1: u32, member2: option(f32) }";
    let tokens = lex_tokens(String::from(source)).expect("should lex");
    let ast = parse_tokens(tokens).expect("should parse");
    let target = Target::from_str("h").expect("should resolve");
    let generated = target
        .generate_code(&ast, &sample_info())
        .expect("generation should succeed");
    assert_eq!(
        generated,
        "struct name { std::uint32_t member1;std::optional<float> member2; };"
    );
}
