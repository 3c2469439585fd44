//! Target selection: resolves an external target identifier to one of the
//! fixed, closed set of code generation backends, and dispatches generation
//! to it. The registry holds no mutable state; every lookup is independent.

use crate::cxx::{CXXGenerator, cxx_generate, spec_transform_ast};
use crate::lexer::str_eq;
use crate::parser::{ASTNode, ASTNodeV};
use crate::ts_mobx::{TSMobXGenerator, ts_spec_output};
use vstd::prelude::*;

verus! {

broadcast use vstd::string::group_string_axioms;

/// An externally supplied, read-only record used only for header banners:
/// the name of the source file the input came from, and the preamble comment
/// lines to place in front of generated output, in order.
pub struct CompilationInfo {
    pub source_file_name: String,
    pub preamble_comments: Vec<String>,
}

/// The mathematical value of a [`CompilationInfo`].
pub struct CompilationInfoV {
    pub source_file_name: Seq<char>,
    pub preamble_comments: Seq<Seq<char>>,
}

impl View for CompilationInfo {
    type V = CompilationInfoV;

    open spec fn view(&self) -> CompilationInfoV {
        CompilationInfoV {
            source_file_name: self.source_file_name@,
            preamble_comments: self.preamble_comments@.map_values(|c: String| c@),
        }
    }
}

/// A code generation failure.
/// # Meanings
/// UnknownTarget - the target identifier matched no registered backend; it
/// carries the rejected identifier.
/// InvalidAST - a backend was asked to render a node that cannot stand at the
/// top level of a data definition.
#[derive(Debug)]
pub enum CompilationError {
    UnknownTarget(String),
    InvalidAST,
}

/// The mathematical value of a [`CompilationError`].
pub enum CompilationErrorV {
    UnknownTarget(Seq<char>),
    InvalidAST,
}

impl View for CompilationError {
    type V = CompilationErrorV;

    open spec fn view(&self) -> CompilationErrorV {
        match self {
            CompilationError::UnknownTarget(name) => CompilationErrorV::UnknownTarget(name@),
            CompilationError::InvalidAST => CompilationErrorV::InvalidAST,
        }
    }
}

/// The view of a backend's result, for stating what generation returns.
pub open spec fn string_result_view(r: Result<String, CompilationError>) -> Result<
    Seq<char>,
    CompilationErrorV,
> {
    match r {
        Ok(s) => Ok(s@),
        Err(e) => Err(e@),
    }
}

/// A code generation backend: one operation, from an AST and a compilation
/// info record to generated text. Each backend also states, as a function of
/// its inputs, exactly what that text is.
pub trait CompilationTarget {
    /// The output this backend generates, as a mathematical function of the
    /// AST and the compilation info.
    spec fn spec_generate_code(&self, ast: ASTNodeV, info: CompilationInfoV) -> Result<
        Seq<char>,
        CompilationErrorV,
    >;

    /// Generates this backend's output for the given AST.
    fn generate_code(&self, ast: &ASTNode, compilation_info: &CompilationInfo) -> (r: Result<
        String,
        CompilationError,
    >)
        ensures
            string_result_view(r) == self.spec_generate_code(ast@, compilation_info@),
    ;
}

/// The closed set of backends a target identifier can resolve to.
enum TargetBackend {
    Cxx(CXXGenerator),
    TsMobX(TSMobXGenerator),
}

/// A resolved compilation target.
pub struct Target {
    target: TargetBackend,
}

/// The identifiers that name the structural C++ backend.
pub open spec fn is_cxx_name(s: Seq<char>) -> bool {
    ||| s == "cxx"@
    ||| s == "cpp"@
    ||| s == "c++"@
    ||| s == "h"@
}

/// The identifiers that name the reactive-model TypeScript backend.
pub open spec fn is_ts_mobx_name(s: Seq<char>) -> bool {
    ||| s == "ts-mobx"@
    ||| s == "typescript-mobx"@
    ||| s == "ts"@
}

impl Target {
    /// Whether this target resolved to the structural C++ backend.
    pub closed spec fn spec_is_cxx(&self) -> bool {
        self.target is Cxx
    }

    /// Whether this target resolved to the reactive-model TypeScript backend.
    pub closed spec fn spec_is_ts_mobx(&self) -> bool {
        self.target is TsMobX
    }

    /// Resolves an external target identifier by case-exact lookup: `cxx`,
    /// `cpp`, `c++` and `h` name the structural C++ backend; `ts-mobx`,
    /// `typescript-mobx` and `ts` name the reactive-model TypeScript backend.
    /// Any other identifier fails with `UnknownTarget` carrying the rejected
    /// identifier itself.
    pub fn from_str(s: &str) -> (r: Result<Target, CompilationError>)
        ensures
            is_cxx_name(s@) ==> (r matches Ok(t) && t.spec_is_cxx()),
            is_ts_mobx_name(s@) ==> (r matches Ok(t) && t.spec_is_ts_mobx()),
            !is_cxx_name(s@) && !is_ts_mobx_name(s@) ==> (r matches Err(e) && e@
                == CompilationErrorV::UnknownTarget(s@)),
    {
        proof {
            reveal_strlit("cxx");
            reveal_strlit("cpp");
            reveal_strlit("c++");
            reveal_strlit("h");
            reveal_strlit("ts-mobx");
            reveal_strlit("typescript-mobx");
            reveal_strlit("ts");
            // No two alias sets share a spelling: the lengths alone already
            // keep the two backends' aliases apart.
            assert("cxx"@.len() == 3);
            assert("cpp"@.len() == 3);
            assert("c++"@.len() == 3);
            assert("h"@.len() == 1);
            assert("ts-mobx"@.len() == 7);
            assert("typescript-mobx"@.len() == 15);
            assert("ts"@.len() == 2);
        }
        if str_eq(s, "cxx") || str_eq(s, "cpp") || str_eq(s, "c++") || str_eq(s, "h") {
            Ok(Target { target: TargetBackend::Cxx(CXXGenerator) })
        } else if str_eq(s, "ts-mobx") || str_eq(s, "typescript-mobx") || str_eq(s, "ts") {
            Ok(Target { target: TargetBackend::TsMobX(TSMobXGenerator) })
        } else {
            Err(CompilationError::UnknownTarget(s.to_owned()))
        }
    }

    /// Generates code for the backend this target resolved to.
    pub fn generate_code(&self, ast: &ASTNode, compilation_info: &CompilationInfo) -> (r: Result<
        String,
        CompilationError,
    >)
        ensures
            self.spec_is_cxx() || self.spec_is_ts_mobx(),
            self.spec_is_cxx() ==> string_result_view(r) == Ok::<Seq<char>, CompilationErrorV>(
                cxx_generate(spec_transform_ast(ast@)),
            ),
            self.spec_is_ts_mobx() ==> string_result_view(r) == ts_spec_output(
                ast@,
                compilation_info@,
            ),
    {
        match &self.target {
            TargetBackend::Cxx(backend) => backend.generate_code(ast, compilation_info),
            TargetBackend::TsMobX(backend) => backend.generate_code(ast, compilation_info),
        }
    }
}

} // verus!
