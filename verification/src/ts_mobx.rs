//! Generation for Typescript with MobX.
//!
//! The AST is not transformed at all, as the declaration structure is the
//! same as the allowed data definition structure.
//!
//! The root level data definitions come with some slight extras, exporting
//! both the regular type using the MobX types, as well as a snapshot type,
//! derived from the regular type. Every numeric kind, whatever its width or
//! signedness, collapses to the one generic numeric marker of this target's
//! runtime type system.

use crate::compilation_target::{
    CompilationError, CompilationErrorV, CompilationInfo, CompilationInfoV, CompilationTarget,
    string_result_view,
};
use crate::parser::{ASTNode, ASTNodeV, DataType, DataTypeV, lemma_nodes_view_len, nodes_view,
    view_node};
use vstd::prelude::*;

verus! {

/// The spelling of a data type in the generated runtime schema. All numeric
/// kinds collapse to the one generic numeric marker.
pub open spec fn ts_type_name(t: DataTypeV) -> Seq<char>
    decreases t,
{
    match t {
        DataTypeV::U8 => "types.num"@,
        DataTypeV::I8 => "types.num"@,
        DataTypeV::U16 => "types.num"@,
        DataTypeV::I16 => "types.num"@,
        DataTypeV::U32 => "types.num"@,
        DataTypeV::I32 => "types.num"@,
        DataTypeV::U64 => "types.num"@,
        DataTypeV::I64 => "types.num"@,
        DataTypeV::F32 => "types.num"@,
        DataTypeV::F64 => "types.num"@,
        DataTypeV::Char => "types.char"@,
        DataTypeV::String => "types.string"@,
        DataTypeV::Bool => "types.bool"@,
        DataTypeV::Option(inner) => "types.maybe("@ + ts_type_name(*inner) + ")"@,
        DataTypeV::Array(inner) => "types.array("@ + ts_type_name(*inner) + ")"@,
        DataTypeV::UserDefined(name) => name,
    }
}

/// The text that rendering one node emits: a struct renders as a runtime
/// model constructor over its member renderings, an enum as a runtime enum
/// constructor over its quoted labels, and the data definition root as one
/// top level export per declaration.
pub open spec fn ts_generate(n: ASTNodeV) -> Result<Seq<char>, CompilationErrorV>
    decreases n, 1int,
{
    match n {
        ASTNodeV::StructDeclaration(nsl) => match ts_members(nsl.child_nodes) {
            Ok(body) => Ok("types.model({ "@ + body + " })"@),
            Err(e) => Err(e),
        },
        ASTNodeV::EnumDeclaration(nsl) => match ts_members(nsl.child_nodes) {
            Ok(body) => Ok("types.enum([ "@ + body + " ])"@),
            Err(e) => Err(e),
        },
        ASTNodeV::StructMemberDeclaration(smd) => match ts_generate(*smd.data_type) {
            Ok(t) => Ok(smd.name + ": "@ + t),
            Err(e) => Err(e),
        },
        ASTNodeV::EnumMemberDeclaration(emd) => Ok("'"@ + emd.name + "'"@),
        ASTNodeV::TypeLiteral(dt) => Ok(ts_type_name(dt)),
        ASTNodeV::DataDefinition(dd) => ts_top_level_defs(dd.child_nodes),
    }
}

/// The member renderings of a struct or enum body, each followed by a comma
/// and a space, concatenated in order; the first failure wins.
pub open spec fn ts_members(s: Seq<ASTNodeV>) -> Result<Seq<char>, CompilationErrorV>
    decreases s, 0int,
{
    if s.len() == 0 {
        Ok(Seq::empty())
    } else {
        match ts_generate(s[0]) {
            Err(e) => Err(e),
            Ok(x) => match ts_members(s.subrange(1, s.len() as int)) {
                Err(e) => Err(e),
                Ok(rest) => Ok(x + ", "@ + rest),
            },
        }
    }
}

/// The top level exports of a data definition, concatenated in order; the
/// first failure wins.
pub open spec fn ts_top_level_defs(s: Seq<ASTNodeV>) -> Result<Seq<char>, CompilationErrorV>
    decreases s, 0int,
{
    if s.len() == 0 {
        Ok(Seq::empty())
    } else {
        match ts_top_level(s[0]) {
            Err(e) => Err(e),
            Ok(x) => match ts_top_level_defs(s.subrange(1, s.len() as int)) {
                Err(e) => Err(e),
                Ok(rest) => Ok(x + rest),
            },
        }
    }
}

/// The top level export of one declaration: the model export paired with its
/// derived snapshot type alias. Anything that is not a struct or enum
/// declaration cannot stand at the top level and is an invalid AST.
pub open spec fn ts_top_level(n: ASTNodeV) -> Result<Seq<char>, CompilationErrorV>
    decreases n, 2int,
{
    match n {
        ASTNodeV::StructDeclaration(nsl) => match ts_generate(n) {
            Ok(body) => Ok(
                "export const "@ + nsl.name + " = "@ + body + "; export type "@ + nsl.name
                    + "SnapshotType = SnapshotIn<typeof "@ + nsl.name + ">;"@,
            ),
            Err(e) => Err(e),
        },
        ASTNodeV::EnumDeclaration(nsl) => match ts_generate(n) {
            Ok(body) => Ok(
                "export const "@ + nsl.name + " = "@ + body + "; export type "@ + nsl.name
                    + "SnapshotType = SnapshotIn<typeof "@ + nsl.name + ">;"@,
            ),
            Err(e) => Err(e),
        },
        _ => Err(CompilationErrorV::InvalidAST),
    }
}

/// The preamble block: one line comment per configured entry, joined with
/// newlines.
pub open spec fn ts_preamble(comments: Seq<Seq<char>>) -> Seq<char>
    decreases comments.len(),
{
    if comments.len() == 0 {
        Seq::empty()
    } else if comments.len() == 1 {
        "// "@ + comments[0]
    } else {
        ts_preamble(comments.subrange(0, comments.len() - 1)) + "\n"@ + "// "@
            + comments[comments.len() - 1]
    }
}

/// The whole output of the reactive-model backend: the preamble block, a
/// newline, and the generated body.
pub open spec fn ts_spec_output(ast: ASTNodeV, info: CompilationInfoV) -> Result<
    Seq<char>,
    CompilationErrorV,
> {
    match ts_generate(ast) {
        Ok(body) => Ok(ts_preamble(info.preamble_comments) + "\n"@ + body),
        Err(e) => Err(e),
    }
}

/// The view of a generation result.
pub open spec fn ts_result_view(r: Result<String, CompilationError>) -> Result<
    Seq<char>,
    CompilationErrorV,
> {
    string_result_view(r)
}

/// Glues finished member text in front of the outcome of rendering the rest.
pub open spec fn ts_compose(acc: Seq<char>, r: Result<Seq<char>, CompilationErrorV>) -> Result<
    Seq<char>,
    CompilationErrorV,
> {
    match r {
        Ok(rest) => Ok(acc + rest),
        Err(e) => Err(e),
    }
}

/// The reactive-model backend.
pub struct TSMobXGenerator;

impl CompilationTarget for TSMobXGenerator {
    open spec fn spec_generate_code(&self, ast: ASTNodeV, info: CompilationInfoV) -> Result<
        Seq<char>,
        CompilationErrorV,
    > {
        ts_spec_output(ast, info)
    }

    fn generate_code(&self, ast: &ASTNode, compilation_info: &CompilationInfo) -> (r: Result<
        String,
        CompilationError,
    >) {
        let mut out = generate_preamble(compilation_info);
        match generate_code(ast) {
            Ok(body) => {
                out.append("\n");
                out.append(body.as_str());
                Ok(out)
            },
            Err(e) => Err(e),
        }
    }
}

/// Renders the preamble block: each configured comment line, formatted as a
/// line comment, newline-joined.
fn generate_preamble(compilation_info: &CompilationInfo) -> (r: String)
    ensures
        r@ == ts_preamble(compilation_info@.preamble_comments),
{
    let ghost comments_v = compilation_info@.preamble_comments;
    let mut out = String::new();
    let mut i: usize = 0;
    while i < compilation_info.preamble_comments.len()
        invariant
            i <= compilation_info.preamble_comments@.len(),
            comments_v == compilation_info@.preamble_comments,
            comments_v.len() == compilation_info.preamble_comments@.len(),
            forall|k: int|
                0 <= k < comments_v.len() ==> comments_v[k]
                    == compilation_info.preamble_comments@[k]@,
            out@ == ts_preamble(comments_v.subrange(0, i as int)),
        decreases compilation_info.preamble_comments@.len() - i,
    {
        if i > 0 {
            out.append("\n");
        }
        out.append("// ");
        out.append(compilation_info.preamble_comments[i].as_str());
        proof {
            let cur = comments_v.subrange(0, i as int + 1);
            assert(cur.subrange(0, cur.len() - 1) =~= comments_v.subrange(0, i as int));
            assert(cur[cur.len() - 1] == comments_v[i as int]);
            if i == 0 {
                assert(out@ =~= "// "@ + comments_v[0]);
            }
        }
        i = i + 1;
    }
    proof {
        assert(comments_v.subrange(0, comments_v.len() as int) =~= comments_v);
    }
    out
}

/// Entry API for Typescript MobX code generation: renders one node of the
/// AST, recursively.
#[verifier::loop_isolation(false)]
#[verifier::rlimit(80)]
pub fn generate_code(ast: &ASTNode) -> (r: Result<String, CompilationError>)
    ensures
        ts_result_view(r) == ts_generate(ast@),
    decreases *ast, 0int,
{
    match ast {
        ASTNode::StructDeclaration(struct_declaration) => {
            let ghost members_v = nodes_view(struct_declaration.child_nodes@);
            proof {
                lemma_nodes_view_len(struct_declaration.child_nodes@);
            }
            let mut body = String::new();
            proof {
                assert(members_v.subrange(0, members_v.len() as int) =~= members_v);
                if ts_members(members_v) is Ok {
                    assert(Seq::<char>::empty() + ts_members(members_v)->Ok_0 =~= ts_members(
                        members_v,
                    )->Ok_0);
                }
            }
            let mut i: usize = 0;
            while i < struct_declaration.child_nodes.len()
                invariant
                    i <= struct_declaration.child_nodes@.len(),
                    ts_members(members_v) == ts_compose(
                        body@,
                        ts_members(members_v.subrange(i as int, members_v.len() as int)),
                    ),
                decreases struct_declaration.child_nodes@.len() - i,
            {
                proof {
                    assert(*ast == ASTNode::StructDeclaration(*struct_declaration));
                    assert(decreases_to!(*ast => *struct_declaration));
                    assert(decreases_to!(*struct_declaration => struct_declaration.child_nodes@));
                    assert(decreases_to!(struct_declaration.child_nodes@ => struct_declaration.child_nodes@[i as int]));
                    assert(decreases_to!(*ast => struct_declaration.child_nodes@[i as int]));
                }
                let ghost rem = members_v.subrange(i as int, members_v.len() as int);
                let ghost prev_body = body@;
                let piece = match generate_code(&struct_declaration.child_nodes[i]) {
                    Ok(p) => p,
                    Err(e) => {
                        proof {
                            assert(rem[0] == members_v[i as int]);
                        }
                        return Err(e);
                    },
                };
                body.append(piece.as_str());
                body.append(", ");
                proof {
                    assert(rem[0] == members_v[i as int]);
                    assert(rem.subrange(1, rem.len() as int) =~= members_v.subrange(
                        i as int + 1,
                        members_v.len() as int,
                    ));
                    if ts_members(members_v.subrange(i as int + 1, members_v.len() as int))
                        is Ok {
                        let rest = ts_members(
                            members_v.subrange(i as int + 1, members_v.len() as int),
                        )->Ok_0;
                        assert(prev_body + (piece@ + ", "@ + rest) =~= (prev_body + piece@
                            + ", "@) + rest);
                    }
                }
                i = i + 1;
            }
            proof {
                assert(members_v.subrange(members_v.len() as int, members_v.len() as int)
                    =~= Seq::<ASTNodeV>::empty());
                assert(body@ + Seq::<char>::empty() =~= body@);
            }
            let mut out = String::from_str("types.model({ ");
            out.append(body.as_str());
            out.append(" })");
            Ok(out)
        },
        ASTNode::EnumDeclaration(enum_declaration) => {
            let ghost members_v = nodes_view(enum_declaration.child_nodes@);
            proof {
                lemma_nodes_view_len(enum_declaration.child_nodes@);
            }
            let mut body = String::new();
            proof {
                assert(members_v.subrange(0, members_v.len() as int) =~= members_v);
                if ts_members(members_v) is Ok {
                    assert(Seq::<char>::empty() + ts_members(members_v)->Ok_0 =~= ts_members(
                        members_v,
                    )->Ok_0);
                }
            }
            let mut i: usize = 0;
            while i < enum_declaration.child_nodes.len()
                invariant
                    i <= enum_declaration.child_nodes@.len(),
                    ts_members(members_v) == ts_compose(
                        body@,
                        ts_members(members_v.subrange(i as int, members_v.len() as int)),
                    ),
                decreases enum_declaration.child_nodes@.len() - i,
            {
                proof {
                    assert(*ast == ASTNode::EnumDeclaration(*enum_declaration));
                    assert(decreases_to!(*ast => *enum_declaration));
                    assert(decreases_to!(*enum_declaration => enum_declaration.child_nodes@));
                    assert(decreases_to!(enum_declaration.child_nodes@ => enum_declaration.child_nodes@[i as int]));
                    assert(decreases_to!(*ast => enum_declaration.child_nodes@[i as int]));
                }
                let ghost rem = members_v.subrange(i as int, members_v.len() as int);
                let ghost prev_body = body@;
                let piece = match generate_code(&enum_declaration.child_nodes[i]) {
                    Ok(p) => p,
                    Err(e) => {
                        proof {
                            assert(rem[0] == members_v[i as int]);
                        }
                        return Err(e);
                    },
                };
                body.append(piece.as_str());
                body.append(", ");
                proof {
                    assert(rem[0] == members_v[i as int]);
                    assert(rem.subrange(1, rem.len() as int) =~= members_v.subrange(
                        i as int + 1,
                        members_v.len() as int,
                    ));
                    if ts_members(members_v.subrange(i as int + 1, members_v.len() as int))
                        is Ok {
                        let rest = ts_members(
                            members_v.subrange(i as int + 1, members_v.len() as int),
                        )->Ok_0;
                        assert(prev_body + (piece@ + ", "@ + rest) =~= (prev_body + piece@
                            + ", "@) + rest);
                    }
                }
                i = i + 1;
            }
            proof {
                assert(members_v.subrange(members_v.len() as int, members_v.len() as int)
                    =~= Seq::<ASTNodeV>::empty());
                assert(body@ + Seq::<char>::empty() =~= body@);
            }
            let mut out = String::from_str("types.enum([ ");
            out.append(body.as_str());
            out.append(" ])");
            Ok(out)
        },
        ASTNode::StructMemberDeclaration(struct_member) => {
            proof {
                assert(decreases_to!(*ast => *struct_member.data_type));
            }
            let inner = match generate_code(&*struct_member.data_type) {
                Ok(t) => t,
                Err(e) => {
                    return Err(e);
                },
            };
            let mut out = struct_member.name.clone();
            out.append(": ");
            out.append(inner.as_str());
            Ok(out)
        },
        ASTNode::EnumMemberDeclaration(enum_member) => {
            let mut out = String::from_str("'");
            out.append(enum_member.name.as_str());
            out.append("'");
            Ok(out)
        },
        ASTNode::TypeLiteral(data_type) => Ok(generate_type_name(data_type)),
        ASTNode::DataDefinition(def) => {
            let ghost children_v = nodes_view(def.child_nodes@);
            proof {
                lemma_nodes_view_len(def.child_nodes@);
            }
            let mut body = String::new();
            proof {
                assert(children_v.subrange(0, children_v.len() as int) =~= children_v);
                if ts_top_level_defs(children_v) is Ok {
                    assert(Seq::<char>::empty() + ts_top_level_defs(children_v)->Ok_0
                        =~= ts_top_level_defs(children_v)->Ok_0);
                }
            }
            let mut i: usize = 0;
            while i < def.child_nodes.len()
                invariant
                    i <= def.child_nodes@.len(),
                    ts_top_level_defs(children_v) == ts_compose(
                        body@,
                        ts_top_level_defs(children_v.subrange(i as int, children_v.len() as int)),
                    ),
                decreases def.child_nodes@.len() - i,
            {
                proof {
                    assert(*ast == ASTNode::DataDefinition(*def));
                    assert(decreases_to!(*ast => *def));
                    assert(decreases_to!(*def => def.child_nodes@));
                    assert(decreases_to!(def.child_nodes@ => def.child_nodes@[i as int]));
                    assert(decreases_to!(*ast => def.child_nodes@[i as int]));
                }
                let ghost rem = children_v.subrange(i as int, children_v.len() as int);
                let ghost prev_body = body@;
                let piece = match generate_top_level_type_definition(&def.child_nodes[i]) {
                    Ok(p) => p,
                    Err(e) => {
                        proof {
                            assert(rem[0] == children_v[i as int]);
                        }
                        return Err(e);
                    },
                };
                body.append(piece.as_str());
                proof {
                    assert(rem[0] == children_v[i as int]);
                    assert(rem.subrange(1, rem.len() as int) =~= children_v.subrange(
                        i as int + 1,
                        children_v.len() as int,
                    ));
                    if ts_top_level_defs(children_v.subrange(i as int + 1, children_v.len() as int))
                        is Ok {
                        let rest = ts_top_level_defs(
                            children_v.subrange(i as int + 1, children_v.len() as int),
                        )->Ok_0;
                        assert(prev_body + (piece@ + rest) =~= (prev_body + piece@) + rest);
                    }
                }
                i = i + 1;
            }
            proof {
                assert(children_v.subrange(children_v.len() as int, children_v.len() as int)
                    =~= Seq::<ASTNodeV>::empty());
                assert(body@ + Seq::<char>::empty() =~= body@);
            }
            Ok(body)
        },
    }
}

/// Generates the specific top level exports: the model export and its paired
/// snapshot type alias.
fn generate_top_level_type_definition(ast: &ASTNode) -> (r: Result<String, CompilationError>)
    ensures
        ts_result_view(r) == ts_top_level(ast@),
    decreases *ast, 1int,
{
    match ast {
        ASTNode::StructDeclaration(struct_declaration) => {
            let body = match generate_code(ast) {
                Ok(b) => b,
                Err(e) => {
                    return Err(e);
                },
            };
            let mut out = String::from_str("export const ");
            out.append(struct_declaration.name.as_str());
            out.append(" = ");
            out.append(body.as_str());
            out.append("; export type ");
            out.append(struct_declaration.name.as_str());
            out.append("SnapshotType = SnapshotIn<typeof ");
            out.append(struct_declaration.name.as_str());
            out.append(">;");
            Ok(out)
        },
        ASTNode::EnumDeclaration(enum_declaration) => {
            let body = match generate_code(ast) {
                Ok(b) => b,
                Err(e) => {
                    return Err(e);
                },
            };
            let mut out = String::from_str("export const ");
            out.append(enum_declaration.name.as_str());
            out.append(" = ");
            out.append(body.as_str());
            out.append("; export type ");
            out.append(enum_declaration.name.as_str());
            out.append("SnapshotType = SnapshotIn<typeof ");
            out.append(enum_declaration.name.as_str());
            out.append(">;");
            Ok(out)
        },
        _ => Err(CompilationError::InvalidAST),
    }
}

/// Generates the type names.
fn generate_type_name(data_type: &DataType) -> (r: String)
    ensures
        r@ == ts_type_name(data_type@),
    decreases *data_type,
{
    match data_type {
        DataType::U8 => String::from_str("types.num"),
        DataType::I8 => String::from_str("types.num"),
        DataType::U16 => String::from_str("types.num"),
        DataType::I16 => String::from_str("types.num"),
        DataType::U32 => String::from_str("types.num"),
        DataType::I32 => String::from_str("types.num"),
        DataType::U64 => String::from_str("types.num"),
        DataType::I64 => String::from_str("types.num"),
        DataType::F32 => String::from_str("types.num"),
        DataType::F64 => String::from_str("types.num"),
        DataType::Char => String::from_str("types.char"),
        DataType::String => String::from_str("types.string"),
        DataType::Bool => String::from_str("types.bool"),
        DataType::Option(inner_type) => {
            proof {
                assert(decreases_to!(*data_type => **inner_type));
            }
            let inner = generate_type_name(&*inner_type);
            let mut out = String::from_str("types.maybe(");
            out.append(inner.as_str());
            out.append(")");
            out
        },
        DataType::Array(inner_type) => {
            proof {
                assert(decreases_to!(*data_type => **inner_type));
            }
            let inner = generate_type_name(&*inner_type);
            let mut out = String::from_str("types.array(");
            out.append(inner.as_str());
            out.append(")");
            out
        },
        DataType::UserDefined(name) => name.clone(),
    }
}

} // verus!
