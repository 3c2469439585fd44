//! Code generation for C++.
//! Includes the AST transformation, which effectively just pulls inline
//! struct and enum declarations out of line: the target language has no
//! notion of an anonymous inline type declaration inside a field, so every
//! inline declaration is hoisted to the top level, in front of the
//! declaration whose member refers to it, and the member is redirected to
//! name it.

use crate::parser::{
    ASTNode, ASTNodeV, DataDefinition, DataDefinitionV, DataType, DataTypeV, NamedStatementList,
    NamedStatementListV, StructMemberDeclaration, StructMemberDeclarationV, lemma_nodes_view_len,
    lemma_nodes_view_push, nodes_view, view_node,
};
use vstd::prelude::*;

verus! {

/// Whether a node is a struct member whose declared type is an inline struct
/// or enum declaration, which normalization must hoist.
pub open spec fn is_inline_member(m: ASTNodeV) -> bool {
    match m {
        ASTNodeV::StructMemberDeclaration(smd) => (*smd.data_type) is StructDeclaration || (
        *smd.data_type) is EnumDeclaration,
        _ => false,
    }
}

/// The name of the declaration a node declares (structs and enums only).
pub open spec fn decl_name(n: ASTNodeV) -> Seq<char> {
    match n {
        ASTNodeV::StructDeclaration(nsl) => nsl.name,
        ASTNodeV::EnumDeclaration(nsl) => nsl.name,
        _ => Seq::empty(),
    }
}

/// How normalization rewrites one struct member: a member with an inline
/// declaration is redirected to refer to it by name; any other member passes
/// through unchanged.
pub open spec fn rewrite_member(m: ASTNodeV) -> ASTNodeV {
    match m {
        ASTNodeV::StructMemberDeclaration(smd) => match *smd.data_type {
            ASTNodeV::StructDeclaration(g) => ASTNodeV::StructMemberDeclaration(
                StructMemberDeclarationV {
                    name: smd.name,
                    data_type: Box::new(ASTNodeV::TypeLiteral(DataTypeV::UserDefined(g.name))),
                },
            ),
            ASTNodeV::EnumDeclaration(g) => ASTNodeV::StructMemberDeclaration(
                StructMemberDeclarationV {
                    name: smd.name,
                    data_type: Box::new(ASTNodeV::TypeLiteral(DataTypeV::UserDefined(g.name))),
                },
            ),
            _ => m,
        },
        _ => m,
    }
}

/// The rewritten members of a struct body, in order. Only struct member
/// declarations are kept; anything else in the body is dropped.
pub open spec fn rewrite_members(s: Seq<ASTNodeV>) -> Seq<ASTNodeV>
    decreases s.len(),
{
    if s.len() == 0 {
        Seq::empty()
    } else {
        let rest = rewrite_members(s.subrange(1, s.len() as int));
        if s[0] is StructMemberDeclaration {
            seq![rewrite_member(s[0])] + rest
        } else {
            rest
        }
    }
}

/// The top level declarations that hoisting one member emits: for an inline
/// member, the full normalization of its inline declaration; nothing
/// otherwise.
pub open spec fn spec_member_hoists(m: ASTNodeV) -> Seq<ASTNodeV>
    decreases m,
{
    match m {
        ASTNodeV::StructMemberDeclaration(smd) => if (*smd.data_type) is StructDeclaration || (
        *smd.data_type) is EnumDeclaration {
            spec_transform(*smd.data_type)
        } else {
            Seq::empty()
        },
        _ => Seq::empty(),
    }
}

/// The top level declarations hoisted out of a struct body, in member order.
pub open spec fn spec_hoisted(s: Seq<ASTNodeV>) -> Seq<ASTNodeV>
    decreases s,
{
    if s.len() == 0 {
        Seq::empty()
    } else {
        spec_member_hoists(s[0]) + spec_hoisted(s.subrange(1, s.len() as int))
    }
}

/// The list of top level declarations that normalizing one node emits: a
/// struct emits the declarations hoisted out of its members, innermost first,
/// followed by itself with every inline member redirected by name; an enum is
/// emitted unchanged; a data definition emits the concatenation over its
/// children in order; anything else emits nothing.
pub open spec fn spec_transform(n: ASTNodeV) -> Seq<ASTNodeV>
    decreases n,
{
    match n {
        ASTNodeV::StructDeclaration(nsl) => spec_hoisted(nsl.child_nodes) + seq![
            ASTNodeV::StructDeclaration(
                NamedStatementListV {
                    name: nsl.name,
                    child_nodes: rewrite_members(nsl.child_nodes),
                },
            ),
        ],
        ASTNodeV::EnumDeclaration(nsl) => seq![ASTNodeV::EnumDeclaration(nsl)],
        ASTNodeV::DataDefinition(dd) => spec_transform_seq(dd.child_nodes),
        _ => Seq::empty(),
    }
}

/// The concatenation of the normalizations of a sequence of nodes, in order.
pub open spec fn spec_transform_seq(s: Seq<ASTNodeV>) -> Seq<ASTNodeV>
    decreases s,
{
    if s.len() == 0 {
        Seq::empty()
    } else {
        spec_transform(s[0]) + spec_transform_seq(s.subrange(1, s.len() as int))
    }
}

/// The normalized tree: a flat data definition holding the emitted top level
/// declarations.
pub open spec fn spec_transform_ast(n: ASTNodeV) -> ASTNodeV {
    ASTNodeV::DataDefinition(DataDefinitionV { child_nodes: spec_transform(n) })
}

/// Hoisting takes struct bodies one member at a time from the back.
proof fn lemma_hoisted_snoc(s: Seq<ASTNodeV>, m: ASTNodeV)
    ensures
        spec_hoisted(s.push(m)) == spec_hoisted(s) + spec_member_hoists(m),
    decreases s.len(),
{
    reveal_with_fuel(spec_hoisted, 2);
    if s.len() == 0 {
        assert(s.push(m).subrange(1, s.push(m).len() as int) =~= Seq::<ASTNodeV>::empty());
        assert(s.push(m)[0] == m);
        assert(spec_hoisted(s.push(m)) == spec_member_hoists(m) + spec_hoisted(s.push(m).subrange(1, s.push(m).len() as int)));
        assert(spec_member_hoists(m) + Seq::<ASTNodeV>::empty() =~= spec_member_hoists(m));
        assert(Seq::<ASTNodeV>::empty() + spec_member_hoists(m) =~= spec_member_hoists(m));
    } else {
        let t = s.subrange(1, s.len() as int);
        assert(s.push(m).subrange(1, s.push(m).len() as int) =~= t.push(m));
        assert(s.push(m)[0] == s[0]);
        lemma_hoisted_snoc(t, m);
        assert(spec_member_hoists(s[0]) + (spec_hoisted(t) + spec_member_hoists(m)) =~= (
        spec_member_hoists(s[0]) + spec_hoisted(t)) + spec_member_hoists(m));
    }
}

/// Member rewriting takes struct bodies one member at a time from the back.
proof fn lemma_rewrite_members_snoc(s: Seq<ASTNodeV>, m: ASTNodeV)
    ensures
        rewrite_members(s.push(m)) == rewrite_members(s) + (if m is StructMemberDeclaration {
            seq![rewrite_member(m)]
        } else {
            Seq::<ASTNodeV>::empty()
        }),
    decreases s.len(),
{
    reveal_with_fuel(rewrite_members, 2);
    let tail: Seq<ASTNodeV> = if m is StructMemberDeclaration {
        seq![rewrite_member(m)]
    } else {
        Seq::empty()
    };
    if s.len() == 0 {
        assert(rewrite_members(s) == Seq::<ASTNodeV>::empty());
        assert(s.push(m).subrange(1, s.push(m).len() as int) =~= Seq::<ASTNodeV>::empty());
        assert(s.push(m)[0] == m);
        if m is StructMemberDeclaration {
            assert(seq![rewrite_member(m)] + Seq::<ASTNodeV>::empty() =~= seq![rewrite_member(m)]);
            assert(Seq::<ASTNodeV>::empty() + seq![rewrite_member(m)] =~= seq![rewrite_member(m)]);
        } else {
            assert(Seq::<ASTNodeV>::empty() + tail =~= tail);
        }
    } else {
        let t = s.subrange(1, s.len() as int);
        assert(s.push(m).subrange(1, s.push(m).len() as int) =~= t.push(m));
        assert(s.push(m)[0] == s[0]);
        lemma_rewrite_members_snoc(t, m);
        if s[0] is StructMemberDeclaration {
            assert(seq![rewrite_member(s[0])] + (rewrite_members(t) + tail) =~= (seq![
                rewrite_member(s[0]),
            ] + rewrite_members(t)) + tail);
        }
    }
}

/// Normalization takes a data definition one child at a time from the back.
proof fn lemma_transform_seq_snoc(s: Seq<ASTNodeV>, n: ASTNodeV)
    ensures
        spec_transform_seq(s.push(n)) == spec_transform_seq(s) + spec_transform(n),
    decreases s.len(),
{
    reveal_with_fuel(spec_transform_seq, 2);
    if s.len() == 0 {
        assert(s.push(n).subrange(1, s.push(n).len() as int) =~= Seq::<ASTNodeV>::empty());
        assert(s.push(n)[0] == n);
        assert(spec_transform_seq(s.push(n)) == spec_transform(n) + spec_transform_seq(s.push(n).subrange(1, s.push(n).len() as int)));
        assert(spec_transform(n) + Seq::<ASTNodeV>::empty() =~= spec_transform(n));
        assert(Seq::<ASTNodeV>::empty() + spec_transform(n) =~= spec_transform(n));
    } else {
        let t = s.subrange(1, s.len() as int);
        assert(s.push(n).subrange(1, s.push(n).len() as int) =~= t.push(n));
        assert(s.push(n)[0] == s[0]);
        lemma_transform_seq_snoc(t, n);
        assert(spec_transform(s[0]) + (spec_transform_seq(t) + spec_transform(n)) =~= (
        spec_transform(s[0]) + spec_transform_seq(t)) + spec_transform(n));
    }
}

/// A struct body all of whose children are plain struct member declarations:
/// each member's declared type is a type literal, never an inline
/// declaration.
pub open spec fn flat_struct_body(s: Seq<ASTNodeV>) -> bool {
    forall|k: int|
        0 <= k < s.len() ==> (#[trigger] s[k] matches ASTNodeV::StructMemberDeclaration(smd) && (
        *smd.data_type) is TypeLiteral)
}

/// A top level declaration that contains no inline nested declaration: a
/// struct with a flat body, or an enum.
pub open spec fn no_inline_decl(n: ASTNodeV) -> bool {
    ||| (n matches ASTNodeV::StructDeclaration(nsl) && flat_struct_body(nsl.child_nodes))
    ||| n is EnumDeclaration
}

/// A data definition with no inline nested declarations anywhere.
pub open spec fn no_inline_definition(d: DataDefinitionV) -> bool {
    forall|k: int| 0 <= k < d.child_nodes.len() ==> no_inline_decl(#[trigger] d.child_nodes[k])
}

/// A well-formed struct member: its declared type is a type literal, or an
/// inline declaration that is itself well formed.
pub open spec fn wf_struct_member(m: ASTNodeV) -> bool
    decreases m, 0int,
{
    match m {
        ASTNodeV::StructMemberDeclaration(smd) => (*smd.data_type) is TypeLiteral || wf_decl(
            *smd.data_type,
        ),
        _ => false,
    }
}

/// A well-formed struct body: every child is a well-formed struct member
/// declaration. (The grammar also admits bare enum members inside a struct
/// body — a documented gap; the laws below speak of bodies without them,
/// since normalization drops such members from a struct.)
pub open spec fn wf_struct_body(s: Seq<ASTNodeV>) -> bool
    decreases s, 1int,
{
    if s.len() == 0 {
        true
    } else {
        wf_struct_member(s[0]) && wf_struct_body(s.subrange(1, s.len() as int))
    }
}

/// A well-formed top level declaration: a struct whose members are well
/// formed at every depth, or an enum.
pub open spec fn wf_decl(n: ASTNodeV) -> bool
    decreases n, 2int,
{
    match n {
        ASTNodeV::StructDeclaration(nsl) => wf_struct_body(nsl.child_nodes),
        ASTNodeV::EnumDeclaration(_) => true,
        _ => false,
    }
}

/// How many declarations a declaration tree holds: the declaration itself,
/// plus every declaration nested inline under its struct members. A chain of
/// inline declarations nested N deep counts N + 1.
pub open spec fn decl_count(n: ASTNodeV) -> int
    decreases n, 1int,
{
    match n {
        ASTNodeV::StructDeclaration(nsl) => 1 + decl_count_members(nsl.child_nodes),
        ASTNodeV::EnumDeclaration(_) => 1,
        _ => 0,
    }
}

/// How many declarations the inline members of a struct body hold.
pub open spec fn decl_count_members(s: Seq<ASTNodeV>) -> int
    decreases s, 0int,
{
    if s.len() == 0 {
        0
    } else {
        (if is_inline_member(s[0]) {
            decl_count(*s[0]->StructMemberDeclaration_0.data_type)
        } else {
            0
        }) + decl_count_members(s.subrange(1, s.len() as int))
    }
}

/// Hoisting emits nothing for a body without inline declarations.
proof fn lemma_hoisted_flat_empty(s: Seq<ASTNodeV>)
    requires
        flat_struct_body(s),
    ensures
        spec_hoisted(s) == Seq::<ASTNodeV>::empty(),
    decreases s.len(),
{
    if s.len() > 0 {
        assert(s[0] matches ASTNodeV::StructMemberDeclaration(smd) && (
        *smd.data_type) is TypeLiteral);
        assert(forall|k: int|
            0 <= k < s.subrange(1, s.len() as int).len() ==> s.subrange(1, s.len() as int)[k]
                == s[k + 1]);
        lemma_hoisted_flat_empty(s.subrange(1, s.len() as int));
        assert(spec_member_hoists(s[0]) + Seq::<ASTNodeV>::empty() =~= Seq::<ASTNodeV>::empty());
    }
}

/// Rewriting changes nothing in a body without inline declarations.
proof fn lemma_rewrite_flat_identity(s: Seq<ASTNodeV>)
    requires
        flat_struct_body(s),
    ensures
        rewrite_members(s) == s,
    decreases s.len(),
{
    if s.len() > 0 {
        assert(s[0] matches ASTNodeV::StructMemberDeclaration(smd) && (
        *smd.data_type) is TypeLiteral);
        assert(forall|k: int|
            0 <= k < s.subrange(1, s.len() as int).len() ==> s.subrange(1, s.len() as int)[k]
                == s[k + 1]);
        lemma_rewrite_flat_identity(s.subrange(1, s.len() as int));
        assert(rewrite_member(s[0]) == s[0]);
        assert(seq![s[0]] + s.subrange(1, s.len() as int) =~= s);
    }
}

/// Normalizing a declaration without inline declarations emits it unchanged.
proof fn lemma_transform_identity(n: ASTNodeV)
    requires
        no_inline_decl(n),
    ensures
        spec_transform(n) == seq![n],
{
    match n {
        ASTNodeV::StructDeclaration(nsl) => {
            lemma_hoisted_flat_empty(nsl.child_nodes);
            lemma_rewrite_flat_identity(nsl.child_nodes);
            assert(ASTNodeV::StructDeclaration(
                NamedStatementListV { name: nsl.name, child_nodes: nsl.child_nodes },
            ) == n);
            assert(Seq::<ASTNodeV>::empty() + seq![n] =~= seq![n]);
        },
        _ => {},
    }
}

/// Normalizing a sequence of declarations without inline declarations emits
/// them unchanged, in order.
proof fn lemma_transform_seq_identity(s: Seq<ASTNodeV>)
    requires
        forall|k: int| 0 <= k < s.len() ==> no_inline_decl(#[trigger] s[k]),
    ensures
        spec_transform_seq(s) == s,
    decreases s.len(),
{
    if s.len() > 0 {
        lemma_transform_identity(s[0]);
        assert(forall|k: int|
            0 <= k < s.subrange(1, s.len() as int).len() ==> s.subrange(1, s.len() as int)[k]
                == s[k + 1]);
        lemma_transform_seq_identity(s.subrange(1, s.len() as int));
        assert(seq![s[0]] + s.subrange(1, s.len() as int) =~= s);
    }
}

/// Round-trip structure: on an AST with no inline nested declarations, the
/// normalization phase is the identity — no hoisting occurs, and the tree
/// comes out exactly as it went in.
pub proof fn lemma_normalize_identity(d: DataDefinitionV)
    requires
        no_inline_definition(d),
    ensures
        spec_transform_ast(ASTNodeV::DataDefinition(d)) == ASTNodeV::DataDefinition(d),
{
    lemma_transform_seq_identity(d.child_nodes);
}

/// Hoisting one struct body emits exactly as many declarations as its inline
/// members hold.
proof fn lemma_hoisted_count(s: Seq<ASTNodeV>)
    ensures
        spec_hoisted(s).len() == decl_count_members(s),
    decreases s, 0int,
{
    if s.len() > 0 {
        let t = s.subrange(1, s.len() as int);
        if is_inline_member(s[0]) {
            lemma_transform_count(*s[0]->StructMemberDeclaration_0.data_type);
            assert(spec_member_hoists(s[0]) == spec_transform(
                *s[0]->StructMemberDeclaration_0.data_type,
            ));
        } else {
            assert(spec_member_hoists(s[0]) == Seq::<ASTNodeV>::empty());
        }
        lemma_hoisted_count(t);
        assert(spec_hoisted(s) == spec_member_hoists(s[0]) + spec_hoisted(t));
    }
}

/// Hoist counting: normalizing a declaration emits exactly one top level
/// declaration per declaration in the tree. For an AST whose inline
/// declarations are nested N deep in a chain, that is N + 1 declarations.
pub proof fn lemma_transform_count(n: ASTNodeV)
    requires
        n is StructDeclaration || n is EnumDeclaration,
    ensures
        spec_transform(n).len() == decl_count(n),
    decreases n, 1int,
{
    match n {
        ASTNodeV::StructDeclaration(nsl) => {
            lemma_hoisted_count(nsl.child_nodes);
        },
        _ => {},
    }
}

/// The last declaration that normalizing a declaration emits is the
/// declaration itself (rewritten), under its own name: everything hoisted
/// out of it stands in front of it, innermost first.
pub proof fn lemma_transform_last(n: ASTNodeV)
    requires
        n is StructDeclaration || n is EnumDeclaration,
    ensures
        spec_transform(n).len() >= 1,
        decl_name(spec_transform(n).last()) == decl_name(n),
        spec_transform(n).last() is StructDeclaration || spec_transform(n).last()
            is EnumDeclaration,
{
    match n {
        ASTNodeV::StructDeclaration(nsl) => {
            let r = ASTNodeV::StructDeclaration(
                NamedStatementListV { name: nsl.name, child_nodes: rewrite_members(nsl.child_nodes) },
            );
            assert(spec_transform(n) == spec_hoisted(nsl.child_nodes) + seq![r]);
            assert(spec_transform(n).last() == r);
        },
        _ => {},
    }
}

/// Rewriting a well-formed struct body keeps every member in place: member
/// `k` of the rewritten body is the rewrite of member `k` of the original.
proof fn lemma_rewrite_members_index(s: Seq<ASTNodeV>)
    requires
        wf_struct_body(s),
    ensures
        rewrite_members(s).len() == s.len(),
        forall|k: int| 0 <= k < s.len() ==> rewrite_members(s)[k] == rewrite_member(#[trigger] s[k]),
    decreases s.len(),
{
    if s.len() > 0 {
        lemma_rewrite_members_index(s.subrange(1, s.len() as int));
        assert(wf_struct_member(s[0]));
        assert(s[0] is StructMemberDeclaration);
        assert(forall|k: int|
            1 <= k < s.len() ==> rewrite_members(s)[k] == rewrite_member(s.subrange(
                1,
                s.len() as int,
            )[k - 1]));
    }
}

/// Somewhere in the declarations hoisted out of a struct body stands the
/// declaration that member `k`'s inline declaration names.
proof fn lemma_hoisted_contains(s: Seq<ASTNodeV>, k: int)
    requires
        0 <= k < s.len(),
        is_inline_member(s[k]),
    ensures
        exists|j: int|
            0 <= j < spec_hoisted(s).len() && decl_name(#[trigger] spec_hoisted(s)[j]) == decl_name(
                *s[k]->StructMemberDeclaration_0.data_type,
            ),
    decreases k,
{
    let inner = *s[k]->StructMemberDeclaration_0.data_type;
    if k == 0 {
        lemma_transform_last(inner);
        let a = spec_member_hoists(s[0]);
        let j = a.len() - 1;
        assert(a == spec_transform(inner));
        assert(spec_hoisted(s)[j] == a[j]);
        assert(decl_name(spec_hoisted(s)[j]) == decl_name(inner));
    } else {
        let t = s.subrange(1, s.len() as int);
        assert(t[k - 1] == s[k]);
        lemma_hoisted_contains(t, k - 1);
        let j0 = choose|j: int|
            0 <= j < spec_hoisted(t).len() && decl_name(#[trigger] spec_hoisted(t)[j])
                == decl_name(*t[k - 1]->StructMemberDeclaration_0.data_type);
        let a = spec_member_hoists(s[0]);
        assert(spec_hoisted(s)[a.len() + j0] == spec_hoisted(t)[j0]);
        assert(decl_name(spec_hoisted(s)[a.len() + j0]) == decl_name(inner));
    }
}

/// The emitted text of a declaration list splits at any point into the text
/// of the declarations before it and the text of the declarations after it.
pub proof fn lemma_concat_split(s: Seq<ASTNodeV>, m: int)
    requires
        0 <= m <= s.len(),
    ensures
        cxx_generate_concat(s) == cxx_generate_concat(s.subrange(0, m)) + cxx_generate_concat(
            s.subrange(m, s.len() as int),
        ),
    decreases s.len() - m,
{
    if m == s.len() {
        assert(s.subrange(0, m) =~= s);
        assert(s.subrange(m, s.len() as int) =~= Seq::<ASTNodeV>::empty());
        assert(cxx_generate_concat(s) + Seq::<char>::empty() =~= cxx_generate_concat(s));
    } else {
        lemma_concat_split(s, m + 1);
        let front = s.subrange(0, m);
        let mid = s.subrange(m, m + 1);
        let back = s.subrange(m + 1, s.len() as int);
        assert(s.subrange(0, m + 1).subrange(0, m) =~= front);
        assert(s.subrange(0, m + 1)[m] == s[m]);
        assert(cxx_generate_concat(s.subrange(0, m + 1)) == cxx_generate_concat(front)
            + cxx_generate(s[m]));
        let rem = s.subrange(m, s.len() as int);
        assert(rem.len() == s.len() - m);
        assert(rem[0] == s[m]);
        assert(rem.subrange(1, rem.len() as int) =~= back);
        lemma_concat_head(rem);
        assert((cxx_generate_concat(front) + cxx_generate(s[m])) + cxx_generate_concat(back)
            =~= cxx_generate_concat(front) + (cxx_generate(s[m]) + cxx_generate_concat(back)));
    }
}

/// The emitted text of a nonempty declaration list starts with the text of
/// its first declaration.
proof fn lemma_concat_head(s: Seq<ASTNodeV>)
    requires
        s.len() >= 1,
    ensures
        cxx_generate_concat(s) == cxx_generate(s[0]) + cxx_generate_concat(
            s.subrange(1, s.len() as int),
        ),
    decreases s.len(),
{
    if s.len() == 1 {
        assert(s.subrange(0, 0) =~= Seq::<ASTNodeV>::empty());
        assert(s.subrange(1, 1) =~= Seq::<ASTNodeV>::empty());
        assert(Seq::<char>::empty() + cxx_generate(s[0]) =~= cxx_generate(s[0]));
        assert(cxx_generate(s[0]) + Seq::<char>::empty() =~= cxx_generate(s[0]));
    } else {
        let t = s.subrange(0, s.len() - 1);
        lemma_concat_head(t);
        assert(t[0] == s[0]);
        assert(t.subrange(1, t.len() as int) =~= s.subrange(1, s.len() as int).subrange(
            0,
            s.len() - 2,
        ));
        assert(s.subrange(1, s.len() as int).subrange(0, s.len() - 2) =~= s.subrange(
            1,
            s.len() - 1,
        ));
        assert(s.subrange(1, s.len() as int)[s.len() - 2] == s[s.len() - 1]);
        assert(cxx_generate_concat(s.subrange(1, s.len() as int)) == cxx_generate_concat(
            s.subrange(1, s.len() - 1),
        ) + cxx_generate(s[s.len() - 1]));
        assert((cxx_generate(s[0]) + cxx_generate_concat(s.subrange(1, s.len() - 1)))
            + cxx_generate(s[s.len() - 1]) =~= cxx_generate(s[0]) + (cxx_generate_concat(
            s.subrange(1, s.len() - 1),
        ) + cxx_generate(s[s.len() - 1])));
    }
}

/// Dependency before use: hoisting a nested inline declaration always places
/// it strictly before the declaration whose member refers to it, both in the
/// normalized declaration list and in the emitted text. The member itself now
/// refers to the hoisted declaration by name only. This holds at every
/// nesting depth, since it holds of every struct declaration in the tree.
pub proof fn lemma_dependency_before_use(nsl: NamedStatementListV, k: int)
    requires
        wf_struct_body(nsl.child_nodes),
        0 <= k < nsl.child_nodes.len(),
        is_inline_member(nsl.child_nodes[k]),
    ensures
        ({
            let out = spec_transform(ASTNodeV::StructDeclaration(nsl));
            let inner = *nsl.child_nodes[k]->StructMemberDeclaration_0.data_type;
            let parent = out.len() - 1;
            &&& out.len() >= 1
            &&& out[parent] matches ASTNodeV::StructDeclaration(r) && r.name == nsl.name
                && r.child_nodes.len() == nsl.child_nodes.len() && r.child_nodes[k] == (
            ASTNodeV::StructMemberDeclaration(
                StructMemberDeclarationV {
                    name: nsl.child_nodes[k]->StructMemberDeclaration_0.name,
                    data_type: Box::new(
                        ASTNodeV::TypeLiteral(DataTypeV::UserDefined(decl_name(inner))),
                    ),
                },
            ))
            &&& exists|j: int|
                0 <= j < parent && decl_name(#[trigger] out[j]) == decl_name(inner)
                    && cxx_generate_concat(out) == cxx_generate_concat(out.subrange(0, j))
                    + cxx_generate(out[j]) + cxx_generate_concat(out.subrange(j + 1, parent))
                    + cxx_generate(out[parent])
        }),
{
    let out = spec_transform(ASTNodeV::StructDeclaration(nsl));
    let inner = *nsl.child_nodes[k]->StructMemberDeclaration_0.data_type;
    let parent = out.len() - 1;
    let r = ASTNodeV::StructDeclaration(
        NamedStatementListV { name: nsl.name, child_nodes: rewrite_members(nsl.child_nodes) },
    );
    assert(out == spec_hoisted(nsl.child_nodes) + seq![r]);
    assert(out[parent] == r);
    lemma_rewrite_members_index(nsl.child_nodes);
    assert(rewrite_members(nsl.child_nodes)[k] == rewrite_member(nsl.child_nodes[k]));
    lemma_hoisted_contains(nsl.child_nodes, k);
    let j = choose|j: int|
        0 <= j < spec_hoisted(nsl.child_nodes).len() && decl_name(
            #[trigger] spec_hoisted(nsl.child_nodes)[j],
        ) == decl_name(inner);
    assert(out[j] == spec_hoisted(nsl.child_nodes)[j]);
    lemma_concat_split(out, j);
    let tail = out.subrange(j, out.len() as int);
    lemma_concat_head(tail);
    assert(tail[0] == out[j]);
    assert(tail.subrange(1, tail.len() as int) =~= out.subrange(j + 1, out.len() as int));
    lemma_concat_split(out.subrange(j + 1, out.len() as int), parent - (j + 1));
    assert(out.subrange(j + 1, out.len() as int).subrange(0, parent - (j + 1)) =~= out.subrange(
        j + 1,
        parent,
    ));
    let lastpart = out.subrange(j + 1, out.len() as int).subrange(
        parent - (j + 1),
        out.len() - (j + 1),
    );
    assert(lastpart =~= out.subrange(parent, out.len() as int));
    lemma_concat_head(out.subrange(parent, out.len() as int));
    assert(out.subrange(parent, out.len() as int)[0] == out[parent]);
    assert(out.subrange(parent, out.len() as int).subrange(
        1,
        out.subrange(parent, out.len() as int).len() as int,
    ) =~= Seq::<ASTNodeV>::empty());
    assert(cxx_generate(out[parent]) + Seq::<char>::empty() =~= cxx_generate(out[parent]));
    assert(cxx_generate_concat(out) == cxx_generate_concat(out.subrange(0, j)) + (cxx_generate(
        out[j],
    ) + (cxx_generate_concat(out.subrange(j + 1, parent)) + cxx_generate(out[parent]))));
    assert(cxx_generate_concat(out.subrange(0, j)) + (cxx_generate(out[j]) + (cxx_generate_concat(
        out.subrange(j + 1, parent),
    ) + cxx_generate(out[parent]))) =~= cxx_generate_concat(out.subrange(0, j)) + cxx_generate(
        out[j],
    ) + cxx_generate_concat(out.subrange(j + 1, parent)) + cxx_generate(out[parent]));
    assert(decl_name(out[j]) == decl_name(inner) && cxx_generate_concat(out)
        == cxx_generate_concat(out.subrange(0, j)) + cxx_generate(out[j]) + cxx_generate_concat(
        out.subrange(j + 1, parent),
    ) + cxx_generate(out[parent]));
}

/// Normalization leaves no inline declaration behind: every top level
/// declaration it emits for a well-formed declaration is a struct with a
/// flat body, or an enum.
pub proof fn lemma_transform_flat(n: ASTNodeV)
    requires
        wf_decl(n),
    ensures
        forall|j: int|
            0 <= j < spec_transform(n).len() ==> no_inline_decl(#[trigger] spec_transform(n)[j]),
    decreases n, 1int,
{
    match n {
        ASTNodeV::StructDeclaration(nsl) => {
            lemma_hoisted_flat(nsl.child_nodes);
            lemma_rewrite_members_flat(nsl.child_nodes);
            let r = ASTNodeV::StructDeclaration(
                NamedStatementListV { name: nsl.name, child_nodes: rewrite_members(nsl.child_nodes) },
            );
            assert(no_inline_decl(r));
            assert forall|j: int| 0 <= j < spec_transform(n).len() implies no_inline_decl(
                #[trigger] spec_transform(n)[j],
            ) by {
                if j < spec_hoisted(nsl.child_nodes).len() {
                    assert(spec_transform(n)[j] == spec_hoisted(nsl.child_nodes)[j]);
                } else {
                    assert(spec_transform(n)[j] == r);
                }
            }
        },
        _ => {},
    }
}

/// Everything hoisted out of a well-formed struct body is itself free of
/// inline declarations.
proof fn lemma_hoisted_flat(s: Seq<ASTNodeV>)
    requires
        wf_struct_body(s),
    ensures
        forall|j: int|
            0 <= j < spec_hoisted(s).len() ==> no_inline_decl(#[trigger] spec_hoisted(s)[j]),
    decreases s, 0int,
{
    if s.len() > 0 {
        let t = s.subrange(1, s.len() as int);
        lemma_hoisted_flat(t);
        assert(wf_struct_member(s[0]));
        if is_inline_member(s[0]) {
            assert((*s[0]->StructMemberDeclaration_0.data_type) is TypeLiteral || wf_decl(
                *s[0]->StructMemberDeclaration_0.data_type,
            ));
            lemma_transform_flat(*s[0]->StructMemberDeclaration_0.data_type);
        }
        assert forall|j: int| 0 <= j < spec_hoisted(s).len() implies no_inline_decl(
            #[trigger] spec_hoisted(s)[j],
        ) by {
            if j < spec_member_hoists(s[0]).len() {
                assert(spec_hoisted(s)[j] == spec_member_hoists(s[0])[j]);
                if is_inline_member(s[0]) {
                    assert(spec_member_hoists(s[0])[j] == spec_transform(
                        *s[0]->StructMemberDeclaration_0.data_type,
                    )[j]);
                }
            } else {
                assert(spec_hoisted(s)[j] == spec_hoisted(t)[j - spec_member_hoists(s[0]).len()]);
            }
        }
    }
}

/// Rewriting a well-formed struct body leaves only plain members: every
/// rewritten member's type is a type literal.
proof fn lemma_rewrite_members_flat(s: Seq<ASTNodeV>)
    requires
        wf_struct_body(s),
    ensures
        flat_struct_body(rewrite_members(s)),
    decreases s.len(),
{
    if s.len() > 0 {
        let t = s.subrange(1, s.len() as int);
        lemma_rewrite_members_flat(t);
        assert(wf_struct_member(s[0]));
        assert(s[0] is StructMemberDeclaration);
        assert(rewrite_member(s[0]) matches ASTNodeV::StructMemberDeclaration(smd) && (
        *smd.data_type) is TypeLiteral);
        assert(forall|k: int|
            1 <= k < rewrite_members(s).len() ==> rewrite_members(s)[k] == rewrite_members(t)[k
                - 1]);
    }
}

/// The spelling of a data type in the generated C++.
pub open spec fn cxx_type_name(t: DataTypeV) -> Seq<char>
    decreases t,
{
    match t {
        DataTypeV::U8 => "std::uint8_t"@,
        DataTypeV::I8 => "std::int8_t"@,
        DataTypeV::U16 => "std::uint16_t"@,
        DataTypeV::I16 => "std::int16_t"@,
        DataTypeV::U32 => "std::uint32_t"@,
        DataTypeV::I32 => "std::int32_t"@,
        DataTypeV::U64 => "std::uint64_t"@,
        DataTypeV::I64 => "std::int64_t"@,
        DataTypeV::F32 => "float"@,
        DataTypeV::F64 => "double"@,
        DataTypeV::Char => "char"@,
        DataTypeV::String => "std::string"@,
        DataTypeV::Bool => "bool"@,
        DataTypeV::Option(inner) => "std::optional<"@ + cxx_type_name(*inner) + ">"@,
        DataTypeV::Array(inner) => "std::vector<"@ + cxx_type_name(*inner) + ">"@,
        DataTypeV::UserDefined(name) => name,
    }
}

/// The text that rendering one node emits: a struct is a brace-delimited
/// aggregate of `type name;` members, an enum is a comma-separated label
/// list, and a data definition is its children's renderings, concatenated.
pub open spec fn cxx_generate(n: ASTNodeV) -> Seq<char>
    decreases n,
{
    match n {
        ASTNodeV::StructDeclaration(nsl) => "struct "@ + nsl.name + " { "@ + cxx_generate_concat(
            nsl.child_nodes,
        ) + " };"@,
        ASTNodeV::EnumDeclaration(nsl) => "enum class "@ + nsl.name + " { "@ + cxx_generate_join(
            nsl.child_nodes,
        ) + " };"@,
        ASTNodeV::StructMemberDeclaration(smd) => cxx_generate(*smd.data_type) + " "@ + smd.name
            + ";"@,
        ASTNodeV::EnumMemberDeclaration(emd) => emd.name,
        ASTNodeV::TypeLiteral(dt) => cxx_type_name(dt),
        ASTNodeV::DataDefinition(dd) => cxx_generate_concat(dd.child_nodes),
    }
}

/// The renderings of a sequence of nodes, concatenated in order.
pub open spec fn cxx_generate_concat(s: Seq<ASTNodeV>) -> Seq<char>
    decreases s,
{
    if s.len() == 0 {
        Seq::empty()
    } else {
        cxx_generate_concat(s.subrange(0, s.len() - 1)) + cxx_generate(s[s.len() - 1])
    }
}

/// The renderings of a sequence of nodes, joined with commas.
pub open spec fn cxx_generate_join(s: Seq<ASTNodeV>) -> Seq<char>
    decreases s,
{
    if s.len() == 0 {
        Seq::empty()
    } else if s.len() == 1 {
        cxx_generate(s[0])
    } else {
        cxx_generate_join(s.subrange(0, s.len() - 1)) + ","@ + cxx_generate(s[s.len() - 1])
    }
}

/// Main C++ generation function. Takes an AST, and returns the generated code.
/// # Parameters
/// ast - The abstract syntax tree from which to generate the code. It is
/// assumed to be a valid data definition AST.
/// # Return
/// The generated C++ code: the rendering of the normalized tree.
pub fn generate_code(ast: &ASTNode) -> (r: String)
    ensures
        r@ == cxx_generate(spec_transform_ast(ast@)),
{
    let new_ast = CXXASTTransformer::transform_ast(ast);
    generate(&new_ast)
}

/// The structural C++ backend as a compilation target. The compilation info
/// is not used: this backend emits no preamble banner, and normalization and
/// emission are total over any AST, so generation always succeeds.
pub struct CXXGenerator;

impl crate::compilation_target::CompilationTarget for CXXGenerator {
    open spec fn spec_generate_code(
        &self,
        ast: ASTNodeV,
        info: crate::compilation_target::CompilationInfoV,
    ) -> Result<Seq<char>, crate::compilation_target::CompilationErrorV> {
        Ok(cxx_generate(spec_transform_ast(ast)))
    }

    fn generate_code(
        &self,
        ast: &ASTNode,
        compilation_info: &crate::compilation_target::CompilationInfo,
    ) -> (r: Result<String, crate::compilation_target::CompilationError>) {
        Ok(generate_code(ast))
    }
}

/// Turns the transformed AST into a string of valid C++.
#[verifier::loop_isolation(false)]
pub fn generate(ast: &ASTNode) -> (r: String)
    ensures
        r@ == cxx_generate(ast@),
    decreases *ast,
{
    match ast {
        ASTNode::StructDeclaration(struct_definition) => {
            let ghost members_v = nodes_view(struct_definition.child_nodes@);
            proof {
                lemma_nodes_view_len(struct_definition.child_nodes@);
            }
            let mut body = String::new();
            let mut i: usize = 0;
            while i < struct_definition.child_nodes.len()
                invariant
                    i <= struct_definition.child_nodes@.len(),
                    members_v == nodes_view(struct_definition.child_nodes@),
                    members_v.len() == struct_definition.child_nodes@.len(),
                    forall|k: int|
                        0 <= k < members_v.len() ==> members_v[k] == view_node(
                            struct_definition.child_nodes@[k],
                        ),
                    body@ == cxx_generate_concat(members_v.subrange(0, i as int)),
                decreases struct_definition.child_nodes@.len() - i,
            {
                proof {
                    assert(*ast == ASTNode::StructDeclaration(*struct_definition));
                    assert(decreases_to!(*ast => *struct_definition));
                    assert(decreases_to!(*struct_definition => struct_definition.child_nodes@));
                    assert(decreases_to!(struct_definition.child_nodes@ => struct_definition.child_nodes@[i as int]));
                    assert(decreases_to!(*ast => struct_definition.child_nodes@[i as int]));
                }
                let piece = generate(&struct_definition.child_nodes[i]);
                body.append(piece.as_str());
                proof {
                    let cur = members_v.subrange(0, i as int + 1);
                    assert(cur.subrange(0, cur.len() - 1) =~= members_v.subrange(0, i as int));
                    assert(cur[cur.len() - 1] == members_v[i as int]);
                }
                i = i + 1;
            }
            proof {
                assert(members_v.subrange(0, members_v.len() as int) =~= members_v);
            }
            let mut out = String::from_str("struct ");
            out.append(struct_definition.name.as_str());
            out.append(" { ");
            out.append(body.as_str());
            out.append(" };");
            out
        },
        ASTNode::EnumDeclaration(enum_declaration) => {
            let ghost members_v = nodes_view(enum_declaration.child_nodes@);
            proof {
                lemma_nodes_view_len(enum_declaration.child_nodes@);
            }
            let mut body = String::new();
            let mut i: usize = 0;
            while i < enum_declaration.child_nodes.len()
                invariant
                    i <= enum_declaration.child_nodes@.len(),
                    members_v == nodes_view(enum_declaration.child_nodes@),
                    members_v.len() == enum_declaration.child_nodes@.len(),
                    forall|k: int|
                        0 <= k < members_v.len() ==> members_v[k] == view_node(
                            enum_declaration.child_nodes@[k],
                        ),
                    body@ == cxx_generate_join(members_v.subrange(0, i as int)),
                decreases enum_declaration.child_nodes@.len() - i,
            {
                proof {
                    assert(*ast == ASTNode::EnumDeclaration(*enum_declaration));
                    assert(decreases_to!(*ast => *enum_declaration));
                    assert(decreases_to!(*enum_declaration => enum_declaration.child_nodes@));
                    assert(decreases_to!(enum_declaration.child_nodes@ => enum_declaration.child_nodes@[i as int]));
                    assert(decreases_to!(*ast => enum_declaration.child_nodes@[i as int]));
                }
                if i > 0 {
                    body.append(",");
                }
                let piece = generate(&enum_declaration.child_nodes[i]);
                body.append(piece.as_str());
                proof {
                    let cur = members_v.subrange(0, i as int + 1);
                    assert(cur.subrange(0, cur.len() - 1) =~= members_v.subrange(0, i as int));
                    assert(cur[cur.len() - 1] == members_v[i as int]);
                    if i == 0 {
                        assert(body@ == Seq::<char>::empty() + Seq::<char>::empty() + cxx_generate(
                            members_v[0],
                        ));
                        assert(body@ =~= cxx_generate_join(cur));
                    }
                }
                i = i + 1;
            }
            proof {
                assert(members_v.subrange(0, members_v.len() as int) =~= members_v);
            }
            let mut out = String::from_str("enum class ");
            out.append(enum_declaration.name.as_str());
            out.append(" { ");
            out.append(body.as_str());
            out.append(" };");
            out
        },
        ASTNode::StructMemberDeclaration(member) => {
            proof {
                assert(decreases_to!(*ast => *member.data_type));
            }
            let mut out = generate(&*member.data_type);
            out.append(" ");
            out.append(member.name.as_str());
            out.append(";");
            out
        },
        ASTNode::EnumMemberDeclaration(member) => member.name.clone(),
        ASTNode::TypeLiteral(literal_type) => generate_type_name(literal_type),
        ASTNode::DataDefinition(def) => {
            let ghost children_v = nodes_view(def.child_nodes@);
            proof {
                lemma_nodes_view_len(def.child_nodes@);
            }
            let mut body = String::new();
            let mut i: usize = 0;
            while i < def.child_nodes.len()
                invariant
                    i <= def.child_nodes@.len(),
                    children_v == nodes_view(def.child_nodes@),
                    children_v.len() == def.child_nodes@.len(),
                    forall|k: int|
                        0 <= k < children_v.len() ==> children_v[k] == view_node(
                            def.child_nodes@[k],
                        ),
                    body@ == cxx_generate_concat(children_v.subrange(0, i as int)),
                decreases def.child_nodes@.len() - i,
            {
                proof {
                    assert(*ast == ASTNode::DataDefinition(*def));
                    assert(decreases_to!(*ast => *def));
                    assert(decreases_to!(*def => def.child_nodes@));
                    assert(decreases_to!(def.child_nodes@ => def.child_nodes@[i as int]));
                    assert(decreases_to!(*ast => def.child_nodes@[i as int]));
                }
                let piece = generate(&def.child_nodes[i]);
                body.append(piece.as_str());
                proof {
                    let cur = children_v.subrange(0, i as int + 1);
                    assert(cur.subrange(0, cur.len() - 1) =~= children_v.subrange(0, i as int));
                    assert(cur[cur.len() - 1] == children_v[i as int]);
                }
                i = i + 1;
            }
            proof {
                assert(children_v.subrange(0, children_v.len() as int) =~= children_v);
            }
            body
        },
    }
}

/// Generates the type name for the supplied data type. The standard fixed
/// width numeric types are used for the integer kinds.
///
/// For the optional and array types, the inner types are generated
/// recursively.
fn generate_type_name(data_type: &DataType) -> (r: String)
    ensures
        r@ == cxx_type_name(data_type@),
    decreases *data_type,
{
    match data_type {
        DataType::U8 => String::from_str("std::uint8_t"),
        DataType::I8 => String::from_str("std::int8_t"),
        DataType::U16 => String::from_str("std::uint16_t"),
        DataType::I16 => String::from_str("std::int16_t"),
        DataType::U32 => String::from_str("std::uint32_t"),
        DataType::I32 => String::from_str("std::int32_t"),
        DataType::U64 => String::from_str("std::uint64_t"),
        DataType::I64 => String::from_str("std::int64_t"),
        DataType::F32 => String::from_str("float"),
        DataType::F64 => String::from_str("double"),
        DataType::Char => String::from_str("char"),
        DataType::String => String::from_str("std::string"),
        DataType::Bool => String::from_str("bool"),
        DataType::Option(inner_type) => {
            proof {
                assert(decreases_to!(*data_type => **inner_type));
            }
            let inner = generate_type_name(&*inner_type);
            let mut out = String::from_str("std::optional<");
            out.append(inner.as_str());
            out.append(">");
            out
        },
        DataType::Array(inner_type) => {
            proof {
                assert(decreases_to!(*data_type => **inner_type));
            }
            let inner = generate_type_name(&*inner_type);
            let mut out = String::from_str("std::vector<");
            out.append(inner.as_str());
            out.append(">");
            out
        },
        DataType::UserDefined(name) => name.clone(),
    }
}

/// Helper struct, made to just keep the transformed AST in memory whilst the
/// function recursively transforms it.
pub struct CXXASTTransformer {
    new_ast: DataDefinition,
}

impl CXXASTTransformer {
    /// Main interface for the CXXASTTransformer.
    pub fn transform_ast(ast: &ASTNode) -> (r: ASTNode)
        ensures
            r@ == spec_transform_ast(ast@),
    {
        let mut transformer = Self { new_ast: DataDefinition { child_nodes: Vec::new() } };
        transformer.transform_ast_impl(ast);
        proof {
            assert(Seq::<ASTNodeV>::empty() + spec_transform(view_node(*ast)) =~= spec_transform(
                view_node(*ast),
            ));
        }
        ASTNode::DataDefinition(transformer.new_ast)
    }

    /// Does the actual transformation. The transformation is only taking
    /// inline struct and enum declarations out of line, the AST is otherwise
    /// untouched.
    #[verifier::loop_isolation(false)]
    fn transform_ast_impl(&mut self, ast: &ASTNode)
        ensures
            nodes_view(final(self).new_ast.child_nodes@) == nodes_view(
                old(self).new_ast.child_nodes@,
            ) + spec_transform(ast@),
        decreases *ast,
    {
        let ghost base = nodes_view(old(self).new_ast.child_nodes@);
        match ast {
            ASTNode::StructDeclaration(struct_declaration) => {
                let ghost members_v = nodes_view(struct_declaration.child_nodes@);
                proof {
                    lemma_nodes_view_len(struct_declaration.child_nodes@);
                }
                let mut pushed_struct = NamedStatementList::new(struct_declaration.name.clone());
                let mut i: usize = 0;
                while i < struct_declaration.child_nodes.len()
                    invariant
                        i <= struct_declaration.child_nodes@.len(),
                        members_v == nodes_view(struct_declaration.child_nodes@),
                        members_v.len() == struct_declaration.child_nodes@.len(),
                        forall|k: int|
                            0 <= k < members_v.len() ==> members_v[k] == view_node(
                                struct_declaration.child_nodes@[k],
                            ),
                        nodes_view(self.new_ast.child_nodes@) == base + spec_hoisted(
                            members_v.subrange(0, i as int),
                        ),
                        pushed_struct@.name == struct_declaration.name@,
                        pushed_struct@.child_nodes == rewrite_members(
                            members_v.subrange(0, i as int),
                        ),
                    decreases struct_declaration.child_nodes@.len() - i,
                {
                    let ghost prefix = members_v.subrange(0, i as int);
                    let ghost m = members_v[i as int];
                    let ghost prev_new = nodes_view(self.new_ast.child_nodes@);
                    let ghost prev_pushed = pushed_struct.child_nodes@;
                    let member = &struct_declaration.child_nodes[i];
                    match member {
                        ASTNode::StructMemberDeclaration(member_declaration) => {
                            proof {
                                assert(*ast == ASTNode::StructDeclaration(*struct_declaration));
                                assert(decreases_to!(*ast => *struct_declaration));
                                assert(decreases_to!(*struct_declaration => struct_declaration.child_nodes@));
                                assert(decreases_to!(struct_declaration.child_nodes@ => struct_declaration.child_nodes@[i as int]));
                                assert(decreases_to!(*ast => struct_declaration.child_nodes@[i as int]));
                            }
                            match &*member_declaration.data_type {
                                ASTNode::StructDeclaration(inline_struct_declaration) => {
                                    self.transform_ast_impl(&*member_declaration.data_type);
                                    let new_member = StructMemberDeclaration {
                                        name: member_declaration.name.clone(),
                                        data_type: Box::new(
                                            ASTNode::TypeLiteral(
                                                DataType::UserDefined(
                                                    inline_struct_declaration.name.clone(),
                                                ),
                                            ),
                                        ),
                                    };
                                    let node = ASTNode::StructMemberDeclaration(new_member);
                                    let ghost nodeg = node;
                                    pushed_struct.child_nodes.push(node);
                                    proof {
                                        reveal_with_fuel(view_node, 3);
                                        lemma_nodes_view_push(prev_pushed, nodeg);
                                        assert(*member == ASTNode::StructMemberDeclaration(*member_declaration));
                                        assert(*member_declaration.data_type == ASTNode::StructDeclaration(*inline_struct_declaration));
                                        assert(m == view_node(*member));
                                        assert(view_node(*member_declaration.data_type) is StructDeclaration);
                                        assert(view_node(*member_declaration.data_type)->StructDeclaration_0.name == inline_struct_declaration.name@);
                                        assert(nodeg@ == rewrite_member(m));
                                    }
                                },
                                ASTNode::EnumDeclaration(inline_enum_declaration) => {
                                    self.transform_ast_impl(&*member_declaration.data_type);
                                    let new_member = StructMemberDeclaration {
                                        name: member_declaration.name.clone(),
                                        data_type: Box::new(
                                            ASTNode::TypeLiteral(
                                                DataType::UserDefined(
                                                    inline_enum_declaration.name.clone(),
                                                ),
                                            ),
                                        ),
                                    };
                                    let node = ASTNode::StructMemberDeclaration(new_member);
                                    let ghost nodeg = node;
                                    pushed_struct.child_nodes.push(node);
                                    proof {
                                        reveal_with_fuel(view_node, 3);
                                        lemma_nodes_view_push(prev_pushed, nodeg);
                                        assert(*member == ASTNode::StructMemberDeclaration(*member_declaration));
                                        assert(*member_declaration.data_type == ASTNode::EnumDeclaration(*inline_enum_declaration));
                                        assert(m == view_node(*member));
                                        assert(view_node(*member_declaration.data_type) is EnumDeclaration);
                                        assert(view_node(*member_declaration.data_type)->EnumDeclaration_0.name == inline_enum_declaration.name@);
                                        assert(nodeg@ == rewrite_member(m));
                                    }
                                },
                                _ => {
                                    let node = member.clone();
                                    let ghost nodeg = node;
                                    pushed_struct.child_nodes.push(node);
                                    proof {
                                        lemma_nodes_view_push(prev_pushed, nodeg);
                                        assert(*member == ASTNode::StructMemberDeclaration(*member_declaration));
                                        assert(m == view_node(*member));
                                        assert(nodeg@ == m);
                                        assert(nodeg@ == rewrite_member(m));
                                    }
                                },
                            }
                        },
                        _ => {},
                    }
                    proof {
                        lemma_hoisted_snoc(prefix, m);
                        lemma_rewrite_members_snoc(prefix, m);
                        assert(prefix.push(m) =~= members_v.subrange(0, i as int + 1));
                        if m is StructMemberDeclaration {
                            assert(pushed_struct.child_nodes@ == prev_pushed.push(
                                pushed_struct.child_nodes@.last(),
                            ));
                        }
                        assert(nodes_view(self.new_ast.child_nodes@) == base + spec_hoisted(
                            members_v.subrange(0, i as int + 1),
                        ));
                        assert(pushed_struct@.child_nodes == rewrite_members(
                            members_v.subrange(0, i as int + 1),
                        ));
                    }
                    i = i + 1;
                }
                proof {
                    assert(members_v.subrange(0, members_v.len() as int) =~= members_v);
                }
                let ghost prev_vec = self.new_ast.child_nodes@;
                let ghost pushedg = pushed_struct;
                self.new_ast.child_nodes.push(ASTNode::StructDeclaration(pushed_struct));
                proof {
                    lemma_nodes_view_push(prev_vec, ASTNode::StructDeclaration(pushedg));
                    assert(view_node(ASTNode::StructDeclaration(pushedg))
                        == ASTNodeV::StructDeclaration(
                        NamedStatementListV {
                            name: struct_declaration.name@,
                            child_nodes: rewrite_members(members_v),
                        },
                    ));
                    assert((base + spec_hoisted(members_v)).push(
                        ASTNodeV::StructDeclaration(
                            NamedStatementListV {
                                name: struct_declaration.name@,
                                child_nodes: rewrite_members(members_v),
                            },
                        ),
                    ) =~= base + spec_transform(ast@));
                }
            },
            ASTNode::EnumDeclaration(enum_declaration) => {
                let ghost prev_vec = self.new_ast.child_nodes@;
                let node = ASTNode::EnumDeclaration(enum_declaration.clone());
                let ghost nodeg = node;
                self.new_ast.child_nodes.push(node);
                proof {
                    lemma_nodes_view_push(prev_vec, nodeg);
                    assert(nodeg@ == ASTNodeV::EnumDeclaration(enum_declaration@));
                    assert(base.push(ASTNodeV::EnumDeclaration(enum_declaration@)) =~= base
                        + spec_transform(ast@));
                }
            },
            ASTNode::DataDefinition(data) => {
                let ghost children_v = nodes_view(data.child_nodes@);
                proof {
                    lemma_nodes_view_len(data.child_nodes@);
                }
                let mut i: usize = 0;
                while i < data.child_nodes.len()
                    invariant
                        i <= data.child_nodes@.len(),
                        children_v == nodes_view(data.child_nodes@),
                        children_v.len() == data.child_nodes@.len(),
                        forall|k: int|
                            0 <= k < children_v.len() ==> children_v[k] == view_node(
                                data.child_nodes@[k],
                            ),
                        nodes_view(self.new_ast.child_nodes@) == base + spec_transform_seq(
                            children_v.subrange(0, i as int),
                        ),
                    decreases data.child_nodes@.len() - i,
                {
                    let ghost prefix = children_v.subrange(0, i as int);
                    proof {
                        assert(*ast == ASTNode::DataDefinition(*data));
                        assert(decreases_to!(*ast => *data));
                        assert(decreases_to!(*data => data.child_nodes@));
                        assert(decreases_to!(data.child_nodes@ => data.child_nodes@[i as int]));
                        assert(decreases_to!(*ast => data.child_nodes@[i as int]));
                    }
                    let child = &data.child_nodes[i];
                    self.transform_ast_impl(child);
                    proof {
                        lemma_transform_seq_snoc(prefix, children_v[i as int]);
                        assert(prefix.push(children_v[i as int]) =~= children_v.subrange(
                            0,
                            i as int + 1,
                        ));
                    }
                    i = i + 1;
                }
                proof {
                    assert(children_v.subrange(0, children_v.len() as int) =~= children_v);
                }
            },
            _ => {
                proof {
                    assert(base + Seq::<ASTNodeV>::empty() =~= base);
                }
            },
        }
    }
}

} // verus!
