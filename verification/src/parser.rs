//! Recursive-descent parsing: consumes the lexer's token stream and produces
//! an abstract syntax tree rooted at a data definition node.
//!
//! The grammar, informally:
//! ```text
//! DataDefinition   := (StructDecl | EnumDecl)*
//! StructDecl       := "struct" Ident "{" Member* "}"
//! EnumDecl         := "enum" Ident "{" Member* "}"
//! Member           := Ident ( ":" TypeDecl | ) ","?      // no colon => enum member
//! TypeDecl         := PrimitiveKeyword
//!                    | "option" "(" TypeDecl ")"
//!                    | "array"  "(" TypeDecl ")"
//!                    | StructDecl | EnumDecl
//!                    | Ident                              // user-defined
//! ```

use crate::lexer::{Token, TokenList, TokenType, TokenTypeV, TokenV, tokens_view};
use vstd::prelude::*;

verus! {

/// Node type for our Abstract Syntax Tree (AST).
#[derive(Debug, PartialEq, Eq)]
pub enum ASTNode {
    StructDeclaration(NamedStatementList),
    EnumDeclaration(NamedStatementList),
    StructMemberDeclaration(StructMemberDeclaration),
    EnumMemberDeclaration(EnumMemberDeclaration),
    TypeLiteral(DataType),
    DataDefinition(DataDefinition),
}

/// All of our supported data types, including types defined by the user (e.g.
/// a struct or enum). During parsing, we do not check whether a user defined
/// type has actually been defined.
#[derive(Debug, PartialEq, Eq)]
pub enum DataType {
    U8,
    I8,
    U16,
    I16,
    U32,
    I32,
    U64,
    I64,
    F32,
    F64,
    Char,
    String,
    Bool,
    Option(Box<DataType>),
    Array(Box<DataType>),
    UserDefined(String),
}

/// Data required to define a struct member.
/// `data_type` takes an ASTNode to allow inline definition of a struct or enum.
#[derive(Debug, PartialEq, Eq)]
pub struct StructMemberDeclaration {
    pub name: String,
    pub data_type: Box<ASTNode>,
}

/// Simple enum member declaration; only has a name (we do not emulate an
/// underlying type).
#[derive(Debug, PartialEq, Eq)]
pub struct EnumMemberDeclaration {
    pub name: String,
}

/// A named statement list - either a struct or an enum.
#[derive(Debug, PartialEq, Eq)]
pub struct NamedStatementList {
    pub name: String,
    pub child_nodes: Vec<ASTNode>,
}

/// Root node for our AST.
#[derive(Debug, PartialEq, Eq)]
pub struct DataDefinition {
    pub child_nodes: Vec<ASTNode>,
}

/// Simple parsing error type.
/// # Meanings
/// UnexpectedToken - an out of place token was found while parsing,
/// UnexpectedEndOfTokens - the tokens ended before an ASTNode was finished parsing.
#[derive(Debug, Clone, PartialEq, Eq, Structural)]
pub enum ParseError {
    UnexpectedToken,
    UnexpectedEndOfTokens,
}

/// The mathematical value of an [`ASTNode`].
pub enum ASTNodeV {
    StructDeclaration(NamedStatementListV),
    EnumDeclaration(NamedStatementListV),
    StructMemberDeclaration(StructMemberDeclarationV),
    EnumMemberDeclaration(EnumMemberDeclarationV),
    TypeLiteral(DataTypeV),
    DataDefinition(DataDefinitionV),
}

/// The mathematical value of a [`DataType`].
pub enum DataTypeV {
    U8,
    I8,
    U16,
    I16,
    U32,
    I32,
    U64,
    I64,
    F32,
    F64,
    Char,
    String,
    Bool,
    Option(Box<DataTypeV>),
    Array(Box<DataTypeV>),
    UserDefined(Seq<char>),
}

/// The mathematical value of a [`StructMemberDeclaration`].
pub struct StructMemberDeclarationV {
    pub name: Seq<char>,
    pub data_type: Box<ASTNodeV>,
}

/// The mathematical value of an [`EnumMemberDeclaration`].
pub struct EnumMemberDeclarationV {
    pub name: Seq<char>,
}

/// The mathematical value of a [`NamedStatementList`].
pub struct NamedStatementListV {
    pub name: Seq<char>,
    pub child_nodes: Seq<ASTNodeV>,
}

/// The mathematical value of a [`DataDefinition`].
pub struct DataDefinitionV {
    pub child_nodes: Seq<ASTNodeV>,
}

/// The mathematical value of a [`DataType`], structure for structure.
pub open spec fn view_data_type(dt: DataType) -> DataTypeV
    decreases dt,
{
    match dt {
        DataType::U8 => DataTypeV::U8,
        DataType::I8 => DataTypeV::I8,
        DataType::U16 => DataTypeV::U16,
        DataType::I16 => DataTypeV::I16,
        DataType::U32 => DataTypeV::U32,
        DataType::I32 => DataTypeV::I32,
        DataType::U64 => DataTypeV::U64,
        DataType::I64 => DataTypeV::I64,
        DataType::F32 => DataTypeV::F32,
        DataType::F64 => DataTypeV::F64,
        DataType::Char => DataTypeV::Char,
        DataType::String => DataTypeV::String,
        DataType::Bool => DataTypeV::Bool,
        DataType::Option(inner) => DataTypeV::Option(Box::new(view_data_type(*inner))),
        DataType::Array(inner) => DataTypeV::Array(Box::new(view_data_type(*inner))),
        DataType::UserDefined(name) => DataTypeV::UserDefined(name@),
    }
}

impl View for DataType {
    type V = DataTypeV;

    open spec fn view(&self) -> DataTypeV {
        view_data_type(*self)
    }
}

/// The mathematical value of an [`ASTNode`], structure for structure.
pub open spec fn view_node(n: ASTNode) -> ASTNodeV
    decreases n, 1int,
{
    match n {
        ASTNode::StructDeclaration(nsl) => ASTNodeV::StructDeclaration(
            NamedStatementListV { name: nsl.name@, child_nodes: nodes_view(nsl.child_nodes@) },
        ),
        ASTNode::EnumDeclaration(nsl) => ASTNodeV::EnumDeclaration(
            NamedStatementListV { name: nsl.name@, child_nodes: nodes_view(nsl.child_nodes@) },
        ),
        ASTNode::StructMemberDeclaration(smd) => ASTNodeV::StructMemberDeclaration(
            StructMemberDeclarationV {
                name: smd.name@,
                data_type: Box::new(view_node(*smd.data_type)),
            },
        ),
        ASTNode::EnumMemberDeclaration(emd) => ASTNodeV::EnumMemberDeclaration(
            EnumMemberDeclarationV { name: emd.name@ },
        ),
        ASTNode::TypeLiteral(dt) => ASTNodeV::TypeLiteral(view_data_type(dt)),
        ASTNode::DataDefinition(dd) => ASTNodeV::DataDefinition(
            DataDefinitionV { child_nodes: nodes_view(dd.child_nodes@) },
        ),
    }
}

/// The views of a sequence of AST nodes, element by element.
pub open spec fn nodes_view(s: Seq<ASTNode>) -> Seq<ASTNodeV>
    decreases s, 0int,
{
    if s.len() == 0 {
        Seq::empty()
    } else {
        seq![view_node(s[0])] + nodes_view(s.subrange(1, s.len() as int))
    }
}

impl View for ASTNode {
    type V = ASTNodeV;

    open spec fn view(&self) -> ASTNodeV {
        view_node(*self)
    }
}

impl View for NamedStatementList {
    type V = NamedStatementListV;

    open spec fn view(&self) -> NamedStatementListV {
        NamedStatementListV { name: self.name@, child_nodes: nodes_view(self.child_nodes@) }
    }
}

impl View for StructMemberDeclaration {
    type V = StructMemberDeclarationV;

    open spec fn view(&self) -> StructMemberDeclarationV {
        StructMemberDeclarationV {
            name: self.name@,
            data_type: Box::new(view_node(*self.data_type)),
        }
    }
}

impl View for EnumMemberDeclaration {
    type V = EnumMemberDeclarationV;

    open spec fn view(&self) -> EnumMemberDeclarationV {
        EnumMemberDeclarationV { name: self.name@ }
    }
}

impl View for DataDefinition {
    type V = DataDefinitionV;

    open spec fn view(&self) -> DataDefinitionV {
        DataDefinitionV { child_nodes: nodes_view(self.child_nodes@) }
    }
}

/// A node sequence's views, taken one element at a time from the back.
pub proof fn lemma_nodes_view_push(s: Seq<ASTNode>, n: ASTNode)
    ensures
        nodes_view(s.push(n)) == nodes_view(s).push(view_node(n)),
    decreases s.len(),
{
    if s.len() == 0 {
        assert(s.push(n).subrange(1, s.push(n).len() as int) =~= Seq::<ASTNode>::empty());
        assert(s.push(n)[0] == n);
        assert(nodes_view(Seq::<ASTNode>::empty()) == Seq::<ASTNodeV>::empty());
        assert(nodes_view(s.push(n)) == seq![view_node(n)] + Seq::<ASTNodeV>::empty());
        assert(nodes_view(s) == Seq::<ASTNodeV>::empty());
        assert(nodes_view(s.push(n)) =~= nodes_view(s).push(view_node(n)));
    } else {
        let t = s.subrange(1, s.len() as int);
        assert(s.push(n).subrange(1, s.push(n).len() as int) =~= t.push(n));
        assert(s.push(n)[0] == s[0]);
        lemma_nodes_view_push(t, n);
        assert(nodes_view(s.push(n)) == seq![view_node(s[0])] + nodes_view(t).push(view_node(n)));
        assert(nodes_view(s) == seq![view_node(s[0])] + nodes_view(t));
        assert(seq![view_node(s[0])] + nodes_view(t).push(view_node(n)) =~= (seq![view_node(s[0])]
            + nodes_view(t)).push(view_node(n)));
    }
}

/// The length of a node sequence's views.
pub proof fn lemma_nodes_view_len(s: Seq<ASTNode>)
    ensures
        nodes_view(s).len() == s.len(),
        forall|k: int| 0 <= k < s.len() ==> nodes_view(s)[k] == view_node(s[k]),
    decreases s.len(),
{
    if s.len() > 0 {
        lemma_nodes_view_len(s.subrange(1, s.len() as int));
    }
}

impl core::default::Default for DataDefinition {
    /// A data definition with no declarations yet.
    fn default() -> (r: Self)
        ensures
            r@ == (DataDefinitionV { child_nodes: Seq::<ASTNodeV>::empty() }),
    {
        DataDefinition { child_nodes: Vec::new() }
    }
}

impl NamedStatementList {
    /// A named statement list with no members yet.
    pub fn new(name: String) -> (r: Self)
        ensures
            r@ == (NamedStatementListV { name: name@, child_nodes: Seq::<ASTNodeV>::empty() }),
    {
        Self { name, child_nodes: Vec::new() }
    }
}

/// Keeps a parser position inside known bounds. The parsing functions always
/// move forward and never past the end of the tokens (the executable parser
/// proves as much); the bound makes that plain to the termination checker of
/// the defining functions below.
pub open spec fn clamp(lo: int, j: int, hi: int) -> int {
    if j < lo {
        lo
    } else if j > hi {
        hi
    } else {
        j
    }
}

/// Puts one parsed member in front of the outcome of parsing the members
/// after it.
pub open spec fn compose_member(m: ASTNodeV, r: (Result<Seq<ASTNodeV>, ParseError>, int)) -> (
    Result<Seq<ASTNodeV>, ParseError>,
    int,
) {
    match r {
        (Ok(rest), j) => (Ok(seq![m] + rest), j),
        (Err(e), j) => (Err(e), j),
    }
}

/// Puts finished members in front of the outcome of parsing the members after
/// them.
pub open spec fn compose_children(acc: Seq<ASTNodeV>, r: (Result<Seq<ASTNodeV>, ParseError>, int))
    -> (Result<Seq<ASTNodeV>, ParseError>, int) {
    match r {
        (Ok(rest), j) => (Ok(acc + rest), j),
        (Err(e), j) => (Err(e), j),
    }
}

/// What parsing one top level declaration returns when entered at token `i`:
/// a struct or enum declaration, together with the position just after it.
/// The keyword is consumed first; anything else is an unexpected token.
pub open spec fn spec_parse_decl(ts: Seq<TokenV>, i: int) -> (Result<ASTNodeV, ParseError>, int)
    decreases ts.len() - i, 0int,
{
    if i >= ts.len() {
        (Err(ParseError::UnexpectedEndOfTokens), i)
    } else {
        match ts[i].token_type {
            TokenTypeV::Struct => {
                let (r, j) = spec_parse_named_statement_list(ts, i + 1);
                (
                    match r {
                        Ok(nsl) => Ok(ASTNodeV::StructDeclaration(nsl)),
                        Err(e) => Err(e),
                    },
                    j,
                )
            },
            TokenTypeV::Enum => {
                let (r, j) = spec_parse_named_statement_list(ts, i + 1);
                (
                    match r {
                        Ok(nsl) => Ok(ASTNodeV::EnumDeclaration(nsl)),
                        Err(e) => Err(e),
                    },
                    j,
                )
            },
            _ => (Err(ParseError::UnexpectedToken), i + 1),
        }
    }
}

/// What parsing a named statement list returns: the name, an opening brace,
/// the members, and a closing brace.
pub open spec fn spec_parse_named_statement_list(ts: Seq<TokenV>, i: int) -> (
    Result<NamedStatementListV, ParseError>,
    int,
)
    decreases ts.len() - i, 0int,
{
    if i >= ts.len() {
        (Err(ParseError::UnexpectedEndOfTokens), i)
    } else {
        match ts[i].token_type {
            TokenTypeV::Identifier(name) => {
                if i + 1 >= ts.len() {
                    (Err(ParseError::UnexpectedEndOfTokens), i + 1)
                } else if !(ts[i + 1].token_type == TokenTypeV::LCurly) {
                    (Err(ParseError::UnexpectedToken), i + 2)
                } else {
                    let (cr, j0) = spec_parse_children(ts, i + 2);
                    let j = clamp(i + 2, j0, ts.len() as int);
                    match cr {
                        Err(e) => (Err(e), j),
                        Ok(children) => {
                            if j >= ts.len() {
                                (Err(ParseError::UnexpectedEndOfTokens), j)
                            } else if !(ts[j].token_type == TokenTypeV::RCurly) {
                                (Err(ParseError::UnexpectedToken), j + 1)
                            } else {
                                (Ok(NamedStatementListV { name, child_nodes: children }), j + 1)
                            }
                        },
                    }
                }
            },
            _ => (Err(ParseError::UnexpectedToken), i + 1),
        }
    }
}

/// What parsing the member list of a named statement list returns. A member
/// is a name; a colon after it selects a struct member with a type, a comma
/// or the closing brace selects a bare enum member. The list ends as soon as
/// the next token is not an identifier.
pub open spec fn spec_parse_children(ts: Seq<TokenV>, i: int) -> (
    Result<Seq<ASTNodeV>, ParseError>,
    int,
)
    decreases ts.len() - i, 0int,
{
    if i >= ts.len() {
        (Err(ParseError::UnexpectedEndOfTokens), i)
    } else {
        match ts[i].token_type {
            TokenTypeV::Identifier(name) => {
                if i + 1 >= ts.len() {
                    (Err(ParseError::UnexpectedEndOfTokens), i + 1)
                } else if ts[i + 1].token_type == TokenTypeV::Colon {
                    let (mr, j0) = spec_parse_member_type(ts, i + 2);
                    let j = clamp(i + 2, j0, ts.len() as int);
                    match mr {
                        Err(e) => (Err(e), j),
                        Ok(tnode) => spec_parse_after_member(
                            ts,
                            j,
                            ASTNodeV::StructMemberDeclaration(
                                StructMemberDeclarationV { name, data_type: Box::new(tnode) },
                            ),
                        ),
                    }
                } else if ts[i + 1].token_type == TokenTypeV::Comma || ts[i + 1].token_type
                    == TokenTypeV::RCurly {
                    spec_parse_after_member(
                        ts,
                        i + 1,
                        ASTNodeV::EnumMemberDeclaration(EnumMemberDeclarationV { name }),
                    )
                } else {
                    (Err(ParseError::UnexpectedToken), i + 1)
                }
            },
            _ => (Ok(Seq::empty()), i),
        }
    }
}

/// After one member: an optional trailing comma is skipped, then the
/// remaining members follow.
pub open spec fn spec_parse_after_member(ts: Seq<TokenV>, j: int, member: ASTNodeV) -> (
    Result<Seq<ASTNodeV>, ParseError>,
    int,
)
    decreases ts.len() - j, 1int,
{
    if j >= ts.len() {
        (Err(ParseError::UnexpectedEndOfTokens), j)
    } else {
        let j2 = if ts[j].token_type == TokenTypeV::Comma {
            j + 1
        } else {
            j
        };
        compose_member(member, spec_parse_children(ts, j2))
    }
}

/// What parsing a struct member's type declaration returns: a type literal,
/// an inline struct definition, or an inline enum definition.
pub open spec fn spec_parse_member_type(ts: Seq<TokenV>, i: int) -> (
    Result<ASTNodeV, ParseError>,
    int,
)
    decreases ts.len() - i, 0int,
{
    if i >= ts.len() {
        (Err(ParseError::UnexpectedEndOfTokens), i)
    } else {
        match ts[i].token_type {
            TokenTypeV::Struct => {
                let (r, j) = spec_parse_named_statement_list(ts, i + 1);
                (
                    match r {
                        Ok(nsl) => Ok(ASTNodeV::StructDeclaration(nsl)),
                        Err(e) => Err(e),
                    },
                    j,
                )
            },
            TokenTypeV::Enum => {
                let (r, j) = spec_parse_named_statement_list(ts, i + 1);
                (
                    match r {
                        Ok(nsl) => Ok(ASTNodeV::EnumDeclaration(nsl)),
                        Err(e) => Err(e),
                    },
                    j,
                )
            },
            _ => {
                let (r, j) = spec_parse_literal_type(ts[i].token_type, ts, i + 1);
                (
                    match r {
                        Ok(dt) => Ok(ASTNodeV::TypeLiteral(dt)),
                        Err(e) => Err(e),
                    },
                    j,
                )
            },
        }
    }
}

/// What parsing a type literal returns, given its already-consumed first
/// token. A primitive keyword is a leaf; `option` and `array` wrap a single
/// parenthesized inner type; an identifier is a user-defined type name.
pub open spec fn spec_parse_literal_type(tt: TokenTypeV, ts: Seq<TokenV>, i: int) -> (
    Result<DataTypeV, ParseError>,
    int,
)
    decreases ts.len() - i, 1int,
{
    match tt {
        TokenTypeV::U8 => (Ok(DataTypeV::U8), i),
        TokenTypeV::U16 => (Ok(DataTypeV::U16), i),
        TokenTypeV::U32 => (Ok(DataTypeV::U32), i),
        TokenTypeV::U64 => (Ok(DataTypeV::U64), i),
        TokenTypeV::I8 => (Ok(DataTypeV::I8), i),
        TokenTypeV::I16 => (Ok(DataTypeV::I16), i),
        TokenTypeV::I32 => (Ok(DataTypeV::I32), i),
        TokenTypeV::I64 => (Ok(DataTypeV::I64), i),
        TokenTypeV::F32 => (Ok(DataTypeV::F32), i),
        TokenTypeV::F64 => (Ok(DataTypeV::F64), i),
        TokenTypeV::String => (Ok(DataTypeV::String), i),
        TokenTypeV::Char => (Ok(DataTypeV::Char), i),
        TokenTypeV::Bool => (Ok(DataTypeV::Bool), i),
        TokenTypeV::Option => {
            let (r, j) = spec_parse_parenthesized(ts, i);
            (
                match r {
                    Ok(inner) => Ok(DataTypeV::Option(Box::new(inner))),
                    Err(e) => Err(e),
                },
                j,
            )
        },
        TokenTypeV::Array => {
            let (r, j) = spec_parse_parenthesized(ts, i);
            (
                match r {
                    Ok(inner) => Ok(DataTypeV::Array(Box::new(inner))),
                    Err(e) => Err(e),
                },
                j,
            )
        },
        TokenTypeV::Identifier(name) => (Ok(DataTypeV::UserDefined(name)), i),
        _ => (Err(ParseError::UnexpectedToken), i),
    }
}

/// The single parenthesized inner type of an `option` or `array` literal: an
/// opening parenthesis, a recursively parsed type literal, and a closing
/// parenthesis.
pub open spec fn spec_parse_parenthesized(ts: Seq<TokenV>, i: int) -> (
    Result<DataTypeV, ParseError>,
    int,
)
    decreases ts.len() - i, 0int,
{
    if i >= ts.len() {
        (Err(ParseError::UnexpectedEndOfTokens), i)
    } else if !(ts[i].token_type == TokenTypeV::LParen) {
        (Err(ParseError::UnexpectedToken), i + 1)
    } else if i + 1 >= ts.len() {
        (Err(ParseError::UnexpectedEndOfTokens), i + 1)
    } else {
        let (r, j0) = spec_parse_literal_type(ts[i + 1].token_type, ts, i + 2);
        let j = clamp(i + 2, j0, ts.len() as int);
        match r {
            Err(e) => (Err(e), j),
            Ok(inner) => {
                if j >= ts.len() {
                    (Err(ParseError::UnexpectedEndOfTokens), j)
                } else if !(ts[j].token_type == TokenTypeV::RParen) {
                    (Err(ParseError::UnexpectedToken), j + 1)
                } else {
                    (Ok(inner), j + 1)
                }
            },
        }
    }
}

/// What parsing the whole token stream returns: top level declarations, one
/// after the other, until the tokens run out.
pub open spec fn spec_parse_defs(ts: Seq<TokenV>, i: int) -> Result<Seq<ASTNodeV>, ParseError>
    decreases ts.len() - i, 3int,
{
    if i >= ts.len() {
        Ok(Seq::empty())
    } else {
        let (r, j0) = spec_parse_decl(ts, i);
        let j = clamp(i + 1, j0, ts.len() as int);
        match r {
            Err(e) => Err(e),
            Ok(n) => match spec_parse_defs(ts, j) {
                Ok(rest) => Ok(seq![n] + rest),
                Err(e) => Err(e),
            },
        }
    }
}

/// The defining description of the parser: the outcome of parsing a whole
/// token stream into a data definition.
pub open spec fn spec_parse_tokens(ts: Seq<TokenV>) -> Result<ASTNodeV, ParseError> {
    match spec_parse_defs(ts, 0) {
        Ok(children) => Ok(ASTNodeV::DataDefinition(DataDefinitionV { child_nodes: children })),
        Err(e) => Err(e),
    }
}

/// The view of a whole parse's result, for stating what [`parse_tokens`]
/// returns.
pub open spec fn node_result_view(r: Result<ASTNode, ParseError>) -> Result<ASTNodeV, ParseError> {
    match r {
        Ok(n) => Ok(n@),
        Err(e) => Err(e),
    }
}

/// The view of a named statement list parse result.
pub open spec fn nsl_result_view(r: Result<NamedStatementList, ParseError>) -> Result<
    NamedStatementListV,
    ParseError,
> {
    match r {
        Ok(n) => Ok(n@),
        Err(e) => Err(e),
    }
}

/// The view of a member list parse result.
pub open spec fn children_result_view(r: Result<Vec<ASTNode>, ParseError>) -> Result<
    Seq<ASTNodeV>,
    ParseError,
> {
    match r {
        Ok(v) => Ok(nodes_view(v@)),
        Err(e) => Err(e),
    }
}

/// The view of a type literal parse result.
pub open spec fn data_type_result_view(r: Result<DataType, ParseError>) -> Result<
    DataTypeV,
    ParseError,
> {
    match r {
        Ok(dt) => Ok(dt@),
        Err(e) => Err(e),
    }
}

/// Moving one member from the front of the remaining outcome to the back of
/// the finished members.
proof fn lemma_children_compose(
    acc: Seq<ASTNodeV>,
    m: ASTNodeV,
    r: (Result<Seq<ASTNodeV>, ParseError>, int),
)
    ensures
        compose_children(acc, compose_member(m, r)) == compose_children(acc.push(m), r),
{
    match r {
        (Ok(rest), j) => {
            assert(acc + (seq![m] + rest) =~= acc.push(m) + rest);
        },
        (Err(_), _) => {},
    }
}

/// Hands out the next token, advancing past it; `None` once the tokens are
/// exhausted.
fn next_token<'a>(tokens: &'a Vec<Token>, pos: &mut usize) -> (r: Option<&'a Token>)
    ensures
        match r {
            Some(t) => {
                &&& *old(pos) < tokens@.len()
                &&& *t == tokens@[*old(pos) as int]
                &&& *final(pos) == *old(pos) + 1
            },
            None => {
                &&& *old(pos) >= tokens@.len()
                &&& *final(pos) == *old(pos)
            },
        },
{
    if *pos < tokens.len() {
        let t = &tokens[*pos];
        *pos = *pos + 1;
        Some(t)
    } else {
        None
    }
}

/// Hands out the next token without advancing past it.
fn peek_token<'a>(tokens: &'a Vec<Token>, pos: usize) -> (r: Option<&'a Token>)
    ensures
        match r {
            Some(t) => pos < tokens@.len() && *t == tokens@[pos as int],
            None => pos >= tokens@.len(),
        },
{
    if pos < tokens.len() {
        Some(&tokens[pos])
    } else {
        None
    }
}

/// Whether two token kinds are the same, identifier text included.
#[verifier::rlimit(30)]
fn token_type_eq(a: &TokenType, b: &TokenType) -> (r: bool)
    ensures
        r == (a@ == b@),
{
    match (a, b) {
        (TokenType::LParen, TokenType::LParen) => true,
        (TokenType::RParen, TokenType::RParen) => true,
        (TokenType::LCurly, TokenType::LCurly) => true,
        (TokenType::RCurly, TokenType::RCurly) => true,
        (TokenType::LSquare, TokenType::LSquare) => true,
        (TokenType::RSquare, TokenType::RSquare) => true,
        (TokenType::Comma, TokenType::Comma) => true,
        (TokenType::Colon, TokenType::Colon) => true,
        (TokenType::Struct, TokenType::Struct) => true,
        (TokenType::Enum, TokenType::Enum) => true,
        (TokenType::U8, TokenType::U8) => true,
        (TokenType::U16, TokenType::U16) => true,
        (TokenType::U32, TokenType::U32) => true,
        (TokenType::U64, TokenType::U64) => true,
        (TokenType::I8, TokenType::I8) => true,
        (TokenType::I16, TokenType::I16) => true,
        (TokenType::I32, TokenType::I32) => true,
        (TokenType::I64, TokenType::I64) => true,
        (TokenType::F32, TokenType::F32) => true,
        (TokenType::F64, TokenType::F64) => true,
        (TokenType::String, TokenType::String) => true,
        (TokenType::Char, TokenType::Char) => true,
        (TokenType::Bool, TokenType::Bool) => true,
        (TokenType::Option, TokenType::Option) => true,
        (TokenType::Array, TokenType::Array) => true,
        (TokenType::Identifier(x), TokenType::Identifier(y)) => crate::lexer::str_eq(
            x.as_str(),
            y.as_str(),
        ),
        _ => false,
    }
}

/// Helper function - unwraps the result of peeking at the token stream, or
/// returns an UnexpectedEndOfTokens error.
fn unwrap_peek_or_error<'a>(token: Option<&'a Token>) -> (r: Result<&'a Token, ParseError>)
    ensures
        match token {
            Some(t) => r == Ok::<&'a Token, ParseError>(t),
            None => r == Err::<&'a Token, ParseError>(ParseError::UnexpectedEndOfTokens),
        },
{
    match token {
        Some(tok) => Ok(tok),
        None => Err(ParseError::UnexpectedEndOfTokens),
    }
}

/// Helper function - unwraps the result of taking the next token, or returns
/// an UnexpectedEndOfTokens error.
fn unwrap_or_error<'a>(token: Option<&'a Token>) -> (r: Result<&'a Token, ParseError>)
    ensures
        match token {
            Some(t) => r == Ok::<&'a Token, ParseError>(t),
            None => r == Err::<&'a Token, ParseError>(ParseError::UnexpectedEndOfTokens),
        },
{
    match token {
        Some(tok) => Ok(tok),
        None => Err(ParseError::UnexpectedEndOfTokens),
    }
}

/// Asserts that the supplied token is the one expected.
/// # Parameters
/// token - The token to check, normally the result of taking the next token
/// expected_token - The expected token type
/// # Returns
/// Ok(()) if the token was both present and of the expected type,
/// ParseError::UnexpectedToken if the token was not the expected type,
/// ParseError::UnexpectedEndOfTokens if the token was absent.
fn assert_token(token: Option<&Token>, expected_token: TokenType) -> (r: Result<(), ParseError>)
    ensures
        match token {
            Some(t) => r == (if t@.token_type == expected_token@ {
                Ok::<(), ParseError>(())
            } else {
                Err::<(), ParseError>(ParseError::UnexpectedToken)
            }),
            None => r == Err::<(), ParseError>(ParseError::UnexpectedEndOfTokens),
        },
{
    match token {
        Some(token) => {
            if token_type_eq(&token.token_type, &expected_token) {
                Ok(())
            } else {
                Err(ParseError::UnexpectedToken)
            }
        },
        None => Err(ParseError::UnexpectedEndOfTokens),
    }
}

/// Entry parsing function.
/// # Parameters
/// tokens - The TokenList from which to derive our AST
/// # Returns
/// An ASTNode::DataDefinition if the tokens were parsed successfully into an
/// AST, otherwise a ParseError.
pub fn parse_tokens(tokens: TokenList) -> (r: Result<ASTNode, ParseError>)
    ensures
        node_result_view(r) == spec_parse_tokens(tokens@),
{
    let ghost ts = tokens@;
    let mut child_nodes: Vec<ASTNode> = Vec::new();
    let mut pos: usize = 0;
    loop
        invariant
            pos <= tokens.0@.len(),
            ts == tokens@,
            ts.len() == tokens.0@.len(),
            spec_parse_defs(ts, 0) == (match spec_parse_defs(ts, pos as int) {
                Ok(rest) => Ok::<Seq<ASTNodeV>, ParseError>(nodes_view(child_nodes@) + rest),
                Err(e) => Err::<Seq<ASTNodeV>, ParseError>(e),
            }),
        ensures
            pos == tokens.0@.len(),
            spec_parse_defs(ts, 0) == (match spec_parse_defs(ts, pos as int) {
                Ok(rest) => Ok::<Seq<ASTNodeV>, ParseError>(nodes_view(child_nodes@) + rest),
                Err(e) => Err::<Seq<ASTNodeV>, ParseError>(e),
            }),
        decreases tokens.0@.len() - pos,
    {
        if pos >= tokens.0.len() {
            break ;
        }
        let ghost p = pos as int;
        let ghost prev_nodes = child_nodes@;
        match parse(&tokens.0, &mut pos) {
            Ok(node) => {
                child_nodes.push(node);
                proof {
                    lemma_nodes_view_push(prev_nodes, node);
                    let (r0, j0) = spec_parse_decl(ts, p);
                    assert(j0 == pos as int);
                    let j = clamp(p + 1, j0, ts.len() as int);
                    assert(j == pos as int);
                    if spec_parse_defs(ts, pos as int) is Ok {
                        let rest = spec_parse_defs(ts, pos as int)->Ok_0;
                        assert(nodes_view(child_nodes@) + rest =~= nodes_view(prev_nodes) + (seq![
                            view_node(node),
                        ] + rest));
                    }
                }
            },
            Err(e) => {
                proof {
                    let (r0, j0) = spec_parse_decl(ts, p);
                    assert(spec_parse_defs(ts, p) == Err::<Seq<ASTNodeV>, ParseError>(e));
                }
                return Err(e);
            },
        }
    }
    proof {
        assert(spec_parse_defs(ts, pos as int) == Ok::<Seq<ASTNodeV>, ParseError>(
            Seq::<ASTNodeV>::empty(),
        ));
        assert(nodes_view(child_nodes@) + Seq::<ASTNodeV>::empty() =~= nodes_view(child_nodes@));
    }
    Ok(ASTNode::DataDefinition(DataDefinition { child_nodes }))
}

/// Main work function for parsing our AST. Deals with the top level of our
/// data definition, covering our raw enum and struct definitions.
fn parse(tokens: &Vec<Token>, pos: &mut usize) -> (r: Result<ASTNode, ParseError>)
    requires
        *old(pos) <= tokens@.len(),
    ensures
        *old(pos) <= *final(pos) <= tokens@.len(),
        (node_result_view(r), *final(pos) as int) == spec_parse_decl(
            tokens_view(tokens@),
            *old(pos) as int,
        ),
    decreases tokens@.len() - *pos,
{
    let ghost ts = tokens_view(tokens@);
    let ghost i = *pos as int;
    let token = match unwrap_or_error(next_token(tokens, pos)) {
        Ok(t) => t,
        Err(e) => {
            return Err(e);
        },
    };
    match &token.token_type {
        TokenType::Struct => {
            match parse_named_statement_list(tokens, pos) {
                Ok(nsl) => Ok(ASTNode::StructDeclaration(nsl)),
                Err(e) => Err(e),
            }
        },
        TokenType::Enum => {
            match parse_named_statement_list(tokens, pos) {
                Ok(nsl) => Ok(ASTNode::EnumDeclaration(nsl)),
                Err(e) => Err(e),
            }
        },
        _ => Err(ParseError::UnexpectedToken),
    }
}

/// Parses the body of a named statement list. This could either be a struct
/// or an enum.
fn parse_named_statement_list(tokens: &Vec<Token>, pos: &mut usize) -> (r: Result<
    NamedStatementList,
    ParseError,
>)
    requires
        *old(pos) <= tokens@.len(),
    ensures
        *old(pos) <= *final(pos) <= tokens@.len(),
        (nsl_result_view(r), *final(pos) as int) == spec_parse_named_statement_list(
            tokens_view(tokens@),
            *old(pos) as int,
        ),
    decreases tokens@.len() - *pos,
{
    let ghost ts = tokens_view(tokens@);
    let ghost i = *pos as int;
    let name_token = match unwrap_or_error(next_token(tokens, pos)) {
        Ok(t) => t,
        Err(e) => {
            return Err(e);
        },
    };
    let name = match &name_token.token_type {
        TokenType::Identifier(name) => name.clone(),
        _ => {
            return Err(ParseError::UnexpectedToken);
        },
    };
    match assert_token(next_token(tokens, pos), TokenType::LCurly) {
        Ok(_) => {},
        Err(e) => {
            return Err(e);
        },
    }
    let child_nodes = match parse_named_statement_list_children(tokens, pos) {
        Ok(c) => c,
        Err(e) => {
            proof {
                let (cr, j0) = spec_parse_children(ts, i + 2);
                assert(clamp(i + 2, j0, ts.len() as int) == j0);
            }
            return Err(e);
        },
    };
    proof {
        let (cr, j0) = spec_parse_children(ts, i + 2);
        assert(clamp(i + 2, j0, ts.len() as int) == j0);
    }
    match assert_token(next_token(tokens, pos), TokenType::RCurly) {
        Ok(_) => {},
        Err(e) => {
            return Err(e);
        },
    }
    Ok(NamedStatementList { name, child_nodes })
}

/// Parses the child nodes of a named statement list. Note that the child
/// nodes could be either struct member declarations or enum member
/// declarations, without taking into account what the named statement list
/// actually is. This must be verified at a later stage.
fn parse_named_statement_list_children(tokens: &Vec<Token>, pos: &mut usize) -> (r: Result<
    Vec<ASTNode>,
    ParseError,
>)
    requires
        *old(pos) <= tokens@.len(),
    ensures
        *old(pos) <= *final(pos) <= tokens@.len(),
        (children_result_view(r), *final(pos) as int) == spec_parse_children(
            tokens_view(tokens@),
            *old(pos) as int,
        ),
    decreases tokens@.len() - *pos,
{
    let ghost ts = tokens_view(tokens@);
    let ghost i0 = *pos as int;
    let mut ret_val: Vec<ASTNode> = Vec::new();
    loop
        invariant
            *old(pos) <= *pos <= tokens@.len(),
            ts == tokens_view(tokens@),
            ts.len() == tokens@.len(),
            i0 == *old(pos) as int,
            spec_parse_children(ts, i0) == compose_children(
                nodes_view(ret_val@),
                spec_parse_children(ts, *pos as int),
            ),
        ensures
            *old(pos) <= *pos <= tokens@.len(),
            *pos < tokens@.len(),
            !(ts[*pos as int].token_type is Identifier),
            spec_parse_children(ts, i0) == compose_children(
                nodes_view(ret_val@),
                spec_parse_children(ts, *pos as int),
            ),
        decreases tokens@.len() - *pos,
    {
        let ghost p = *pos as int;
        let ghost prev_nodes = ret_val@;
        let name_token = match unwrap_peek_or_error(peek_token(tokens, *pos)) {
            Ok(t) => t,
            Err(e) => {
                return Err(e);
            },
        };
        let name = match &name_token.token_type {
            TokenType::Identifier(name) => name.clone(),
            _ => {
                break ;
            },
        };
        let _ = next_token(tokens, pos);
        let following_token = match unwrap_peek_or_error(peek_token(tokens, *pos)) {
            Ok(t) => t,
            Err(e) => {
                return Err(e);
            },
        };
        let node = match &following_token.token_type {
            TokenType::Colon => {
                let _ = next_token(tokens, pos);
                let tnode = match parse_struct_member_type_declaration(tokens, pos) {
                    Ok(t) => t,
                    Err(e) => {
                        proof {
                            let (mr, j0) = spec_parse_member_type(ts, p + 2);
                            assert(clamp(p + 2, j0, ts.len() as int) == j0);
                        }
                        return Err(e);
                    },
                };
                proof {
                    let (mr, j0) = spec_parse_member_type(ts, p + 2);
                    assert(clamp(p + 2, j0, ts.len() as int) == j0);
                }
                ASTNode::StructMemberDeclaration(
                    StructMemberDeclaration { name, data_type: Box::new(tnode) },
                )
            },
            TokenType::Comma => ASTNode::EnumMemberDeclaration(EnumMemberDeclaration { name }),
            TokenType::RCurly => ASTNode::EnumMemberDeclaration(EnumMemberDeclaration { name }),
            _ => {
                return Err(ParseError::UnexpectedToken);
            },
        };
        let ghost j = *pos as int;
        let potential_comma = match unwrap_peek_or_error(peek_token(tokens, *pos)) {
            Ok(t) => t,
            Err(e) => {
                return Err(e);
            },
        };
        match &potential_comma.token_type {
            TokenType::Comma => {
                let _ = next_token(tokens, pos);
            },
            _ => {},
        }
        ret_val.push(node);
        proof {
            lemma_nodes_view_push(prev_nodes, node);
            assert(spec_parse_children(ts, p) == compose_member(
                view_node(node),
                spec_parse_children(ts, *pos as int),
            ));
            lemma_children_compose(
                nodes_view(prev_nodes),
                view_node(node),
                spec_parse_children(ts, *pos as int),
            );
        }
    }
    proof {
        assert(spec_parse_children(ts, *pos as int) == (
            Ok::<Seq<ASTNodeV>, ParseError>(Seq::<ASTNodeV>::empty()),
            *pos as int,
        ));
        assert(nodes_view(ret_val@) + Seq::<ASTNodeV>::empty() =~= nodes_view(ret_val@));
    }
    Ok(ret_val)
}

/// Parses a struct member type declaration. This could either be a
/// TypeLiteral, an inline struct definition, or an inline enum definition.
fn parse_struct_member_type_declaration(tokens: &Vec<Token>, pos: &mut usize) -> (r: Result<
    ASTNode,
    ParseError,
>)
    requires
        *old(pos) <= tokens@.len(),
    ensures
        *old(pos) <= *final(pos) <= tokens@.len(),
        (node_result_view(r), *final(pos) as int) == spec_parse_member_type(
            tokens_view(tokens@),
            *old(pos) as int,
        ),
    decreases tokens@.len() - *pos,
{
    let ghost ts = tokens_view(tokens@);
    let ghost i = *pos as int;
    let token = match unwrap_or_error(next_token(tokens, pos)) {
        Ok(t) => t,
        Err(e) => {
            return Err(e);
        },
    };
    match &token.token_type {
        TokenType::Struct => {
            match parse_named_statement_list(tokens, pos) {
                Ok(nsl) => Ok(ASTNode::StructDeclaration(nsl)),
                Err(e) => Err(e),
            }
        },
        TokenType::Enum => {
            match parse_named_statement_list(tokens, pos) {
                Ok(nsl) => Ok(ASTNode::EnumDeclaration(nsl)),
                Err(e) => Err(e),
            }
        },
        type_token => {
            match parse_literal_type(type_token, tokens, pos) {
                Ok(dt) => Ok(ASTNode::TypeLiteral(dt)),
                Err(e) => Err(e),
            }
        },
    }
}

/// Parses a type literal. In the case of an array or an option, the inner
/// types are parsed recursively.
fn parse_literal_type(type_token: &TokenType, tokens: &Vec<Token>, pos: &mut usize) -> (r: Result<
    DataType,
    ParseError,
>)
    requires
        *old(pos) <= tokens@.len(),
    ensures
        *old(pos) <= *final(pos) <= tokens@.len(),
        (data_type_result_view(r), *final(pos) as int) == spec_parse_literal_type(
            type_token@,
            tokens_view(tokens@),
            *old(pos) as int,
        ),
    decreases tokens@.len() - *pos, 1int,
{
    let ghost ts = tokens_view(tokens@);
    let ghost i = *pos as int;
    match type_token {
        TokenType::U8 => Ok(DataType::U8),
        TokenType::U16 => Ok(DataType::U16),
        TokenType::U32 => Ok(DataType::U32),
        TokenType::U64 => Ok(DataType::U64),
        TokenType::I8 => Ok(DataType::I8),
        TokenType::I16 => Ok(DataType::I16),
        TokenType::I32 => Ok(DataType::I32),
        TokenType::I64 => Ok(DataType::I64),
        TokenType::F32 => Ok(DataType::F32),
        TokenType::F64 => Ok(DataType::F64),
        TokenType::String => Ok(DataType::String),
        TokenType::Char => Ok(DataType::Char),
        TokenType::Bool => Ok(DataType::Bool),
        TokenType::Option => {
            match parse_parenthesized_inner(tokens, pos) {
                Ok(inner) => Ok(DataType::Option(Box::new(inner))),
                Err(e) => Err(e),
            }
        },
        TokenType::Array => {
            match parse_parenthesized_inner(tokens, pos) {
                Ok(inner) => Ok(DataType::Array(Box::new(inner))),
                Err(e) => Err(e),
            }
        },
        TokenType::Identifier(name) => Ok(DataType::UserDefined(name.clone())),
        _ => Err(ParseError::UnexpectedToken),
    }
}

/// Parses the parenthesized inner type of an `option` or `array` literal.
fn parse_parenthesized_inner(tokens: &Vec<Token>, pos: &mut usize) -> (r: Result<
    DataType,
    ParseError,
>)
    requires
        *old(pos) <= tokens@.len(),
    ensures
        *old(pos) <= *final(pos) <= tokens@.len(),
        (data_type_result_view(r), *final(pos) as int) == spec_parse_parenthesized(
            tokens_view(tokens@),
            *old(pos) as int,
        ),
    decreases tokens@.len() - *pos, 0int,
{
    let ghost ts = tokens_view(tokens@);
    let ghost i = *pos as int;
    match assert_token(next_token(tokens, pos), TokenType::LParen) {
        Ok(_) => {},
        Err(e) => {
            return Err(e);
        },
    }
    let inner_token = match unwrap_or_error(next_token(tokens, pos)) {
        Ok(t) => t,
        Err(e) => {
            return Err(e);
        },
    };
    let inner = match parse_literal_type(&inner_token.token_type, tokens, pos) {
        Ok(dt) => dt,
        Err(e) => {
            proof {
                let (r0, j0) = spec_parse_literal_type(ts[i + 1].token_type, ts, i + 2);
                assert(clamp(i + 2, j0, ts.len() as int) == j0);
            }
            return Err(e);
        },
    };
    proof {
        let (r0, j0) = spec_parse_literal_type(ts[i + 1].token_type, ts, i + 2);
        assert(clamp(i + 2, j0, ts.len() as int) == j0);
    }
    match assert_token(next_token(tokens, pos), TokenType::RParen) {
        Ok(_) => {},
        Err(e) => {
            return Err(e);
        },
    }
    Ok(inner)
}

impl Clone for DataType {
    /// An equal, independently owned copy of the data type.
    fn clone(&self) -> (res: Self)
        ensures
            res@ == self@,
        decreases *self,
    {
        match self {
            DataType::U8 => DataType::U8,
            DataType::I8 => DataType::I8,
            DataType::U16 => DataType::U16,
            DataType::I16 => DataType::I16,
            DataType::U32 => DataType::U32,
            DataType::I32 => DataType::I32,
            DataType::U64 => DataType::U64,
            DataType::I64 => DataType::I64,
            DataType::F32 => DataType::F32,
            DataType::F64 => DataType::F64,
            DataType::Char => DataType::Char,
            DataType::String => DataType::String,
            DataType::Bool => DataType::Bool,
            DataType::Option(inner) => DataType::Option(Box::new((**inner).clone())),
            DataType::Array(inner) => DataType::Array(Box::new((**inner).clone())),
            DataType::UserDefined(name) => DataType::UserDefined(name.clone()),
        }
    }
}

impl Clone for ASTNode {
    /// An equal, independently owned copy of the node and everything below it.
    fn clone(&self) -> (res: Self)
        ensures
            res@ == self@,
        decreases *self, 3int,
    {
        match self {
            ASTNode::StructDeclaration(nsl) => ASTNode::StructDeclaration(nsl.clone()),
            ASTNode::EnumDeclaration(nsl) => ASTNode::EnumDeclaration(nsl.clone()),
            ASTNode::StructMemberDeclaration(smd) => ASTNode::StructMemberDeclaration(smd.clone()),
            ASTNode::EnumMemberDeclaration(emd) => ASTNode::EnumMemberDeclaration(emd.clone()),
            ASTNode::TypeLiteral(dt) => ASTNode::TypeLiteral(dt.clone()),
            ASTNode::DataDefinition(dd) => ASTNode::DataDefinition(dd.clone()),
        }
    }
}

impl Clone for StructMemberDeclaration {
    /// An equal, independently owned copy of the member.
    fn clone(&self) -> (res: Self)
        ensures
            res@ == self@,
        decreases *self, 4int,
    {
        StructMemberDeclaration {
            name: self.name.clone(),
            data_type: Box::new((*self.data_type).clone()),
        }
    }
}

impl Clone for EnumMemberDeclaration {
    /// An equal, independently owned copy of the member.
    fn clone(&self) -> (res: Self)
        ensures
            res@ == self@,
    {
        EnumMemberDeclaration { name: self.name.clone() }
    }
}

impl Clone for NamedStatementList {
    /// An equal, independently owned copy of the list and all its members.
    fn clone(&self) -> (res: Self)
        ensures
            res@ == self@,
        decreases *self, 4int,
    {
        let mut child_nodes: Vec<ASTNode> = Vec::new();
        let mut i: usize = 0;
        while i < self.child_nodes.len()
            invariant
                i <= self.child_nodes@.len(),
                nodes_view(child_nodes@) == nodes_view(self.child_nodes@.subrange(0, i as int)),
            decreases self.child_nodes@.len() - i,
        {
            proof {
                assert(decreases_to!(*self, 4int => self.child_nodes@[i as int], 3int));
            }
            let ghost prev = child_nodes@;
            let node = (&self.child_nodes[i]).clone();
            child_nodes.push(node);
            proof {
                lemma_nodes_view_push(prev, node);
                lemma_nodes_view_push(
                    self.child_nodes@.subrange(0, i as int),
                    self.child_nodes@[i as int],
                );
                assert(self.child_nodes@.subrange(0, i as int).push(self.child_nodes@[i as int])
                    =~= self.child_nodes@.subrange(0, i as int + 1));
            }
            i = i + 1;
        }
        proof {
            assert(self.child_nodes@.subrange(0, self.child_nodes@.len() as int)
                =~= self.child_nodes@);
        }
        NamedStatementList { name: self.name.clone(), child_nodes }
    }
}

impl Clone for DataDefinition {
    /// An equal, independently owned copy of the whole definition.
    fn clone(&self) -> (res: Self)
        ensures
            res@ == self@,
        decreases *self, 4int,
    {
        let mut child_nodes: Vec<ASTNode> = Vec::new();
        let mut i: usize = 0;
        while i < self.child_nodes.len()
            invariant
                i <= self.child_nodes@.len(),
                nodes_view(child_nodes@) == nodes_view(self.child_nodes@.subrange(0, i as int)),
            decreases self.child_nodes@.len() - i,
        {
            proof {
                assert(decreases_to!(*self, 4int => self.child_nodes@[i as int], 3int));
            }
            let ghost prev = child_nodes@;
            let node = (&self.child_nodes[i]).clone();
            child_nodes.push(node);
            proof {
                lemma_nodes_view_push(prev, node);
                lemma_nodes_view_push(
                    self.child_nodes@.subrange(0, i as int),
                    self.child_nodes@[i as int],
                );
                assert(self.child_nodes@.subrange(0, i as int).push(self.child_nodes@[i as int])
                    =~= self.child_nodes@.subrange(0, i as int + 1));
            }
            i = i + 1;
        }
        proof {
            assert(self.child_nodes@.subrange(0, self.child_nodes@.len() as int)
                =~= self.child_nodes@);
        }
        DataDefinition { child_nodes }
    }
}


/// The node kinds that may stand as a struct member's declared type: a type
/// literal, or an inline struct or enum declaration.
pub open spec fn member_type_shape(n: ASTNodeV) -> bool {
    n is TypeLiteral || n is StructDeclaration || n is EnumDeclaration
}

/// The shape the parser guarantees of every node it produces: struct and
/// enum bodies hold only member declarations, every struct member's declared
/// type is a type literal or an inline declaration of this same shape, and a
/// data definition holds only struct and enum declarations. (Which member
/// kinds may sit under which declaration kind is deliberately not enforced.)
pub open spec fn shape_ok(n: ASTNodeV) -> bool
    decreases n, 1int,
{
    match n {
        ASTNodeV::StructDeclaration(nsl) => shape_ok_members(nsl.child_nodes),
        ASTNodeV::EnumDeclaration(nsl) => shape_ok_members(nsl.child_nodes),
        ASTNodeV::StructMemberDeclaration(smd) => member_type_shape(*smd.data_type) && shape_ok(
            *smd.data_type,
        ),
        ASTNodeV::EnumMemberDeclaration(_) => true,
        ASTNodeV::TypeLiteral(_) => true,
        ASTNodeV::DataDefinition(dd) => shape_ok_defs(dd.child_nodes),
    }
}

/// Every node of a declaration body is a struct or enum member declaration,
/// of the parser's shape.
pub open spec fn shape_ok_members(s: Seq<ASTNodeV>) -> bool
    decreases s, 0int,
{
    if s.len() == 0 {
        true
    } else {
        (s[0] is StructMemberDeclaration || s[0] is EnumMemberDeclaration) && shape_ok(s[0])
            && shape_ok_members(s.subrange(1, s.len() as int))
    }
}

/// Every top level node is a struct or enum declaration, of the parser's
/// shape.
pub open spec fn shape_ok_defs(s: Seq<ASTNodeV>) -> bool
    decreases s, 0int,
{
    if s.len() == 0 {
        true
    } else {
        (s[0] is StructDeclaration || s[0] is EnumDeclaration) && shape_ok(s[0]) && shape_ok_defs(
            s.subrange(1, s.len() as int),
        )
    }
}

/// Whatever a successful parse of one declaration returns is a struct or
/// enum declaration of the parser's shape.
proof fn lemma_parse_decl_shape(ts: Seq<TokenV>, i: int)
    requires
        spec_parse_decl(ts, i).0 is Ok,
    ensures
        ({
            let n = spec_parse_decl(ts, i).0->Ok_0;
            (n is StructDeclaration || n is EnumDeclaration) && shape_ok(n)
        }),
    decreases ts.len() - i, 1int,
{
    if i < ts.len() {
        match ts[i].token_type {
            TokenTypeV::Struct => {
                lemma_parse_nsl_shape(ts, i + 1);
            },
            TokenTypeV::Enum => {
                lemma_parse_nsl_shape(ts, i + 1);
            },
            _ => {},
        }
    }
}

/// Whatever a successful parse of a named statement list returns has a body
/// of member declarations of the parser's shape.
proof fn lemma_parse_nsl_shape(ts: Seq<TokenV>, i: int)
    requires
        spec_parse_named_statement_list(ts, i).0 is Ok,
    ensures
        shape_ok_members(spec_parse_named_statement_list(ts, i).0->Ok_0.child_nodes),
    decreases ts.len() - i, 0int,
{
    if i < ts.len() {
        match ts[i].token_type {
            TokenTypeV::Identifier(_) => {
                if i + 1 < ts.len() && ts[i + 1].token_type == TokenTypeV::LCurly {
                    if spec_parse_children(ts, i + 2).0 is Ok {
                        lemma_parse_children_shape(ts, i + 2);
                    }
                }
            },
            _ => {},
        }
    }
}

/// Whatever a successful parse of a member list returns holds only member
/// declarations of the parser's shape.
proof fn lemma_parse_children_shape(ts: Seq<TokenV>, i: int)
    requires
        spec_parse_children(ts, i).0 is Ok,
    ensures
        shape_ok_members(spec_parse_children(ts, i).0->Ok_0),
    decreases ts.len() - i, 0int,
{
    if i < ts.len() {
        match ts[i].token_type {
            TokenTypeV::Identifier(name) => {
                if i + 1 < ts.len() {
                    if ts[i + 1].token_type == TokenTypeV::Colon {
                        let (mr, j0) = spec_parse_member_type(ts, i + 2);
                        let j = clamp(i + 2, j0, ts.len() as int);
                        match mr {
                            Ok(tnode) => {
                                lemma_parse_member_type_shape(ts, i + 2);
                                let member = ASTNodeV::StructMemberDeclaration(
                                    StructMemberDeclarationV {
                                        name,
                                        data_type: Box::new(tnode),
                                    },
                                );
                                assert(shape_ok(member));
                                lemma_parse_after_member_shape(ts, j, member);
                            },
                            Err(_) => {},
                        }
                    } else if ts[i + 1].token_type == TokenTypeV::Comma || ts[i + 1].token_type
                        == TokenTypeV::RCurly {
                        let member = ASTNodeV::EnumMemberDeclaration(
                            EnumMemberDeclarationV { name },
                        );
                        lemma_parse_after_member_shape(ts, i + 1, member);
                    }
                }
            },
            _ => {},
        }
    }
}

/// Parsing the members after one member keeps every member of the parser's
/// shape.
proof fn lemma_parse_after_member_shape(ts: Seq<TokenV>, j: int, member: ASTNodeV)
    requires
        spec_parse_after_member(ts, j, member).0 is Ok,
        member is StructMemberDeclaration || member is EnumMemberDeclaration,
        shape_ok(member),
    ensures
        shape_ok_members(spec_parse_after_member(ts, j, member).0->Ok_0),
    decreases ts.len() - j, 1int,
{
    if j < ts.len() {
        let j2: int = if ts[j].token_type == TokenTypeV::Comma {
            j + 1
        } else {
            j
        };
        if spec_parse_children(ts, j2).0 is Ok {
            lemma_parse_children_shape(ts, j2);
            let rest = spec_parse_children(ts, j2).0->Ok_0;
            lemma_shape_ok_members_cons(member, rest);
        }
    }
}

/// A shaped member in front of a shaped member list is a shaped member list.
proof fn lemma_shape_ok_members_cons(member: ASTNodeV, rest: Seq<ASTNodeV>)
    requires
        member is StructMemberDeclaration || member is EnumMemberDeclaration,
        shape_ok(member),
        shape_ok_members(rest),
    ensures
        shape_ok_members(seq![member] + rest),
{
    let s = seq![member] + rest;
    assert(s[0] == member);
    assert(s.subrange(1, s.len() as int) =~= rest);
}

/// Whatever a successful parse of a member's type declaration returns is a
/// type literal or an inline declaration, of the parser's shape.
proof fn lemma_parse_member_type_shape(ts: Seq<TokenV>, i: int)
    requires
        spec_parse_member_type(ts, i).0 is Ok,
    ensures
        member_type_shape(spec_parse_member_type(ts, i).0->Ok_0),
        shape_ok(spec_parse_member_type(ts, i).0->Ok_0),
    decreases ts.len() - i, 0int,
{
    if i < ts.len() {
        match ts[i].token_type {
            TokenTypeV::Struct => {
                lemma_parse_nsl_shape(ts, i + 1);
            },
            TokenTypeV::Enum => {
                lemma_parse_nsl_shape(ts, i + 1);
            },
            _ => {},
        }
    }
}

/// Whatever a successful parse of the whole declaration list returns holds
/// only struct and enum declarations, each of the parser's shape.
proof fn lemma_parse_defs_shape(ts: Seq<TokenV>, i: int)
    requires
        spec_parse_defs(ts, i) is Ok,
    ensures
        shape_ok_defs(spec_parse_defs(ts, i)->Ok_0),
    decreases ts.len() - i,
{
    if i < ts.len() {
        let (r, j0) = spec_parse_decl(ts, i);
        let j = clamp(i + 1, j0, ts.len() as int);
        match r {
            Ok(n) => {
                lemma_parse_decl_shape(ts, i);
                if spec_parse_defs(ts, j) is Ok {
                    lemma_parse_defs_shape(ts, j);
                    let rest = spec_parse_defs(ts, j)->Ok_0;
                    let s = seq![n] + rest;
                    assert(s[0] == n);
                    assert(s.subrange(1, s.len() as int) =~= rest);
                }
            },
            Err(_) => {},
        }
    }
}

/// The parser's output AST is well-formed by construction: a successful
/// parse yields a data definition whose top level children are struct and
/// enum declarations, whose bodies hold only member declarations, and whose
/// struct members' declared types are type literals or inline declarations
/// of the same shape throughout.
pub proof fn lemma_parse_tokens_shape(ts: Seq<TokenV>)
    requires
        spec_parse_tokens(ts) is Ok,
    ensures
        spec_parse_tokens(ts)->Ok_0 is DataDefinition,
        shape_ok(spec_parse_tokens(ts)->Ok_0),
{
    lemma_parse_defs_shape(ts, 0);
}

} // verus!
