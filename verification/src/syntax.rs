//! Rust source text as the contract model reads it: what `syn` parses, handed
//! on as plain values. Nothing in this file is proved; each function says in
//! its contract which result of the parser it hands on.

use crate::value::views;
use vstd::prelude::*;

verus! {

/// `syn::ItemTrait`: a parsed trait. What it holds is seen through
/// `trait_ident` and `trait_members` alone.
#[verifier::external_type_specification]
#[verifier::external_body]
pub struct ExItemTrait(syn::ItemTrait);

/// `syn::MethodSig`: the signature of a parsed method. What it holds is seen
/// through `signature_ident`, `signature_arguments` and `signature_result`
/// alone.
#[verifier::external_type_specification]
#[verifier::external_body]
pub struct ExMethodSig(syn::MethodSig);

/// `syn::ItemStruct`: a parsed struct. What it holds is seen through
/// `struct_ident` and `struct_field_paths` alone.
#[verifier::external_type_specification]
#[verifier::external_body]
pub struct ExItemStruct(syn::ItemStruct);

/// How one argument of a method is written.
#[derive(Debug, PartialEq, Eq)]
pub enum ArgumentDecl {
    /// `&self` or `&mut self`.
    SelfRef,
    /// `self` or `mut self`.
    SelfValue,
    /// A pattern with its type. `binding` is the pattern's name where the
    /// pattern is a single name, `ty` the type as the parser prints it.
    Captured { binding: Option<String>, ty: String },
    /// A pattern without a type.
    Inferred,
    /// A type without a pattern.
    Ignored,
}

/// The mathematical value of an `ArgumentDecl`.
pub enum ArgumentDeclView {
    SelfRef,
    SelfValue,
    Captured { binding: Option<Seq<char>>, ty: Seq<char> },
    Inferred,
    Ignored,
}

impl View for ArgumentDecl {
    type V = ArgumentDeclView;

    open spec fn view(&self) -> ArgumentDeclView {
        match self {
            ArgumentDecl::SelfRef => ArgumentDeclView::SelfRef,
            ArgumentDecl::SelfValue => ArgumentDeclView::SelfValue,
            ArgumentDecl::Captured { binding, ty } => ArgumentDeclView::Captured {
                binding: match binding {
                    Some(b) => Some(b@),
                    None => None,
                },
                ty: ty@,
            },
            ArgumentDecl::Inferred => ArgumentDeclView::Inferred,
            ArgumentDecl::Ignored => ArgumentDeclView::Ignored,
        }
    }
}

/// The brackets around a group of tokens.
#[derive(Debug, Clone, Copy, PartialEq, Eq, Structural)]
pub enum DelimiterDecl {
    Parenthesis,
    Brace,
    Bracket,
    /// A group without brackets of its own.
    Nothing,
}

/// One token at the top level of a token stream.
#[derive(Debug, PartialEq, Eq)]
pub enum TokenDecl {
    /// A bracketed group: its brackets, and the text of what stands between them.
    Group(DelimiterDecl, String),
    /// A name or a keyword.
    Term(String),
    /// One character of punctuation.
    Op(char),
    Literal(String),
}

/// The mathematical value of a `TokenDecl`.
pub enum TokenDeclView {
    Group(DelimiterDecl, Seq<char>),
    Term(Seq<char>),
    Op(char),
    Literal(Seq<char>),
}

impl View for TokenDecl {
    type V = TokenDeclView;

    open spec fn view(&self) -> TokenDeclView {
        match self {
            TokenDecl::Group(d, inner) => TokenDeclView::Group(*d, inner@),
            TokenDecl::Term(t) => TokenDeclView::Term(t@),
            TokenDecl::Op(c) => TokenDeclView::Op(*c),
            TokenDecl::Literal(l) => TokenDeclView::Literal(l@),
        }
    }
}

/// What `syn::parse_str::<syn::ItemTrait>` makes of `tokens`; `None` where it fails.
pub uninterp spec fn parsed_trait(tokens: Seq<char>) -> Option<syn::ItemTrait>;

/// The name of a parsed trait.
pub uninterp spec fn trait_ident(item: syn::ItemTrait) -> Seq<char>;

/// The items of a parsed trait, in order: the signature of each method, `None`
/// for each item of another kind.
pub uninterp spec fn trait_members(item: syn::ItemTrait) -> Seq<Option<syn::MethodSig>>;

/// The name of a method.
pub uninterp spec fn signature_ident(signature: syn::MethodSig) -> Seq<char>;

/// The arguments of a method, in order, the receiver included.
pub uninterp spec fn signature_arguments(signature: syn::MethodSig) -> Seq<ArgumentDeclView>;

/// The return type of a method as the parser prints it; `None` where the
/// method names none.
pub uninterp spec fn signature_result(signature: syn::MethodSig) -> Option<Seq<char>>;

/// What `syn::parse_str::<syn::ItemStruct>` makes of `tokens`; `None` where it fails.
pub uninterp spec fn parsed_struct(tokens: Seq<char>) -> Option<syn::ItemStruct>;

/// The name of a parsed struct.
pub uninterp spec fn struct_ident(item: syn::ItemStruct) -> Seq<char>;

/// For each field of a parsed struct, in order: the names of the segments of
/// its type, in order, where the type is a path, `None` where it is not.
pub uninterp spec fn struct_field_paths(item: syn::ItemStruct) -> Seq<Option<Seq<Seq<char>>>>;

/// The tokens that `text` holds at its top level, in order; `None` where it
/// cannot be split into tokens.
pub uninterp spec fn token_trees(text: Seq<char>) -> Option<Seq<TokenDeclView>>;

/// The list `name = Type, ...` that `text` holds, each type as the parser
/// prints it; `None` where `text` is no such list, or an empty one.
pub uninterp spec fn binding_list(text: Seq<char>) -> Option<Seq<(Seq<char>, Seq<char>)>>;

/// The list `name, ...` that `text` holds; `None` where `text` is no such
/// list, or an empty one.
pub uninterp spec fn ident_list(text: Seq<char>) -> Option<Seq<Seq<char>>>;

/// `syn::parse_str::<syn::ItemTrait>`: the trait that `tokens` declares, or
/// `None` where the parser refuses the text.
#[verifier::external_body]
pub(crate) fn parse_trait(tokens: &str) -> (r: Option<syn::ItemTrait>)
    ensures
        r == parsed_trait(tokens@),
{
    syn::parse_str::<syn::ItemTrait>(tokens).ok()
}

/// The field `ident` of `syn::ItemTrait`, as text.
#[verifier::external_body]
pub(crate) fn trait_name(item: &syn::ItemTrait) -> (r: String)
    ensures
        r@ == trait_ident(*item),
{
    item.ident.to_string()
}

/// The field `items` of `syn::ItemTrait`: for each `syn::TraitItem::Method` its
/// signature, for each other variant `None`.
#[verifier::external_body]
pub(crate) fn trait_signatures(item: &syn::ItemTrait) -> (r: Vec<Option<syn::MethodSig>>)
    ensures
        r@ == trait_members(*item),
{
    item.items.iter().map(|i| match i {
        syn::TraitItem::Method(m) => Some(m.sig.clone()),
        syn::TraitItem::Const(_) => None,
        syn::TraitItem::Type(_) => None,
        syn::TraitItem::Macro(_) => None,
        syn::TraitItem::Verbatim(_) => None,
    }).collect()
}

/// The field `ident` of `syn::MethodSig`, as text.
#[verifier::external_body]
pub(crate) fn signature_name(signature: &syn::MethodSig) -> (r: String)
    ensures
        r@ == signature_ident(*signature),
{
    signature.ident.to_string()
}

/// The field `decl.inputs` of `syn::MethodSig`: one `ArgumentDecl` for each
/// `syn::FnArg`, variant for variant.
#[verifier::external_body]
pub(crate) fn signature_inputs(signature: &syn::MethodSig) -> (r: Vec<ArgumentDecl>)
    ensures
        views(r@) == signature_arguments(*signature),
{
    signature.decl.inputs.iter().map(|a| match a {
        syn::FnArg::SelfRef(_) => ArgumentDecl::SelfRef,
        syn::FnArg::SelfValue(_) => ArgumentDecl::SelfValue,
        syn::FnArg::Captured(c) => ArgumentDecl::Captured {
            binding: match &c.pat {
                syn::Pat::Ident(p) => Some(p.ident.to_string()),
                _ => None,
            },
            ty: quote::ToTokens::into_tokens(&c.ty).to_string(),
        },
        syn::FnArg::Inferred(_) => ArgumentDecl::Inferred,
        syn::FnArg::Ignored(_) => ArgumentDecl::Ignored,
    }).collect()
}

/// The field `decl.output` of `syn::MethodSig`: the type's tokens as text, or
/// `None` for `syn::ReturnType::Default`.
#[verifier::external_body]
pub(crate) fn signature_output(signature: &syn::MethodSig) -> (r: Option<String>)
    ensures
        r.deep_view() == signature_result(*signature),
{
    match &signature.decl.output {
        syn::ReturnType::Default => None,
        syn::ReturnType::Type(_, ty) => Some(quote::ToTokens::into_tokens(ty).to_string()),
    }
}

/// `syn::parse_str::<syn::ItemStruct>`: the struct that `tokens` declares, or
/// `None` where the parser refuses the text.
#[verifier::external_body]
pub(crate) fn parse_struct(tokens: &str) -> (r: Option<syn::ItemStruct>)
    ensures
        r == parsed_struct(tokens@),
{
    syn::parse_str::<syn::ItemStruct>(tokens).ok()
}

/// The field `ident` of `syn::ItemStruct`, as text.
#[verifier::external_body]
pub(crate) fn struct_name(item: &syn::ItemStruct) -> (r: String)
    ensures
        r@ == struct_ident(*item),
{
    item.ident.to_string()
}

/// The field `fields` of `syn::ItemStruct`: for each field whose type is a
/// `syn::Type::Path` the names of the path's segments, in order, for each
/// field of another type `None`.
#[verifier::external_body]
pub(crate) fn struct_fields(item: &syn::ItemStruct) -> (r: Vec<Option<Vec<String>>>)
    ensures
        r.deep_view() == struct_field_paths(*item),
{
    item.fields.iter().map(|f| match &f.ty {
        syn::Type::Path(p) => Some(p.path.segments.iter().map(|s| s.ident.to_string()).collect()),
        _ => None,
    }).collect()
}

/// `str::parse::<proc_macro2::TokenStream>`: one `TokenDecl` for each
/// `proc_macro2::TokenTree` of the stream, variant for variant, a group with
/// its delimiter and with its own stream printed as text; `None` where the
/// lexer refuses `text`.
#[verifier::external_body]
pub(crate) fn tokens_of(text: &str) -> (r: Option<Vec<TokenDecl>>)
    ensures
        r is Some <==> token_trees(text@) is Some,
        r matches Some(v) ==> Some(views(v@)) == token_trees(text@),
{
    text.parse::<proc_macro2::TokenStream>().ok().map(|s| s.into_iter().map(|t| match t {
        proc_macro2::TokenTree::Group(g) => TokenDecl::Group(match g.delimiter() {
            proc_macro2::Delimiter::Parenthesis => DelimiterDecl::Parenthesis,
            proc_macro2::Delimiter::Brace => DelimiterDecl::Brace,
            proc_macro2::Delimiter::Bracket => DelimiterDecl::Bracket,
            proc_macro2::Delimiter::None => DelimiterDecl::Nothing,
        }, g.stream().to_string()),
        proc_macro2::TokenTree::Term(t) => TokenDecl::Term(t.as_str().to_string()),
        proc_macro2::TokenTree::Op(o) => TokenDecl::Op(o.op()),
        proc_macro2::TokenTree::Literal(l) => TokenDecl::Literal(l.to_string()),
    }).collect())
}

/// `Punctuated::<syn::Binding, syn::token::Comma>::parse_terminated_nonempty`,
/// run on all of `text`: the names and types of a list of one or more
/// `name = Type`, a comma allowed after the last; `None` where `text` is
/// anything else.
#[verifier::external_body]
pub(crate) fn parse_bindings(text: &str) -> (r: Option<Vec<(String, String)>>)
    ensures
        r.deep_view() == binding_list(text@),
{
    let list = syn::punctuated::Punctuated::<syn::Binding, syn::token::Comma>::parse_terminated_nonempty;
    syn::synom::Parser::parse_str(list, text).ok().map(|parsed| parsed.into_iter().map(|b| (
        b.ident.to_string(),
        quote::ToTokens::into_tokens(b.ty).to_string(),
    )).collect())
}

/// `Punctuated::<syn::Ident, syn::token::Comma>::parse_terminated_nonempty`,
/// run on all of `text`: the names of a list of one or more names, a comma
/// allowed after the last; `None` where `text` is anything else.
#[verifier::external_body]
pub(crate) fn parse_idents(text: &str) -> (r: Option<Vec<String>>)
    ensures
        r.deep_view() == ident_list(text@),
{
    let list = syn::punctuated::Punctuated::<syn::Ident, syn::token::Comma>::parse_terminated_nonempty;
    syn::synom::Parser::parse_str(list, text).ok().map(|parsed| parsed.into_iter().map(|i| i.to_string()).collect())
}

} // verus!
