//! The generic parameters of a struct.
use vstd::prelude::*;

use crate::emit::{comma, comma_separated, join_comma_separated};
use crate::sequences::{lemma_filter_next, lemma_filter_none};
use crate::token::{
    punct, push_punct, push_tokens, single_ident, token_lists, tokens, word, Tok,
};
use proc_macro2::TokenStream;
use quote::ToTokens;
use syn::ext::IdentExt;
use syn::parse::Parser;
use syn::punctuated::Punctuated;
use syn::{
    AngleBracketedGenericArguments, GenericArgument, PathArguments, PathSegment, TraitBound,
    TraitBoundModifier, TypeParam, TypeVerbatim,
};

verus! {

/// What a generic parameter stands for.
#[derive(Clone, Copy, Debug, PartialEq, Eq, Structural)]
pub enum ParamKind {
    Lifetime,
    Type,
    Const,
}

/// A generic parameter.
pub struct Param {
    /// What it stands for.
    pub kind: ParamKind,
    /// Its name: an identifier, or the tokens of a lifetime.
    pub name: Seq<Tok>,
    /// Its declaration without a default: attributes, name and bounds (or the type of a constant).
    pub bounded: Seq<Tok>,
    /// Its whole declaration.
    pub declared: Seq<Tok>,
    /// Whether a comma follows it in the list of parameters.
    pub comma: bool,
}

/// The type `syn::Generics`: a list of generic parameters with a `where` clause.
#[verifier::external_type_specification]
#[verifier::external_body]
pub struct ExGenerics(syn::Generics);

/// The parameters that generics hold, in the order of their declaration.
pub uninterp spec fn generic_params(generics: syn::Generics) -> Seq<Param>;

/// The tokens of the `where` clause that generics hold: none where it has no predicates.
pub uninterp spec fn where_clause(generics: syn::Generics) -> Seq<Tok>;

/// Which parameters are lifetimes, or which are not.
pub open spec fn of_kind(lifetimes: bool) -> spec_fn(Param) -> bool {
    |param: Param| (param.kind is Lifetime) == lifetimes
}

/// The parameters with the lifetimes in front, as they are printed.
#[verifier::opaque]
pub open spec fn lifetimes_first(params: Seq<Param>) -> Seq<Param> {
    params.filter(of_kind(true)) + params.filter(of_kind(false))
}

/// The name of a parameter.
pub open spec fn name_of() -> spec_fn(Param) -> Seq<Tok> {
    |param: Param| param.name
}

/// A list in angle brackets, with or without a comma behind its last item.
pub open spec fn angle_bracketed(items: Seq<Seq<Tok>>, trailing: bool) -> Seq<Tok> {
    punct('<', false) + comma_separated(items) + (if trailing {
        comma()
    } else {
        seq![]
    }) + punct('>', false)
}

/// Lists items in angle brackets.
pub fn bracket(items: &Vec<TokenStream>) -> (stream: TokenStream)
    ensures
        tokens(stream) == angle_bracketed(token_lists(items@), false),
{
    let mut stream = TokenStream::new();
    push_punct(&mut stream, '<', false);
    push_tokens(&mut stream, &join_comma_separated(items));
    push_punct(&mut stream, '>', false);
    assert(tokens(stream) =~= angle_bracketed(token_lists(items@), false));
    stream
}

/// A list of parameters in angle brackets: nothing at all where there are none.
pub open spec fn listed(params: Seq<Param>, item: spec_fn(Param) -> Seq<Tok>) -> Seq<Tok> {
    if params.len() == 0 {
        seq![]
    } else {
        angle_bracketed(
            lifetimes_first(params).map_values(item),
            lifetimes_first(params).last().comma,
        )
    }
}

/// The parameters as a type declaration lists them.
pub open spec fn declared_generics(params: Seq<Param>) -> Seq<Tok> {
    listed(params, |param: Param| param.declared)
}

/// The parameters as an `impl` lists them: without their defaults.
pub open spec fn impl_generics(params: Seq<Param>) -> Seq<Tok> {
    listed(params, |param: Param| param.bounded)
}

/// The parameters as arguments of the type that declares them: their names alone.
pub open spec fn type_generics(params: Seq<Param>) -> Seq<Tok> {
    listed(params, name_of())
}

/// A list of parameters with one more at its end.
pub open spec fn with_param(params: Seq<Param>, param: Param) -> Seq<Param> {
    if params.len() == 0 {
        seq![param]
    } else {
        params.drop_last().push(Param { comma: true, ..params.last() }).push(param)
    }
}

/// A type parameter without bounds.
pub open spec fn plain_param(name: Seq<char>) -> Param {
    Param {
        kind: ParamKind::Type,
        name: word(name),
        bounded: word(name),
        declared: word(name),
        comma: false,
    }
}

/// The declaration of a type parameter that is bounded by a trait with one type argument.
pub open spec fn bounded_declaration(
    name: Seq<char>,
    trait_name: Seq<char>,
    argument: Seq<Tok>,
) -> Seq<Tok> {
    word(name) + punct(':', false) + word(trait_name) + punct('<', false) + argument + punct(
        '>',
        false,
    )
}

/// A type parameter that is bounded by a trait with one type argument.
pub open spec fn bounded_param(
    name: Seq<char>,
    trait_name: Seq<char>,
    argument: Seq<Tok>,
) -> Param {
    Param {
        kind: ParamKind::Type,
        name: word(name),
        bounded: bounded_declaration(name, trait_name, argument),
        declared: bounded_declaration(name, trait_name, argument),
        comma: false,
    }
}

/// The clone of generics has the same parameters and the same `where` clause.
pub assume_specification[ <syn::Generics as Clone>::clone ](generics: &syn::Generics) -> (copy:
    syn::Generics)
    ensures
        generic_params(copy) == generic_params(*generics),
        where_clause(copy) == where_clause(*generics),
;

/// A generic parameter, as it is read off the list of parameters.
#[derive(Debug)]
pub struct GenericParam {
    /// What it stands for.
    pub kind: ParamKind,
    /// Its name.
    pub name: TokenStream,
    /// Its whole declaration.
    pub declaration: TokenStream,
    /// Whether a comma follows it.
    pub comma: bool,
}

impl GenericParam {
    /// That this was read off a parameter.
    pub open spec fn reads(self, param: Param) -> bool {
        &&& self.kind == param.kind
        &&& tokens(self.name) == param.name
        &&& tokens(self.declaration) == param.declared
        &&& self.comma == param.comma
    }
}

/// The parameters that the field `params` of `syn::Generics` lists, as
/// `syn::punctuated::Punctuated::pairs` hands them out, each as tokens by `quote::ToTokens`.
#[verifier::external_body]
pub(crate) fn params_of(generics: &syn::Generics) -> (params: Vec<GenericParam>)
    ensures
        params@.len() == generic_params(*generics).len(),
        forall|i: int|
            0 <= i < params@.len() ==> (#[trigger] params@[i]).reads(generic_params(*generics)[i]),
{
    generics.params.pairs().map(|pair| {
        let (kind, name) = match pair.value() {
            syn::GenericParam::Lifetime(p) => (ParamKind::Lifetime, (&p.lifetime).into_token_stream()),
            syn::GenericParam::Type(p) => (ParamKind::Type, (&p.ident).into_token_stream()),
            syn::GenericParam::Const(p) => (ParamKind::Const, (&p.ident).into_token_stream()),
        };
        let declaration = pair.value().into_token_stream();
        GenericParam { kind, name, declaration, comma: pair.punct().is_some() }
    }).collect()
}

/// `syn::Generics::split_for_impl`, each part as tokens by `quote::ToTokens`: the parameters for an
/// `impl`, the names of the parameters, and the `where` clause. The two lists print the lifetimes
/// in front, leave the defaults off, and are empty where there are no parameters.
#[verifier::external_body]
pub(crate) fn split_for_impl(generics: &syn::Generics) -> (parts: (
    TokenStream,
    TokenStream,
    TokenStream,
))
    ensures
        tokens(parts.0) == impl_generics(generic_params(*generics)),
        tokens(parts.1) == type_generics(generic_params(*generics)),
        tokens(parts.2) == where_clause(*generics),
{
    let (impl_generics, type_generics, where_clause) = generics.split_for_impl();
    (
        impl_generics.into_token_stream(),
        type_generics.into_token_stream(),
        where_clause.into_token_stream(),
    )
}

/// The tokens of `syn::Generics` by `quote::ToTokens`: the declarations of the parameters with the
/// lifetimes in front, and nothing where there are no parameters. The `where` clause is no part of
/// them.
#[verifier::external_body]
pub(crate) fn declared_tokens(generics: &syn::Generics) -> (stream: TokenStream)
    ensures
        tokens(stream) == declared_generics(generic_params(*generics)),
{
    generics.into_token_stream()
}

/// Appends a type parameter without bounds with `syn::punctuated::Punctuated::push`, which sets a
/// comma behind the parameter that was the last. The name is read as a `syn::Ident`, which any
/// single identifier is.
#[verifier::external_body]
pub(crate) fn push_plain_param(generics: &mut syn::Generics, name: &TokenStream)
    requires
        single_ident(tokens(*name)) is Some,
    ensures
        generic_params(*final(generics)) == with_param(
            generic_params(*old(generics)),
            plain_param(single_ident(tokens(*name))->0),
        ),
        where_clause(*final(generics)) == where_clause(*old(generics)),
{
    let name = syn::Ident::parse_any.parse2(name.clone()).unwrap();
    generics.params.push(TypeParam::from(name).into());
}

/// Appends a type parameter that is bounded by a trait with one type argument, with
/// `syn::punctuated::Punctuated::push` as above. The names are read as `syn::Ident`s; the type
/// argument is printed as it is given.
#[verifier::external_body]
pub(crate) fn push_bounded_param(
    generics: &mut syn::Generics,
    name: &TokenStream,
    trait_name: &TokenStream,
    argument: &TokenStream,
)
    requires
        single_ident(tokens(*name)) is Some,
        single_ident(tokens(*trait_name)) is Some,
    ensures
        generic_params(*final(generics)) == with_param(
            generic_params(*old(generics)),
            bounded_param(
                single_ident(tokens(*name))->0,
                single_ident(tokens(*trait_name))->0,
                tokens(*argument),
            ),
        ),
        where_clause(*final(generics)) == where_clause(*old(generics)),
{
    let ident = syn::Ident::parse_any.parse2(trait_name.clone()).unwrap();
    let mut args = Punctuated::new();
    args.push(GenericArgument::Type(TypeVerbatim { tts: argument.clone() }.into()));
    let (lt_token, gt_token) = Default::default();
    let args = AngleBracketedGenericArguments { colon2_token: None, lt_token, args, gt_token };
    let path = PathSegment { ident, arguments: PathArguments::AngleBracketed(args) }.into();
    let modifier = TraitBoundModifier::None;
    let bound = TraitBound { paren_token: None, lifetimes: None, modifier, path };
    let mut param = TypeParam::from(syn::Ident::parse_any.parse2(name.clone()).unwrap());
    param.bounds.push(bound.into());
    generics.params.push(param.into());
}

/// The names of the parameters with more arguments behind them, as the arguments of a type that
/// has more parameters.
pub open spec fn extended_arguments(params: Seq<Param>, more: Seq<Seq<Tok>>) -> Seq<Tok> {
    angle_bracketed(
        lifetimes_first(params).map_values(name_of()) + more,
        more.len() == 0 && params.len() > 0 && lifetimes_first(params).last().comma,
    )
}

/// Appends the names of the lifetimes among the parameters, or of the others, to a list of names,
/// and tells whether a comma follows the last name of the list.
fn push_names(generics: &syn::Generics, lifetimes: bool, names: &mut Vec<TokenStream>, comma: bool)
    -> (last: bool)
    ensures
        token_lists(final(names)@) == token_lists(old(names)@) + generic_params(*generics).filter(
            of_kind(lifetimes),
        ).map_values(name_of()),
        last == ({
            let added = generic_params(*generics).filter(of_kind(lifetimes));
            if added.len() == 0 {
                comma
            } else {
                added.last().comma
            }
        }),
{
    let params = params_of(generics);
    let ghost all = generic_params(*generics);
    let ghost keep = of_kind(lifetimes);
    let ghost before = token_lists(names@);
    let mut last = comma;
    let mut i: usize = 0;
    proof {
        lemma_filter_none(all, keep);
        assert(token_lists(names@) =~= before + all.take(0).filter(keep).map_values(name_of()));
    }
    while i < params.len()
        invariant
            i <= params@.len(),
            params@.len() == all.len(),
            keep == of_kind(lifetimes),
            forall|j: int| 0 <= j < params@.len() ==> (#[trigger] params@[j]).reads(all[j]),
            token_lists(names@) == before + all.take(i as int).filter(keep).map_values(name_of()),
            last == ({
                let added = all.take(i as int).filter(keep);
                if added.len() == 0 {
                    comma
                } else {
                    added.last().comma
                }
            }),
        decreases params@.len() - i,
    {
        proof {
            lemma_filter_next(all, keep, i as int);
            assert(params@[i as int].reads(all[i as int]));
        }
        let lifetime = match params[i].kind {
            ParamKind::Lifetime => true,
            _ => false,
        };
        if lifetime == lifetimes {
            let ghost listed = token_lists(names@);
            names.push(params[i].name.clone());
            last = params[i].comma;
            assert(token_lists(names@) =~= listed.push(all[i as int].name));
            assert(token_lists(names@) =~= before + all.take(i + 1).filter(keep).map_values(
                name_of(),
            ));
        }
        i = i + 1;
    }
    assert(all.take(i as int) =~= all);
    last
}

/// Lists the names of the parameters with more arguments behind them.
pub fn extend_arguments(generics: &syn::Generics, more: &Vec<TokenStream>) -> (stream: TokenStream)
    ensures
        tokens(stream) == extended_arguments(generic_params(*generics), token_lists(more@)),
{
    let ghost params = generic_params(*generics);
    let mut items: Vec<TokenStream> = Vec::new();
    let comma = push_names(generics, true, &mut items, false);
    let comma = push_names(generics, false, &mut items, comma);
    proof {
        lemma_lifetimes_first(params);
        assert(token_lists(items@) =~= lifetimes_first(params).map_values(name_of()));
    }
    let trailing = comma && more.len() == 0;
    let mut i: usize = 0;
    while i < more.len()
        invariant
            i <= more@.len(),
            token_lists(items@) == lifetimes_first(params).map_values(name_of()) + token_lists(
                more@,
            ).take(i as int),
        decreases more@.len() - i,
    {
        let ghost before = token_lists(items@);
        items.push(more[i].clone());
        assert(token_lists(items@) =~= before.push(token_lists(more@)[i as int]));
        assert(token_lists(more@).take(i + 1) =~= token_lists(more@).take(i as int).push(
            token_lists(more@)[i as int],
        ));
        i = i + 1;
    }
    assert(token_lists(more@).take(i as int) =~= token_lists(more@));
    let mut stream = TokenStream::new();
    push_punct(&mut stream, '<', false);
    let list = join_comma_separated(&items);
    push_tokens(&mut stream, &list);
    if trailing {
        push_punct(&mut stream, ',', false);
    }
    push_punct(&mut stream, '>', false);
    assert(tokens(stream) =~= extended_arguments(params, token_lists(more@)));
    stream
}

/// The lifetimes and the other parameters are all the parameters.
proof fn lemma_lifetimes_first(params: Seq<Param>)
    ensures
        lifetimes_first(params) == params.filter(of_kind(true)) + params.filter(of_kind(false)),
        lifetimes_first(params).len() == params.len(),
{
    reveal(lifetimes_first);
    lemma_filter_split(params);
}

/// Every parameter is a lifetime or is not.
proof fn lemma_filter_split(params: Seq<Param>)
    ensures
        params.filter(of_kind(true)).len() + params.filter(of_kind(false)).len() == params.len(),
    decreases params.len(),
{
    reveal(Seq::filter);
    if params.len() > 0 {
        lemma_filter_split(params.drop_last());
    }
}

} // verus!
