//! What is known of a field.
use vstd::prelude::*;

use crate::emit::comma;
use crate::error::DeriveError;
use crate::generics::{generic_params, plain_param, push_plain_param, where_clause, with_param};
use crate::ident::Ident;
use crate::token::{group, push_group, push_punct, push_tokens, tokens, word, Delim, Tok};
use proc_macro2::TokenStream;

verus! {

/// What the `builder` attributes of a field say.
#[derive(Debug)]
pub struct FieldBuilderAttr {
    /// Docs on the setter of the field.
    pub doc: Option<TokenStream>,
    /// Whether the builder leaves the field out.
    pub exclude: bool,
    /// The value of the field where none is set.
    pub default: Option<TokenStream>,
}

/// A field of a struct, as it is read off the declaration.
#[derive(Debug)]
pub struct Field<'a> {
    /// The name of the field.
    pub name: &'a Ident,
    /// The type of the field.
    pub ty: &'a TokenStream,
    /// The name of the type parameter that stands for the field in the builder.
    pub generic_ident: Ident,
    /// What the attributes of the field say.
    pub builder_attr: FieldBuilderAttr,
}

/// A field of a struct, with its place among the fields.
#[derive(Debug)]
pub struct FieldInfo<'a> {
    /// The number of fields in front of it.
    pub ordinal: usize,
    /// The name of the field.
    pub name: &'a Ident,
    /// The type of the field.
    pub ty: &'a TokenStream,
    /// The name of the type parameter that stands for the field in the builder.
    pub generic_ident: Ident,
    /// What the attributes of the field say.
    pub builder_attr: FieldBuilderAttr,
}

/// The type `()`.
pub open spec fn unit_type() -> Seq<Tok> {
    group(Delim::Parenthesis, seq![])
}

/// The type of the tuples that hold one value of a type.
pub open spec fn tuple_type(ty: Seq<Tok>) -> Seq<Tok> {
    group(Delim::Parenthesis, ty + comma())
}

/// The type `()`.
pub fn empty_type() -> (ty: TokenStream)
    ensures
        tokens(ty) == unit_type(),
{
    let mut ty = TokenStream::new();
    push_group(&mut ty, Delim::Parenthesis, TokenStream::new());
    assert(tokens(ty) =~= unit_type());
    ty
}

impl<'a> FieldInfo<'a> {
    /// A field that was read, at its place among the fields.
    pub open spec fn at(ordinal: usize, field: Field<'a>) -> FieldInfo<'a> {
        FieldInfo {
            ordinal,
            name: field.name,
            ty: field.ty,
            generic_ident: field.generic_ident,
            builder_attr: field.builder_attr,
        }
    }

    /// Puts a field that was read at its place among the fields, or passes on why it was not read.
    pub fn new(ordinal: usize, field: Result<Field<'a>, DeriveError>) -> (info: Result<
        FieldInfo<'a>,
        DeriveError,
    >)
        ensures
            info == (match field {
                Ok(field) => Ok::<FieldInfo<'a>, DeriveError>(FieldInfo::at(ordinal, field)),
                Err(error) => Err(error),
            }),
    {
        match field {
            Ok(field) => Ok(
                FieldInfo {
                    ordinal,
                    name: field.name,
                    ty: field.ty,
                    generic_ident: field.generic_ident,
                    builder_attr: field.builder_attr,
                },
            ),
            Err(error) => Err(error),
        }
    }

    /// Declares the type parameter of the field behind the parameters that there are.
    pub fn push_generic_ty_param(&self, generics: &mut syn::Generics)
        ensures
            generic_params(*final(generics)) == with_param(
                generic_params(*old(generics)),
                plain_param(self.generic_ident@),
            ),
            where_clause(*final(generics)) == where_clause(*old(generics)),
    {
        push_plain_param(generics, self.generic_ident.stream());
    }

    /// The type parameter of the field, as a type.
    pub fn type_ident(&self) -> (ty: TokenStream)
        ensures
            tokens(ty) == word(self.generic_ident@),
    {
        self.generic_ident.stream().clone()
    }

    /// The type of the tuples that hold a value of the field.
    pub fn tuplized_type_ty_param(&self) -> (ty: TokenStream)
        ensures
            tokens(ty) == tuple_type(tokens(*self.ty)),
    {
        let mut inner = TokenStream::new();
        push_tokens(&mut inner, self.ty);
        push_punct(&mut inner, ',', false);
        assert(tokens(inner) =~= tokens(*self.ty) + comma());
        let mut ty = TokenStream::new();
        push_group(&mut ty, Delim::Parenthesis, inner);
        assert(tokens(ty) =~= tuple_type(tokens(*self.ty)));
        ty
    }
}

} // verus!
