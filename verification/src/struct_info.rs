//! What is known of a struct.
use vstd::prelude::*;

use crate::builder_attr::{
    apply_attrs, attrs_are_readable, no_attr, AttrModel, Attribute, TypeBuilderAttr,
};
use crate::error::DeriveError;
use crate::field_info::{Field, FieldInfo};
use crate::ident::{check_ident, is_ident, is_ident_continue, is_spelled, Ident};
use crate::sequences::{lemma_filter_next, lemma_filter_none};
use crate::token::{display_text, single_ident, single_ident_text};
use proc_macro2::TokenStream;

verus! {

/// The declaration of a struct: its attributes, its visibility, its name and its generics.
#[derive(Debug)]
pub struct DeriveInput {
    pub attrs: Vec<Attribute>,
    pub vis: TokenStream,
    pub ident: Ident,
    pub generics: syn::Generics,
}

/// What is known of a struct that gets a builder.
#[derive(Debug)]
pub struct StructInfo<'a> {
    /// The visibility of the struct.
    pub vis: &'a TokenStream,
    /// The name of the struct.
    pub name: &'a Ident,
    /// The generics of the struct.
    pub generics: &'a syn::Generics,
    /// The fields of the struct.
    pub fields: Vec<FieldInfo<'a>>,
    /// What the attributes of the struct say.
    pub builder_attr: TypeBuilderAttr,
    /// The name of the builder type.
    pub builder_name: Ident,
    /// The name of the trait that falls back on the default of a field that is not set.
    pub conversion_helper_trait_name: Ident,
    /// The name that the generated code has for the crate `core`.
    pub core: Ident,
}

// Reading the declaration of a struct.

/// The text of the builder's name: the identifier that the attributes give, or else the name of the
/// struct with `Builder` behind it. There is none where the attributes give something else than
/// an identifier.
pub open spec fn builder_text(model: AttrModel, ident: Seq<char>) -> Option<Seq<char>> {
    match model.name {
        Some(toks) => single_ident(toks),
        None => Some(ident + "Builder"@),
    }
}

/// The fields that were read, each at its place, or why the first was not that was not.
pub open spec fn placed<'a>(fields: Seq<Result<Field<'a>, DeriveError>>) -> Result<
    Seq<FieldInfo<'a>>,
    DeriveError,
>
    decreases fields.len(),
{
    if fields.len() == 0 {
        Ok(seq![])
    } else {
        match placed(fields.drop_last()) {
            Ok(infos) => match fields.last() {
                Ok(field) => Ok(infos.push(FieldInfo::at((fields.len() - 1) as usize, field))),
                Err(error) => Err(error),
            },
            Err(error) => Err(error),
        }
    }
}

/// That the builder gets an identifier for its name, unless the declaration is refused.
pub open spec fn builder_is_named<'a>(
    ast: DeriveInput,
    fields: Seq<Result<Field<'a>, DeriveError>>,
) -> bool {
    match apply_attrs(no_attr(), ast.attrs@) {
        Ok(model) => placed(fields) is Ok ==> builder_text(model, ast.ident@) is Some && is_ident(
            builder_text(model, ast.ident@)->0,
        ),
        Err(_) => true,
    }
}

impl<'a> StructInfo<'a> {
    /// That this is what is known of a declaration, whose attributes say what the model says,
    /// where the builder is called by the given text.
    pub open spec fn describes(
        self,
        ast: DeriveInput,
        model: AttrModel,
        text: Seq<char>,
        fields: Seq<FieldInfo<'a>>,
    ) -> bool {
        &&& *self.vis == ast.vis
        &&& *self.name == ast.ident
        &&& *self.generics == ast.generics
        &&& self.fields@ == fields
        &&& self.builder_attr@ == model
        &&& is_spelled(self.builder_name@, text)
        &&& is_spelled(self.conversion_helper_trait_name@, text + "_Optional"@)
        &&& is_spelled(self.core@, text + "_core"@)
    }
}

/// An identifier stays one when word characters come behind it.
pub proof fn lemma_suffix(text: Seq<char>, suffix: Seq<char>)
    requires
        is_ident(text),
        forall|i: int| 0 <= i < suffix.len() ==> is_ident_continue(#[trigger] suffix[i]),
    ensures
        is_ident(text + suffix),
{
    let whole = text + suffix;
    assert forall|i: int| 0 < i < whole.len() implies is_ident_continue(#[trigger] whole[i]) by {
        if i < text.len() {
            assert(whole[i] == text[i]);
        } else {
            assert(whole[i] == suffix[i - text.len()]);
        }
    }
}

/// A field that was not read decides, whatever comes behind it.
proof fn lemma_placed_error<'a>(fields: Seq<Result<Field<'a>, DeriveError>>, n: int)
    requires
        0 <= n <= fields.len(),
        placed(fields.take(n)) is Err,
    ensures
        placed(fields) == placed(fields.take(n)),
    decreases fields.len(),
{
    if n == fields.len() {
        assert(fields.take(n) =~= fields);
    } else {
        assert(fields.drop_last().take(n) =~= fields.take(n));
        lemma_placed_error(fields.drop_last(), n);
    }
}

/// The fields of a declaration, each at its place.
fn place_fields<'a>(fields: Vec<Result<Field<'a>, DeriveError>>) -> (infos: Result<
    Vec<FieldInfo<'a>>,
    DeriveError,
>)
    ensures
        match infos {
            Ok(infos) => placed(fields@) == Ok::<Seq<FieldInfo<'a>>, DeriveError>(infos@),
            Err(error) => placed(fields@) == Err::<Seq<FieldInfo<'a>>, DeriveError>(error),
        },
{
    let ghost all = fields@;
    let mut infos: Vec<FieldInfo<'a>> = Vec::new();
    assert(placed(all.take(0)) == Ok::<Seq<FieldInfo<'a>>, DeriveError>(infos@));
    for field in iter: fields
        invariant
            all == fields@,
            iter.seq() == all,
            infos@.len() == iter.index(),
            placed(all.take(iter.index())) == Ok::<Seq<FieldInfo<'a>>, DeriveError>(infos@),
    {
        let ghost n = iter.index();
        let ordinal = infos.len();
        assert(all.take(n + 1).drop_last() =~= all.take(n));
        match FieldInfo::new(ordinal, field) {
            Ok(info) => infos.push(info),
            Err(error) => {
                proof {
                    lemma_placed_error(all, n + 1);
                }
                return Err(error);
            },
        }
    }
    assert(all.take(all.len() as int) =~= all);
    Ok(infos)
}

impl TypeBuilderAttr {
    /// The text of the builder's name: as the attributes give it, or else the name of the struct
    /// with `Builder` behind it.
    pub fn builder_text(&self, ident: &Ident) -> (text: String)
        ensures
            builder_text(self@, ident@) is Some ==> builder_text(self@, ident@) == Some(text@),
    {
        match &self.name {
            Some(name) => display_text(name),
            None => {
                let mut text = ident.text().to_owned();
                text.append("Builder");
                text
            },
        }
    }
}

impl<'a> StructInfo<'a> {
    /// Gathers what is known of a struct: what its attributes say, and its fields. It passes on why
    /// the attributes are refused, or else why the first field was not read that was not.
    pub fn new(ast: &'a DeriveInput, fields: Vec<Result<Field<'a>, DeriveError>>) -> (info: Result<
        StructInfo<'a>,
        DeriveError,
    >)
        requires
            attrs_are_readable(no_attr(), ast.attrs@),
            builder_is_named(*ast, fields@),
        ensures
            match apply_attrs(no_attr(), ast.attrs@) {
                Err(refused) => info is Err && info->Err_0@ == refused,
                Ok(model) => match placed(fields@) {
                    Err(error) => info == Err::<StructInfo<'a>, DeriveError>(error),
                    Ok(infos) => info is Ok && info->Ok_0.describes(
                        *ast,
                        model,
                        builder_text(model, ast.ident@)->0,
                        infos,
                    ),
                },
            },
    {
        match TypeBuilderAttr::new(ast.attrs.as_slice()) {
            Ok(builder_attr) => {
                let text = builder_attr.builder_text(&ast.ident);
                Self::with_builder_text(ast, fields, builder_attr, text.as_str())
            },
            Err(error) => Err(error),
        }
    }

    /// Gathers what is known of a struct, given what its attributes say and the text of its
    /// builder's name.
    pub fn with_builder_text(
        ast: &'a DeriveInput,
        fields: Vec<Result<Field<'a>, DeriveError>>,
        builder_attr: TypeBuilderAttr,
        text: &str,
    ) -> (info: Result<StructInfo<'a>, DeriveError>)
        requires
            placed(fields@) is Ok ==> is_ident(text@),
        ensures
            match placed(fields@) {
                Err(error) => info == Err::<StructInfo<'a>, DeriveError>(error),
                Ok(infos) => info is Ok && info->Ok_0.describes(
                    *ast,
                    builder_attr@,
                    text@,
                    infos,
                ),
            },
    {
        match place_fields(fields) {
            Ok(fields) => {
                let mut trait_text = text.to_owned();
                trait_text.append("_Optional");
                let mut core_text = text.to_owned();
                core_text.append("_core");
                proof {
                    reveal_strlit("_Optional");
                    reveal_strlit("_core");
                    lemma_suffix(text@, "_Optional"@);
                    lemma_suffix(text@, "_core"@);
                }
                Ok(
                    StructInfo {
                        vis: &ast.vis,
                        name: &ast.ident,
                        generics: &ast.generics,
                        fields,
                        builder_attr,
                        builder_name: Ident::new(text),
                        conversion_helper_trait_name: Ident::new(trait_text.as_str()),
                        core: Ident::new(core_text.as_str()),
                    },
                )
            },
            Err(error) => Err(error),
        }
    }

    /// Gathers what is known of a struct, where its attributes can be parsed without fail and its
    /// builder gets an identifier for its name. There is no result where not.
    pub fn try_new(ast: &'a DeriveInput, fields: Vec<Result<Field<'a>, DeriveError>>) -> (info:
        Option<Result<StructInfo<'a>, DeriveError>>)
        ensures
            info is Some <==> attrs_are_readable(no_attr(), ast.attrs@) && builder_is_named(
                *ast,
                fields@,
            ),
            info matches Some(info) ==> (match apply_attrs(no_attr(), ast.attrs@) {
                Err(refused) => info is Err && info->Err_0@ == refused,
                Ok(model) => match placed(fields@) {
                    Err(error) => info == Err::<StructInfo<'a>, DeriveError>(error),
                    Ok(infos) => info is Ok && info->Ok_0.describes(
                        *ast,
                        model,
                        builder_text(model, ast.ident@)->0,
                        infos,
                    ),
                },
            }),
    {
        let named = match TypeBuilderAttr::try_new(ast.attrs.as_slice()) {
            None => {
                return None;
            },
            Some(Ok(builder_attr)) => {
                let is_name = match &builder_attr.name {
                    Some(name) => match single_ident_text(name) {
                        Some(text) => check_ident(text.as_str()),
                        None => false,
                    },
                    None => {
                        let text = builder_attr.builder_text(&ast.ident);
                        check_ident(text.as_str())
                    },
                };
                is_name || !fields_are_read(&fields)
            },
            Some(Err(_)) => true,
        };
        if named {
            Some(Self::new(ast, fields))
        } else {
            None
        }
    }
}

/// Whether every field was read.
fn fields_are_read<'a>(fields: &Vec<Result<Field<'a>, DeriveError>>) -> (yes: bool)
    ensures
        yes == (placed(fields@) is Ok),
{
    let mut i: usize = 0;
    assert(placed(fields@.take(0)) is Ok);
    while i < fields.len()
        invariant
            i <= fields@.len(),
            placed(fields@.take(i as int)) is Ok,
        decreases fields@.len() - i,
    {
        assert(fields@.take(i + 1).drop_last() =~= fields@.take(i as int));
        match &fields[i] {
            Ok(_) => {},
            Err(_) => {
                proof {
                    lemma_placed_error(fields@, i + 1);
                }
                return false;
            },
        }
        i = i + 1;
    }
    assert(fields@.take(i as int) =~= fields@);
    true
}

/// Which fields the builder does not leave out.
pub open spec fn is_included<'a>() -> spec_fn(FieldInfo<'a>) -> bool {
    |field: FieldInfo<'a>| !field.builder_attr.exclude
}

/// The fields that the builder does not leave out, in their order.
pub open spec fn included<'a>(fields: Seq<FieldInfo<'a>>) -> Seq<FieldInfo<'a>> {
    fields.filter(is_included())
}

impl<'a> StructInfo<'a> {
    /// The fields that the builder does not leave out, in their order.
    pub fn included_fields(&self) -> (fields: Vec<&FieldInfo<'a>>)
        ensures
            fields@.len() == included(self.fields@).len(),
            forall|i: int|
                0 <= i < fields@.len() ==> *(#[trigger] fields@[i]) == included(self.fields@)[i],
    {
        let ghost all = self.fields@;
        let mut fields: Vec<&FieldInfo<'a>> = Vec::new();
        let mut i: usize = 0;
        proof {
            lemma_filter_none(all, is_included());
        }
        while i < self.fields.len()
            invariant
                i <= self.fields@.len(),
                all == self.fields@,
                fields@.len() == included(all.take(i as int)).len(),
                forall|j: int|
                    0 <= j < fields@.len() ==> *(#[trigger] fields@[j]) == included(
                        all.take(i as int),
                    )[j],
            decreases self.fields@.len() - i,
        {
            proof {
                lemma_filter_next(all, is_included(), i as int);
            }
            if !self.fields[i].builder_attr.exclude {
                fields.push(&self.fields[i]);
            }
            i = i + 1;
        }
        assert(all.take(i as int) =~= all);
        fields
    }
}

} // verus!
