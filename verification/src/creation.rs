//! The `builder()` function, the builder type, and the trait that falls back on defaults.
use vstd::prelude::*;

use crate::emit::{
    attribute, code, comma_separated, doc_attribute, join_comma_separated, listing_attribute,
    new_attribute, new_code, new_doc_attribute, new_listing_attribute, new_string, push_code,
    push_word,
};
use crate::error::DeriveError;
use crate::field_info::{empty_type, unit_type, FieldInfo};
use crate::generics::{
    declared_generics, declared_tokens, extend_arguments, extended_arguments, generic_params,
    impl_generics, params_of, plain_param, split_for_impl, type_generics, where_clause, with_param,
    GenericParam, Param, ParamKind,
};
use crate::struct_info::{included, StructInfo};
use crate::text::joined;
use crate::token::{
    group, integer, push_group, push_integer, push_tokens, string, token_lists, tokens, word,
    Delim, Tok,
};
use proc_macro2::TokenStream;

verus! {

// Docs.

/// How the docs of `builder()` name the setter of a field.
pub open spec fn setter_text<'a>(field: FieldInfo<'a>) -> Seq<char> {
    "`."@ + field.name@ + "(...)`"@ + (if field.builder_attr.default is Some {
        "(optional)"@
    } else {
        seq![]
    })
}

/// How the docs of `builder()` name the setters.
pub open spec fn setter_texts<'a>(fields: Seq<FieldInfo<'a>>) -> Seq<Seq<char>> {
    included(fields).map_values(|field: FieldInfo<'a>| setter_text(field))
}

/// The docs of `builder()` where the attributes give none.
pub open spec fn builder_method_text<'a>(name: Seq<char>, fields: Seq<FieldInfo<'a>>) -> Seq<char> {
    "\n                    Create a builder for building `"@ + name
        + "`.\n                    On the builder, call "@ + joined(setter_texts(fields), ", "@)
        + " to set the values of the fields (they accept `Into` values).\n                    Finally, call `.build()` to create the instance of `"@
        + name + "`.\n                    "@
}

/// The docs of the builder type where the attributes give none.
pub open spec fn builder_type_text(name: Seq<char>) -> Seq<char> {
    "Builder for [`"@ + name + "`] instances.\n\nSee [`"@ + name + "::builder()`] for more info."@
}

impl<'a> StructInfo<'a> {
    /// The value of the docs of `builder()`.
    pub open spec fn builder_method_doc(self) -> Seq<Tok> {
        match self.builder_attr.builder_method_doc {
            Some(doc) => tokens(doc),
            None => string(builder_method_text(self.name@, self.fields@)),
        }
    }

    /// The attribute of the builder type that documents or hides it.
    pub open spec fn builder_type_doc(self) -> Seq<Tok> {
        if self.builder_attr.doc {
            match self.builder_attr.builder_type_doc {
                Some(doc) => doc_attribute(tokens(doc)),
                None => doc_attribute(string(builder_type_text(self.name@))),
            }
        } else {
            listing_attribute("doc"@, "hidden"@)
        }
    }

    /// Lists the setters for the docs of `builder()`.
    fn setters(&self) -> (text: String)
        ensures
            text@ == joined(setter_texts(self.fields@), ", "@),
    {
        let fields = self.included_fields();
        let ghost texts = setter_texts(self.fields@);
        let mut result = String::new();
        let mut i: usize = 0;
        while i < fields.len()
            invariant
                i <= fields@.len(),
                texts == setter_texts(self.fields@),
                fields@.len() == included(self.fields@).len(),
                forall|j: int|
                    0 <= j < fields@.len() ==> *(#[trigger] fields@[j]) == included(self.fields@)[j],
                result@ == joined(texts.take(i as int), ", "@),
            decreases fields@.len() - i,
        {
            let field = fields[i];
            assert(texts.take(i + 1).drop_last() =~= texts.take(i as int));
            if i > 0 {
                result.append(", ");
            }
            let ghost separated = result@;
            result.append("`.");
            result.append(field.name.text());
            result.append("(...)`");
            if field.builder_attr.default.is_some() {
                result.append("(optional)");
            }
            assert(texts[i as int] == setter_text(*field));
            assert(result@ =~= separated + setter_text(*field));
            if i == 0 {
                assert(result@ =~= texts[0]);
            }
            i = i + 1;
        }
        assert(texts.take(i as int) =~= texts);
        result
    }

    /// The value of the docs of `builder()`.
    fn builder_method_doc_stream(&self) -> (stream: TokenStream)
        ensures
            tokens(stream) == self.builder_method_doc(),
    {
        match &self.builder_attr.builder_method_doc {
            Some(doc) => doc.clone(),
            None => {
                let setters = self.setters();
                let mut doc = "\n                    Create a builder for building `".to_owned();
                doc.append(self.name.text());
                doc.append("`.\n                    On the builder, call ");
                doc.append(setters.as_str());
                doc.append(
                    " to set the values of the fields (they accept `Into` values).\n                    Finally, call `.build()` to create the instance of `",
                );
                doc.append(self.name.text());
                doc.append("`.\n                    ");
                new_string(doc.as_str())
            },
        }
    }

    /// The attribute of the builder type that documents or hides it.
    fn builder_type_doc_stream(&self) -> (stream: TokenStream)
        ensures
            tokens(stream) == self.builder_type_doc(),
    {
        if self.builder_attr.doc {
            match &self.builder_attr.builder_type_doc {
                Some(doc) => new_doc_attribute(doc),
                None => {
                    let mut doc = "Builder for [`".to_owned();
                    doc.append(self.name.text());
                    doc.append("`] instances.\n\nSee [`");
                    doc.append(self.name.text());
                    doc.append("::builder()`] for more info.");
                    new_doc_attribute(&new_string(doc.as_str()))
                },
            }
        } else {
            new_listing_attribute("doc", "hidden")
        }
    }
}

// The builder type and its first value.

/// A field of the builder with nothing in it yet.
pub open spec fn empty_entry<'a>(field: FieldInfo<'a>) -> Seq<Tok> {
    word(field.name@) + code(":"@) + unit_type()
}

/// The fields of the builder with nothing in them yet.
pub open spec fn empty_entries<'a>(fields: Seq<FieldInfo<'a>>) -> Seq<Seq<Tok>> {
    included(fields).map_values(|field: FieldInfo<'a>| empty_entry(field))
}

/// The declaration of a field of the builder: its type is a parameter.
pub open spec fn generic_entry<'a>(field: FieldInfo<'a>) -> Seq<Tok> {
    word(field.name@) + code(":"@) + word(field.generic_ident@)
}

/// The declarations of the fields of the builder.
pub open spec fn generic_entries<'a>(fields: Seq<FieldInfo<'a>>) -> Seq<Seq<Tok>> {
    included(fields).map_values(|field: FieldInfo<'a>| generic_entry(field))
}

/// The arguments that stand for the fields of the builder when none of them is set.
pub open spec fn empty_slots<'a>(fields: Seq<FieldInfo<'a>>) -> Seq<Seq<Tok>> {
    included(fields).map_values(|field: FieldInfo<'a>| unit_type())
}

/// Parameters with those of some fields behind them.
pub open spec fn with_field_params<'a>(params: Seq<Param>, fields: Seq<FieldInfo<'a>>) -> Seq<Param>
    decreases fields.len(),
{
    if fields.len() == 0 {
        params
    } else {
        with_param(
            with_field_params(params, fields.drop_last()),
            plain_param(fields.last().generic_ident@),
        )
    }
}

/// The type that makes the builder use a generic parameter of the struct.
pub open spec fn phantom(core: Seq<char>, param: Param) -> Seq<Tok> {
    word(core) + code("::marker::PhantomData<"@) + (if param.kind is Lifetime {
        code("&"@) + param.declared + unit_type()
    } else {
        param.name
    }) + code(">"@)
}

/// The types that make the builder use the generic parameters of the struct.
pub open spec fn phantoms(core: Seq<char>, params: Seq<Param>) -> Seq<Seq<Tok>> {
    params.map_values(|param: Param| phantom(core, param))
}

/// The field of the builder that uses the generic parameters of the struct, if there are any.
pub open spec fn phantom_field(core: Seq<char>, params: Seq<Param>) -> Seq<Tok> {
    if params.len() == 0 {
        seq![]
    } else {
        code("__typed_builder_phantom_generics:"@) + group(
            Delim::Parenthesis,
            comma_separated(phantoms(core, params)),
        ) + code(","@)
    }
}

/// The first value of that field.
pub open spec fn phantom_value(core: Seq<char>, params: Seq<Param>) -> Seq<Tok> {
    if params.len() == 0 {
        seq![]
    } else {
        code("__typed_builder_phantom_generics:"@) + word(core) + code(
            "::default::Default::default"@,
        ) + unit_type() + code(","@)
    }
}

impl<'a> StructInfo<'a> {
    /// The generic parameters of the struct.
    pub open spec fn params(self) -> Seq<Param> {
        generic_params(*self.generics)
    }

    /// The type of the builder when no field is set.
    pub open spec fn empty_builder_type(self) -> Seq<Tok> {
        word(self.builder_name@) + extended_arguments(self.params(), empty_slots(self.fields@))
    }

    /// The function `builder()`, which makes a builder with no field set.
    pub open spec fn builder_method(self) -> Seq<Tok> {
        doc_attribute(self.builder_method_doc()) + listing_attribute(
            "allow"@,
            "dead_code, clippy::default_trait_access"@,
        ) + tokens(*self.vis) + code("fn builder"@) + unit_type() + code("->"@)
            + self.empty_builder_type() + group(
            Delim::Brace,
            word(self.builder_name@) + group(
                Delim::Brace,
                phantom_value(self.core@, self.params()) + comma_separated(
                    empty_entries(self.fields@),
                ),
            ),
        )
    }

    /// The declaration of the builder type, whose parameters are those of the struct and one for
    /// each field that is not left out.
    pub open spec fn builder_type(self) -> Seq<Tok> {
        attribute(code("must_use"@)) + self.builder_type_doc() + listing_attribute(
            "allow"@,
            "dead_code, non_camel_case_types, non_snake_case, clippy::default_trait_access"@,
        ) + tokens(*self.vis) + code("struct"@) + word(self.builder_name@) + declared_generics(
            with_field_params(self.params(), included(self.fields@)),
        ) + group(
            Delim::Brace,
            phantom_field(self.core@, self.params()) + comma_separated(
                generic_entries(self.fields@),
            ),
        )
    }

    /// The code that gives the struct its builder.
    pub open spec fn creation(self) -> Seq<Tok> {
        code("extern crate core as"@) + word(self.core@) + code("; impl"@) + impl_generics(
            self.params(),
        ) + word(self.name@) + type_generics(self.params()) + where_clause(*self.generics) + group(
            Delim::Brace,
            self.builder_method(),
        ) + self.builder_type()
    }

    /// The fields of the builder with nothing in them yet.
    fn init_empties(&self) -> (stream: TokenStream)
        ensures
            tokens(stream) == comma_separated(empty_entries(self.fields@)),
    {
        let fields = self.included_fields();
        let mut entries: Vec<TokenStream> = Vec::new();
        let mut i: usize = 0;
        while i < fields.len()
            invariant
                i <= fields@.len(),
                fields@.len() == included(self.fields@).len(),
                forall|j: int|
                    0 <= j < fields@.len() ==> *(#[trigger] fields@[j]) == included(self.fields@)[j],
                token_lists(entries@) == empty_entries(self.fields@).take(i as int),
            decreases fields@.len() - i,
        {
            let ghost before = token_lists(entries@);
            let mut entry = fields[i].name.stream().clone();
            push_code(&mut entry, ":");
            push_tokens(&mut entry, &empty_type());
            entries.push(entry);
            proof {
                assert(tokens(entry) == empty_entry(*fields@[i as int]));
                assert(token_lists(entries@) =~= before.push(tokens(entry)));
                assert(empty_entries(self.fields@).take(i + 1) =~= before.push(tokens(entry)));
            }
            i = i + 1;
        }
        assert(empty_entries(self.fields@).take(i as int) =~= empty_entries(self.fields@));
        join_comma_separated(&entries)
    }

    /// The declarations of the fields of the builder.
    fn builder_generics(&self) -> (stream: TokenStream)
        ensures
            tokens(stream) == comma_separated(generic_entries(self.fields@)),
    {
        let fields = self.included_fields();
        let mut entries: Vec<TokenStream> = Vec::new();
        let mut i: usize = 0;
        while i < fields.len()
            invariant
                i <= fields@.len(),
                fields@.len() == included(self.fields@).len(),
                forall|j: int|
                    0 <= j < fields@.len() ==> *(#[trigger] fields@[j]) == included(self.fields@)[j],
                token_lists(entries@) == generic_entries(self.fields@).take(i as int),
            decreases fields@.len() - i,
        {
            let ghost before = token_lists(entries@);
            let mut entry = fields[i].name.stream().clone();
            push_code(&mut entry, ":");
            push_word(&mut entry, &fields[i].generic_ident);
            entries.push(entry);
            proof {
                assert(tokens(entry) == generic_entry(*fields@[i as int]));
                assert(token_lists(entries@) =~= before.push(tokens(entry)));
                assert(generic_entries(self.fields@).take(i + 1) =~= before.push(tokens(entry)));
            }
            i = i + 1;
        }
        assert(generic_entries(self.fields@).take(i as int) =~= generic_entries(self.fields@));
        join_comma_separated(&entries)
    }

    /// The arguments of the builder type when no field is set.
    fn generics_with_empty(&self) -> (stream: TokenStream)
        ensures
            tokens(stream) == extended_arguments(self.params(), empty_slots(self.fields@)),
    {
        let fields = self.included_fields();
        let mut slots: Vec<TokenStream> = Vec::new();
        let mut i: usize = 0;
        while i < fields.len()
            invariant
                i <= fields@.len(),
                fields@.len() == included(self.fields@).len(),
                token_lists(slots@) == empty_slots(self.fields@).take(i as int),
            decreases fields@.len() - i,
        {
            let ghost before = token_lists(slots@);
            slots.push(empty_type());
            proof {
                assert(token_lists(slots@) =~= before.push(unit_type()));
                assert(empty_slots(self.fields@).take(i + 1) =~= before.push(unit_type()));
            }
            i = i + 1;
        }
        assert(empty_slots(self.fields@).take(i as int) =~= empty_slots(self.fields@));
        extend_arguments(self.generics, &slots)
    }

    /// The parameters of the builder type.
    fn b_generics(&self) -> (generics: syn::Generics)
        ensures
            generic_params(generics) == with_field_params(
                self.params(),
                included(self.fields@),
            ),
    {
        let fields = self.included_fields();
        let ghost all = included(self.fields@);
        let mut generics = self.generics.clone();
        let mut i: usize = 0;
        while i < fields.len()
            invariant
                i <= fields@.len(),
                all == included(self.fields@),
                fields@.len() == all.len(),
                forall|j: int| 0 <= j < fields@.len() ==> *(#[trigger] fields@[j]) == all[j],
                generic_params(generics) == with_field_params(self.params(), all.take(i as int)),
            decreases fields@.len() - i,
        {
            assert(all.take(i + 1).drop_last() =~= all.take(i as int));
            fields[i].push_generic_ty_param(&mut generics);
            i = i + 1;
        }
        assert(all.take(i as int) =~= all);
        generics
    }

    /// The type that makes the builder use a generic parameter of the struct.
    fn phantom_stream(&self, param: &GenericParam) -> (stream: TokenStream)
        ensures
            forall|model: Param| #[trigger]
                param.reads(model) ==> tokens(stream) == phantom(self.core@, model),
    {
        let mut stream = self.core.stream().clone();
        push_code(&mut stream, "::marker::PhantomData<");
        match param.kind {
            ParamKind::Lifetime => {
                let mut reference = new_code("&");
                push_tokens(&mut reference, &param.declaration);
                push_tokens(&mut reference, &empty_type());
                push_tokens(&mut stream, &reference);
            },
            _ => {
                push_tokens(&mut stream, &param.name);
            },
        }
        push_code(&mut stream, ">");
        stream
    }

    /// The types that make the builder use the generic parameters of the struct.
    fn phantom_generics(&self) -> (stream: TokenStream)
        ensures
            tokens(stream) == comma_separated(phantoms(self.core@, self.params())),
    {
        let params = params_of(self.generics);
        let ghost all = phantoms(self.core@, self.params());
        let mut types: Vec<TokenStream> = Vec::new();
        let mut i: usize = 0;
        while i < params.len()
            invariant
                i <= params@.len(),
                all == phantoms(self.core@, self.params()),
                params@.len() == self.params().len(),
                forall|j: int|
                    0 <= j < params@.len() ==> (#[trigger] params@[j]).reads(self.params()[j]),
                token_lists(types@) == all.take(i as int),
            decreases params@.len() - i,
        {
            let ghost before = token_lists(types@);
            let ty = self.phantom_stream(&params[i]);
            types.push(ty);
            proof {
                assert(params@[i as int].reads(self.params()[i as int]));
                assert(tokens(ty) == all[i as int]);
                assert(token_lists(types@) =~= before.push(tokens(ty)));
                assert(all.take(i + 1) =~= before.push(tokens(ty)));
            }
            i = i + 1;
        }
        assert(all.take(i as int) =~= all);
        join_comma_separated(&types)
    }

    /// The field of the builder that uses the generic parameters of the struct.
    fn phantom_generic_fields(&self) -> (stream: TokenStream)
        ensures
            tokens(stream) == phantom_field(self.core@, self.params()),
    {
        if params_of(self.generics).len() == 0 {
            TokenStream::new()
        } else {
            let mut stream = new_code("__typed_builder_phantom_generics:");
            push_group(&mut stream, Delim::Parenthesis, self.phantom_generics());
            push_code(&mut stream, ",");
            stream
        }
    }

    /// The first value of that field.
    fn init_phantom_generics(&self) -> (stream: TokenStream)
        ensures
            tokens(stream) == phantom_value(self.core@, self.params()),
    {
        if params_of(self.generics).len() == 0 {
            TokenStream::new()
        } else {
            let mut stream = new_code("__typed_builder_phantom_generics:");
            push_word(&mut stream, &self.core);
            push_code(&mut stream, "::default::Default::default");
            push_tokens(&mut stream, &empty_type());
            push_code(&mut stream, ",");
            stream
        }
    }

    /// The function `builder()`.
    fn builder_method_stream(&self) -> (stream: TokenStream)
        ensures
            tokens(stream) == self.builder_method(),
    {
        let mut values = self.init_phantom_generics();
        push_tokens(&mut values, &self.init_empties());
        let mut body = self.builder_name.stream().clone();
        push_group(&mut body, Delim::Brace, values);
        let mut ty = self.builder_name.stream().clone();
        push_tokens(&mut ty, &self.generics_with_empty());
        let mut stream = new_doc_attribute(&self.builder_method_doc_stream());
        push_tokens(
            &mut stream,
            &new_listing_attribute("allow", "dead_code, clippy::default_trait_access"),
        );
        push_tokens(&mut stream, self.vis);
        push_code(&mut stream, "fn builder");
        push_tokens(&mut stream, &empty_type());
        push_code(&mut stream, "->");
        push_tokens(&mut stream, &ty);
        push_group(&mut stream, Delim::Brace, body);
        stream
    }

    /// The declaration of the builder type.
    fn builder_type_stream(&self) -> (stream: TokenStream)
        ensures
            tokens(stream) == self.builder_type(),
    {
        let mut fields = self.phantom_generic_fields();
        push_tokens(&mut fields, &self.builder_generics());
        let mut stream = new_attribute(new_code("must_use"));
        push_tokens(&mut stream, &self.builder_type_doc_stream());
        push_tokens(
            &mut stream,
            &new_listing_attribute(
                "allow",
                "dead_code, non_camel_case_types, non_snake_case, clippy::default_trait_access",
            ),
        );
        push_tokens(&mut stream, self.vis);
        push_code(&mut stream, "struct");
        push_word(&mut stream, &self.builder_name);
        push_tokens(&mut stream, &declared_tokens(&self.b_generics()));
        push_group(&mut stream, Delim::Brace, fields);
        stream
    }

    /// Generates the function `builder()` of the struct and the builder type.
    pub fn builder_creation_impl(&self) -> (stream: Result<TokenStream, DeriveError>)
        ensures
            stream is Ok,
            tokens(stream->Ok_0) == self.creation(),
    {
        let (impl_generics, ty_generics, where_clause) = split_for_impl(self.generics);
        let mut stream = new_code("extern crate core as");
        push_word(&mut stream, &self.core);
        push_code(&mut stream, "; impl");
        push_tokens(&mut stream, &impl_generics);
        push_word(&mut stream, self.name);
        push_tokens(&mut stream, &ty_generics);
        push_tokens(&mut stream, &where_clause);
        push_group(&mut stream, Delim::Brace, self.builder_method_stream());
        push_tokens(&mut stream, &self.builder_type_stream());
        Ok(stream)
    }
}

// The trait that falls back on the default of a field that is not set.

/// The head of the method of the trait, up to its parameters.
pub open spec fn into_value_head() -> Seq<Tok> {
    code("fn into_value<F: FnOnce"@) + unit_type() + code("-> T>"@)
}

/// The method of the trait, as it is declared.
pub open spec fn into_value_declaration() -> Seq<Tok> {
    into_value_head() + group(Delim::Parenthesis, code("self, default: F"@)) + code("-> T;"@)
}

/// The method for a field that is not set: it calls for the default.
pub open spec fn into_value_default() -> Seq<Tok> {
    into_value_head() + group(Delim::Parenthesis, code("self, default: F"@)) + code("-> T"@)
        + group(Delim::Brace, code("default"@) + unit_type())
}

/// The method for a field that is set: it takes the value out.
pub open spec fn into_value_taken() -> Seq<Tok> {
    into_value_head() + group(Delim::Parenthesis, code("self, _: F"@)) + code("-> T"@) + group(
        Delim::Brace,
        code("self."@) + integer(0),
    )
}

/// The trait and its two implementations.
pub open spec fn conversion_helper(trait_name: Seq<char>) -> Seq<Tok> {
    listing_attribute("doc"@, "hidden"@) + listing_attribute(
        "allow"@,
        "dead_code, non_camel_case_types, non_snake_case, clippy::default_trait_access"@,
    ) + code("pub trait"@) + word(trait_name) + code("<T>"@) + group(
        Delim::Brace,
        into_value_declaration(),
    ) + code("impl<T>"@) + word(trait_name) + code("<T> for"@) + unit_type() + group(
        Delim::Brace,
        into_value_default(),
    ) + code("impl<T>"@) + word(trait_name) + code("<T> for"@) + group(
        Delim::Parenthesis,
        code("T,"@),
    ) + group(Delim::Brace, into_value_taken())
}

/// The head of the method of the trait, up to its parameters.
fn into_value_head_stream() -> (stream: TokenStream)
    ensures
        tokens(stream) == into_value_head(),
{
    let mut stream = new_code("fn into_value<F: FnOnce");
    push_tokens(&mut stream, &empty_type());
    push_code(&mut stream, "-> T>");
    stream
}

/// The method of the trait, as it is declared.
fn into_value_declaration_stream() -> (stream: TokenStream)
    ensures
        tokens(stream) == into_value_declaration(),
{
    let mut stream = into_value_head_stream();
    push_group(&mut stream, Delim::Parenthesis, new_code("self, default: F"));
    push_code(&mut stream, "-> T;");
    stream
}

/// The method for a field that is not set.
fn into_value_default_stream() -> (stream: TokenStream)
    ensures
        tokens(stream) == into_value_default(),
{
    let mut body = new_code("default");
    push_tokens(&mut body, &empty_type());
    let mut stream = into_value_head_stream();
    push_group(&mut stream, Delim::Parenthesis, new_code("self, default: F"));
    push_code(&mut stream, "-> T");
    push_group(&mut stream, Delim::Brace, body);
    stream
}

/// The method for a field that is set.
fn into_value_taken_stream() -> (stream: TokenStream)
    ensures
        tokens(stream) == into_value_taken(),
{
    let mut body = new_code("self.");
    push_integer(&mut body, 0);
    let mut stream = into_value_head_stream();
    push_group(&mut stream, Delim::Parenthesis, new_code("self, _: F"));
    push_code(&mut stream, "-> T");
    push_group(&mut stream, Delim::Brace, body);
    stream
}

impl<'a> StructInfo<'a> {
    /// Generates the trait that falls back on the default of a field that is not set.
    pub fn conversion_helper_impl(&self) -> (stream: Result<TokenStream, DeriveError>)
        ensures
            stream is Ok,
            tokens(stream->Ok_0) == conversion_helper(self.conversion_helper_trait_name@),
    {
        let trait_name = &self.conversion_helper_trait_name;
        let mut stream = new_listing_attribute("doc", "hidden");
        push_tokens(
            &mut stream,
            &new_listing_attribute(
                "allow",
                "dead_code, non_camel_case_types, non_snake_case, clippy::default_trait_access",
            ),
        );
        push_code(&mut stream, "pub trait");
        push_word(&mut stream, trait_name);
        push_code(&mut stream, "<T>");
        push_group(&mut stream, Delim::Brace, into_value_declaration_stream());
        push_code(&mut stream, "impl<T>");
        push_word(&mut stream, trait_name);
        push_code(&mut stream, "<T> for");
        push_tokens(&mut stream, &empty_type());
        push_group(&mut stream, Delim::Brace, into_value_default_stream());
        push_code(&mut stream, "impl<T>");
        push_word(&mut stream, trait_name);
        push_code(&mut stream, "<T> for");
        push_group(&mut stream, Delim::Parenthesis, new_code("T,"));
        push_group(&mut stream, Delim::Brace, into_value_taken_stream());
        Ok(stream)
    }
}

} // verus!
