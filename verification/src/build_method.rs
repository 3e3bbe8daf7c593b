//! The `build()` method of the builder.
use vstd::prelude::*;

use crate::emit::{
    code, comma_separated, concatenated, doc_attribute, join_comma_separated, join_concatenated,
    listing_attribute, new_code, new_doc_attribute, new_listing_attribute, new_string, push_code,
    push_word,
};
use crate::field_info::{tuple_type, FieldInfo};
use crate::generics::{
    bounded_param, extend_arguments, extended_arguments, generic_params, impl_generics,
    push_bounded_param, split_for_impl, type_generics, where_clause, with_param, Param,
};
use crate::struct_info::{included, StructInfo};
use crate::token::{
    group, integer, push_group, push_integer, push_tokens, string, token_lists, tokens, word,
    Delim, Tok,
};
use proc_macro2::TokenStream;

verus! {

/// Parameters with those of the fields behind them that have a default, each bounded by the trait
/// that falls back on the default.
pub open spec fn with_default_params<'a>(
    params: Seq<Param>,
    fields: Seq<FieldInfo<'a>>,
    trait_name: Seq<char>,
) -> Seq<Param>
    decreases fields.len(),
{
    if fields.len() == 0 {
        params
    } else {
        let before = with_default_params(params, fields.drop_last(), trait_name);
        let field = fields.last();
        if field.builder_attr.default is Some {
            with_param(
                before,
                bounded_param(field.generic_ident@, trait_name, tokens(*field.ty)),
            )
        } else {
            before
        }
    }
}

/// The argument that stands for a field in the builders that can build: a field with a default may
/// be set or not, and any other field is set.
pub open spec fn build_slot<'a>(field: FieldInfo<'a>) -> Seq<Tok> {
    if field.builder_attr.default is Some {
        word(field.generic_ident@)
    } else {
        tuple_type(tokens(*field.ty))
    }
}

/// The arguments that stand for the fields in the builders that can build.
pub open spec fn build_slots<'a>(fields: Seq<FieldInfo<'a>>) -> Seq<Seq<Tok>> {
    included(fields).map_values(|field: FieldInfo<'a>| build_slot(field))
}

/// The statement that binds the value of a field to the name of the field.
pub open spec fn assignment<'a>(field: FieldInfo<'a>, trait_name: Seq<char>) -> Seq<Tok> {
    match field.builder_attr.default {
        Some(default) => if field.builder_attr.exclude {
            code("let"@) + word(field.name@) + code("="@) + tokens(default) + code(";"@)
        } else {
            code("let"@) + word(field.name@) + code("="@) + word(trait_name) + code(
                "::into_value"@,
            ) + group(
                Delim::Parenthesis,
                code("self."@) + word(field.name@) + code(", ||"@) + tokens(default),
            ) + code(";"@)
        },
        None => code("let"@) + word(field.name@) + code("= self."@) + word(field.name@) + code("."@)
            + integer(0) + code(";"@),
    }
}

/// The statements that bind the values of the fields, in the order of the fields, so that the
/// default of a field can refer to the fields in front of it.
pub open spec fn assignments<'a>(fields: Seq<FieldInfo<'a>>, trait_name: Seq<char>) -> Seq<
    Seq<Tok>,
> {
    fields.map_values(|field: FieldInfo<'a>| assignment(field, trait_name))
}

/// The names of the fields.
pub open spec fn field_names<'a>(fields: Seq<FieldInfo<'a>>) -> Seq<Seq<Tok>> {
    fields.map_values(|field: FieldInfo<'a>| word(field.name@))
}

/// The docs of `build()` where docs are shown and the attributes give none.
pub open spec fn build_method_text(name: Seq<char>) -> Seq<char> {
    "Finalise the builder and create its [`"@ + name + "`] instance"@
}

impl<'a> StructInfo<'a> {
    /// The docs of `build()`.
    pub open spec fn build_method_doc(self) -> Seq<Tok> {
        if self.builder_attr.doc {
            match self.builder_attr.build_method_doc {
                Some(doc) => doc_attribute(tokens(doc)),
                None => doc_attribute(string(build_method_text(self.name@))),
            }
        } else {
            seq![]
        }
    }

    /// The body of `build()`: it binds the values of the fields and makes the struct of them.
    pub open spec fn build_body(self) -> Seq<Tok> {
        concatenated(assignments(self.fields@, self.conversion_helper_trait_name@)) + word(
            self.name@,
        ) + group(Delim::Brace, comma_separated(field_names(self.fields@)))
    }

    /// The method `build()`, for the builders in which every field without a default is set.
    pub open spec fn build_method(self) -> Seq<Tok> {
        listing_attribute(
            "allow"@,
            "dead_code, non_camel_case_types, missing_docs, clippy::default_trait_access"@,
        ) + code("impl"@) + impl_generics(
            with_default_params(
                self.params(),
                included(self.fields@),
                self.conversion_helper_trait_name@,
            ),
        ) + word(self.builder_name@) + extended_arguments(
            self.params(),
            build_slots(self.fields@),
        ) + where_clause(*self.generics) + group(
            Delim::Brace,
            self.build_method_doc() + code("pub fn build"@) + group(
                Delim::Parenthesis,
                code("self"@),
            ) + code("->"@) + word(self.name@) + type_generics(self.params()) + group(
                Delim::Brace,
                self.build_body(),
            ),
        )
    }

    /// The generics of the `impl` that `build()` stands in.
    fn build_generics(&self) -> (generics: syn::Generics)
        ensures
            generic_params(generics) == with_default_params(
                self.params(),
                included(self.fields@),
                self.conversion_helper_trait_name@,
            ),
    {
        let fields = self.included_fields();
        let trait_name = &self.conversion_helper_trait_name;
        let ghost all = included(self.fields@);
        let mut generics = self.generics.clone();
        let mut i: usize = 0;
        while i < fields.len()
            invariant
                i <= fields@.len(),
                all == included(self.fields@),
                fields@.len() == all.len(),
                forall|j: int| 0 <= j < fields@.len() ==> *(#[trigger] fields@[j]) == all[j],
                generic_params(generics) == with_default_params(
                    self.params(),
                    all.take(i as int),
                    trait_name@,
                ),
            decreases fields@.len() - i,
        {
            let field = fields[i];
            assert(all.take(i + 1).drop_last() =~= all.take(i as int));
            if field.builder_attr.default.is_some() {
                push_bounded_param(
                    &mut generics,
                    field.generic_ident.stream(),
                    trait_name.stream(),
                    field.ty,
                );
            }
            i = i + 1;
        }
        assert(all.take(i as int) =~= all);
        generics
    }

    /// The arguments of the builder type for the builders that can build.
    fn build_arguments(&self) -> (stream: TokenStream)
        ensures
            tokens(stream) == extended_arguments(self.params(), build_slots(self.fields@)),
    {
        let fields = self.included_fields();
        let ghost all = build_slots(self.fields@);
        let mut slots: Vec<TokenStream> = Vec::new();
        let mut i: usize = 0;
        while i < fields.len()
            invariant
                i <= fields@.len(),
                all == build_slots(self.fields@),
                fields@.len() == included(self.fields@).len(),
                forall|j: int|
                    0 <= j < fields@.len() ==> *(#[trigger] fields@[j]) == included(self.fields@)[j],
                token_lists(slots@) == all.take(i as int),
            decreases fields@.len() - i,
        {
            let ghost before = token_lists(slots@);
            let slot = if fields[i].builder_attr.default.is_some() {
                fields[i].type_ident()
            } else {
                fields[i].tuplized_type_ty_param()
            };
            slots.push(slot);
            proof {
                assert(tokens(slot) == build_slot(*fields@[i as int]));
                assert(token_lists(slots@) =~= before.push(tokens(slot)));
                assert(all.take(i + 1) =~= before.push(tokens(slot)));
            }
            i = i + 1;
        }
        assert(all.take(i as int) =~= all);
        extend_arguments(self.generics, &slots)
    }

    /// The statement that binds the value of a field to the name of the field.
    fn assignment_stream(&self, field: &FieldInfo<'a>) -> (stream: TokenStream)
        ensures
            tokens(stream) == assignment(*field, self.conversion_helper_trait_name@),
    {
        let mut stream = new_code("let");
        push_word(&mut stream, field.name);
        match &field.builder_attr.default {
            Some(default) => if field.builder_attr.exclude {
                push_code(&mut stream, "=");
                push_tokens(&mut stream, default);
            } else {
                let mut arguments = new_code("self.");
                push_word(&mut arguments, field.name);
                push_code(&mut arguments, ", ||");
                push_tokens(&mut arguments, default);
                push_code(&mut stream, "=");
                push_word(&mut stream, &self.conversion_helper_trait_name);
                push_code(&mut stream, "::into_value");
                push_group(&mut stream, Delim::Parenthesis, arguments);
            },
            None => {
                push_code(&mut stream, "= self.");
                push_word(&mut stream, field.name);
                push_code(&mut stream, ".");
                push_integer(&mut stream, 0);
            },
        }
        push_code(&mut stream, ";");
        stream
    }

    /// The statements that bind the values of the fields.
    fn assignment_streams(&self) -> (stream: TokenStream)
        ensures
            tokens(stream) == concatenated(
                assignments(self.fields@, self.conversion_helper_trait_name@),
            ),
    {
        let ghost all = assignments(self.fields@, self.conversion_helper_trait_name@);
        let mut statements: Vec<TokenStream> = Vec::new();
        let mut i: usize = 0;
        while i < self.fields.len()
            invariant
                i <= self.fields@.len(),
                all == assignments(self.fields@, self.conversion_helper_trait_name@),
                token_lists(statements@) == all.take(i as int),
            decreases self.fields@.len() - i,
        {
            let ghost before = token_lists(statements@);
            let statement = self.assignment_stream(&self.fields[i]);
            statements.push(statement);
            proof {
                assert(token_lists(statements@) =~= before.push(tokens(statement)));
                assert(all.take(i + 1) =~= before.push(tokens(statement)));
            }
            i = i + 1;
        }
        assert(all.take(i as int) =~= all);
        join_concatenated(&statements)
    }

    /// The names of the fields.
    fn field_name_streams(&self) -> (stream: TokenStream)
        ensures
            tokens(stream) == comma_separated(field_names(self.fields@)),
    {
        let ghost all = field_names(self.fields@);
        let mut names: Vec<TokenStream> = Vec::new();
        let mut i: usize = 0;
        while i < self.fields.len()
            invariant
                i <= self.fields@.len(),
                all == field_names(self.fields@),
                token_lists(names@) == all.take(i as int),
            decreases self.fields@.len() - i,
        {
            let ghost before = token_lists(names@);
            let name = self.fields[i].name.stream().clone();
            names.push(name);
            proof {
                assert(token_lists(names@) =~= before.push(tokens(name)));
                assert(all.take(i + 1) =~= before.push(tokens(name)));
            }
            i = i + 1;
        }
        assert(all.take(i as int) =~= all);
        join_comma_separated(&names)
    }

    /// The docs of `build()`.
    fn build_method_doc_stream(&self) -> (stream: TokenStream)
        ensures
            tokens(stream) == self.build_method_doc(),
    {
        if self.builder_attr.doc {
            match &self.builder_attr.build_method_doc {
                Some(doc) => new_doc_attribute(doc),
                None => {
                    let mut doc = "Finalise the builder and create its [`".to_owned();
                    doc.append(self.name.text());
                    doc.append("`] instance");
                    new_doc_attribute(&new_string(doc.as_str()))
                },
            }
        } else {
            TokenStream::new()
        }
    }

    /// Generates the method `build()`.
    pub fn build_method_impl(&self) -> (stream: TokenStream)
        ensures
            tokens(stream) == self.build_method(),
    {
        let (impl_generics, _, _) = split_for_impl(&self.build_generics());
        let (_, ty_generics, where_clause) = split_for_impl(self.generics);
        let mut body = self.assignment_streams();
        push_word(&mut body, self.name);
        push_group(&mut body, Delim::Brace, self.field_name_streams());
        let mut method = self.build_method_doc_stream();
        push_code(&mut method, "pub fn build");
        push_group(&mut method, Delim::Parenthesis, new_code("self"));
        push_code(&mut method, "->");
        push_word(&mut method, self.name);
        push_tokens(&mut method, &ty_generics);
        push_group(&mut method, Delim::Brace, body);
        let mut stream = new_listing_attribute(
            "allow",
            "dead_code, non_camel_case_types, missing_docs, clippy::default_trait_access",
        );
        push_code(&mut stream, "impl");
        push_tokens(&mut stream, &impl_generics);
        push_word(&mut stream, &self.builder_name);
        push_tokens(&mut stream, &self.build_arguments());
        push_tokens(&mut stream, &where_clause);
        push_group(&mut stream, Delim::Brace, method);
        stream
    }
}

} // verus!
