//! The setters of the builder.
use vstd::prelude::*;

use crate::creation::with_field_params;
use crate::emit::{
    code, comma_separated, doc_attribute, join_comma_separated, listing_attribute, new_code,
    new_doc_attribute, new_listing_attribute, push_code, push_word,
};
use crate::error::DeriveError;
use crate::field_info::{empty_type, tuple_type, unit_type, FieldInfo};
use crate::generics::{
    angle_bracketed, bracket, generic_params, impl_generics, name_of, params_of, split_for_impl,
    where_clause, Param,
};
use crate::sequences::{lemma_filter_next, lemma_filter_none};
use crate::struct_info::{included, StructInfo};
use crate::token::{
    group, push_group, push_tokens, token_lists, tokens, word, Delim, Tok,
};
use proc_macro2::TokenStream;

verus! {

/// Which fields are not the one at the given place.
pub open spec fn is_elsewhere<'a>(ordinal: usize) -> spec_fn(FieldInfo<'a>) -> bool {
    |field: FieldInfo<'a>| field.ordinal != ordinal
}

/// The fields of the builder but for the one at the given place.
pub open spec fn others<'a>(fields: Seq<FieldInfo<'a>>, ordinal: usize) -> Seq<FieldInfo<'a>> {
    included(fields).filter(is_elsewhere(ordinal))
}

/// The argument that stands for a field of the builder before the field at the given place is set:
/// that field is not set yet, and any other field may be set or not.
pub open spec fn slot_before<'a>(field: FieldInfo<'a>, ordinal: usize) -> Seq<Tok> {
    if field.ordinal == ordinal {
        unit_type()
    } else {
        word(field.generic_ident@)
    }
}

/// The argument that stands for a field of the builder after the field at the given place is set.
pub open spec fn slot_after<'a>(field: FieldInfo<'a>, ordinal: usize) -> Seq<Tok> {
    if field.ordinal == ordinal {
        tuple_type(tokens(*field.ty))
    } else {
        word(field.generic_ident@)
    }
}

/// The arguments that stand for the fields before the field at the given place is set.
pub open spec fn slots_before<'a>(fields: Seq<FieldInfo<'a>>, ordinal: usize) -> Seq<Seq<Tok>> {
    included(fields).map_values(|field: FieldInfo<'a>| slot_before(field, ordinal))
}

/// The arguments that stand for the fields after the field at the given place is set.
pub open spec fn slots_after<'a>(fields: Seq<FieldInfo<'a>>, ordinal: usize) -> Seq<Seq<Tok>> {
    included(fields).map_values(|field: FieldInfo<'a>| slot_after(field, ordinal))
}

/// A field of the builder that a setter carries over.
pub open spec fn kept_entry<'a>(field: FieldInfo<'a>) -> Seq<Tok> {
    word(field.name@) + code(": self."@) + word(field.name@)
}

/// The fields of the builder that a setter carries over.
pub open spec fn kept_entries<'a>(fields: Seq<FieldInfo<'a>>, ordinal: usize) -> Seq<Seq<Tok>> {
    others(fields, ordinal).map_values(|field: FieldInfo<'a>| kept_entry(field))
}

/// The field that uses the generic parameters of the struct, as a setter carries it over.
pub open spec fn phantom_kept(params: Seq<Param>) -> Seq<Tok> {
    if params.len() == 0 {
        seq![]
    } else {
        code("__typed_builder_phantom_generics: self.__typed_builder_phantom_generics,"@)
    }
}

/// The docs of a setter: none where the attributes of the field give none.
pub open spec fn setter_doc<'a>(field: FieldInfo<'a>) -> Seq<Tok> {
    match field.builder_attr.doc {
        Some(doc) => doc_attribute(tokens(doc)),
        None => seq![],
    }
}

impl<'a> StructInfo<'a> {
    /// The arguments of the builder type before the field at the given place is set.
    pub open spec fn source_arguments(self, ordinal: usize) -> Seq<Seq<Tok>> {
        self.params().map_values(name_of()) + slots_before(self.fields@, ordinal)
    }

    /// The arguments of the builder type after the field at the given place is set.
    pub open spec fn target_arguments(self, ordinal: usize) -> Seq<Seq<Tok>> {
        self.params().map_values(name_of()) + slots_after(self.fields@, ordinal)
    }

    /// The head of the setter of a field.
    pub open spec fn setter_head<'b>(self, field: FieldInfo<'b>) -> Seq<Tok> {
        setter_doc(field) + code("pub fn"@) + word(field.name@) + code("<"@) + word(
            field.generic_ident@,
        ) + code(":"@) + word(self.core@) + code("::convert::Into<"@) + tokens(*field.ty) + code(
            ">>"@,
        ) + group(Delim::Parenthesis, code("self, value:"@) + word(field.generic_ident@)) + code(
            "->"@,
        ) + word(self.builder_name@) + angle_bracketed(
            self.target_arguments(field.ordinal),
            false,
        )
    }

    /// The builder that the setter of a field returns: the field is set, and the others are as they
    /// were.
    pub open spec fn setter_value<'b>(self, field: FieldInfo<'b>) -> Seq<Tok> {
        word(self.builder_name@) + group(
            Delim::Brace,
            phantom_kept(self.params()) + word(field.name@) + code(":"@) + group(
                Delim::Parenthesis,
                code("value.into"@) + unit_type() + code(","@),
            ) + code(","@) + comma_separated(kept_entries(self.fields@, field.ordinal)),
        )
    }

    /// The setter of a field, for the builders in which the field is not set.
    pub open spec fn setter<'b>(self, field: FieldInfo<'b>) -> Seq<Tok> {
        listing_attribute(
            "allow"@,
            "dead_code, non_camel_case_types, missing_docs, clippy::default_trait_access"@,
        ) + code("impl"@) + impl_generics(
            with_field_params(self.params(), others(self.fields@, field.ordinal)),
        ) + word(self.builder_name@) + angle_bracketed(
            self.source_arguments(field.ordinal),
            false,
        ) + where_clause(*self.generics) + group(
            Delim::Brace,
            self.setter_head(field) + group(Delim::Brace, self.setter_value(field)),
        )
    }

    /// The fields of the builder but for the one at the given place.
    fn other_fields(&self, ordinal: usize) -> (fields: Vec<&FieldInfo<'a>>)
        ensures
            fields@.len() == others(self.fields@, ordinal).len(),
            forall|i: int|
                0 <= i < fields@.len() ==> *(#[trigger] fields@[i]) == others(
                    self.fields@,
                    ordinal,
                )[i],
    {
        let all = self.included_fields();
        let ghost models = included(self.fields@);
        let ghost keep = is_elsewhere::<'a>(ordinal);
        let mut fields: Vec<&FieldInfo<'a>> = Vec::new();
        let mut i: usize = 0;
        proof {
            lemma_filter_none(models, keep);
        }
        while i < all.len()
            invariant
                i <= all@.len(),
                all@.len() == models.len(),
                keep == is_elsewhere::<'a>(ordinal),
                forall|j: int| 0 <= j < all@.len() ==> *(#[trigger] all@[j]) == models[j],
                fields@.len() == models.take(i as int).filter(keep).len(),
                forall|j: int|
                    0 <= j < fields@.len() ==> *(#[trigger] fields@[j]) == models.take(
                        i as int,
                    ).filter(keep)[j],
            decreases all@.len() - i,
        {
            proof {
                lemma_filter_next(models, keep, i as int);
            }
            if all[i].ordinal != ordinal {
                fields.push(all[i]);
            }
            i = i + 1;
        }
        assert(models.take(i as int) =~= models);
        fields
    }

    /// The generics of the `impl` that a setter stands in: those of the struct, and a parameter for
    /// each field of the builder but for the one at the given place.
    fn setter_generics(&self, ordinal: usize) -> (generics: syn::Generics)
        ensures
            generic_params(generics) == with_field_params(
                self.params(),
                others(self.fields@, ordinal),
            ),
            where_clause(generics) == where_clause(*self.generics),
    {
        let fields = self.other_fields(ordinal);
        let ghost all = others(self.fields@, ordinal);
        let mut generics = self.generics.clone();
        let mut i: usize = 0;
        while i < fields.len()
            invariant
                i <= fields@.len(),
                fields@.len() == all.len(),
                forall|j: int| 0 <= j < fields@.len() ==> *(#[trigger] fields@[j]) == all[j],
                generic_params(generics) == with_field_params(self.params(), all.take(i as int)),
                where_clause(generics) == where_clause(*self.generics),
            decreases fields@.len() - i,
        {
            assert(all.take(i + 1).drop_last() =~= all.take(i as int));
            fields[i].push_generic_ty_param(&mut generics);
            i = i + 1;
        }
        assert(all.take(i as int) =~= all);
        generics
    }

    /// The names of the generic parameters of the struct, as arguments.
    fn param_arguments(&self) -> (arguments: Vec<TokenStream>)
        ensures
            token_lists(arguments@) == self.params().map_values(name_of()),
    {
        let params = params_of(self.generics);
        let ghost names = self.params().map_values(name_of());
        let mut arguments: Vec<TokenStream> = Vec::new();
        let mut i: usize = 0;
        while i < params.len()
            invariant
                i <= params@.len(),
                names == self.params().map_values(name_of()),
                params@.len() == self.params().len(),
                forall|j: int|
                    0 <= j < params@.len() ==> (#[trigger] params@[j]).reads(self.params()[j]),
                token_lists(arguments@) == names.take(i as int),
            decreases params@.len() - i,
        {
            let ghost before = token_lists(arguments@);
            arguments.push(params[i].name.clone());
            proof {
                assert(params@[i as int].reads(self.params()[i as int]));
                assert(token_lists(arguments@) =~= before.push(names[i as int]));
                assert(names.take(i + 1) =~= before.push(names[i as int]));
            }
            i = i + 1;
        }
        assert(names.take(i as int) =~= names);
        arguments
    }

    /// The arguments of the builder type before and after the field at the given place is set.
    fn setter_arguments(&self, ordinal: usize) -> (arguments: (
        Vec<TokenStream>,
        Vec<TokenStream>,
    ))
        ensures
            token_lists(arguments.0@) == self.source_arguments(ordinal),
            token_lists(arguments.1@) == self.target_arguments(ordinal),
    {
        let fields = self.included_fields();
        let mut source = self.param_arguments();
        let mut target = self.param_arguments();
        let ghost names = self.params().map_values(name_of());
        let ghost before = slots_before(self.fields@, ordinal);
        let ghost after = slots_after(self.fields@, ordinal);
        let mut i: usize = 0;
        proof {
            assert(token_lists(source@) =~= names + before.take(0));
            assert(token_lists(target@) =~= names + after.take(0));
        }
        while i < fields.len()
            invariant
                i <= fields@.len(),
                fields@.len() == included(self.fields@).len(),
                forall|j: int|
                    0 <= j < fields@.len() ==> *(#[trigger] fields@[j]) == included(self.fields@)[j],
                before == slots_before(self.fields@, ordinal),
                after == slots_after(self.fields@, ordinal),
                token_lists(source@) == names + before.take(i as int),
                token_lists(target@) == names + after.take(i as int),
            decreases fields@.len() - i,
        {
            let field = fields[i];
            let ghost listed_source = token_lists(source@);
            let ghost listed_target = token_lists(target@);
            if field.ordinal == ordinal {
                source.push(empty_type());
                target.push(field.tuplized_type_ty_param());
            } else {
                source.push(field.type_ident());
                target.push(field.type_ident());
            }
            proof {
                assert(before[i as int] == slot_before(*field, ordinal));
                assert(after[i as int] == slot_after(*field, ordinal));
                assert(token_lists(source@) =~= listed_source.push(before[i as int]));
                assert(token_lists(target@) =~= listed_target.push(after[i as int]));
                assert(before.take(i + 1) =~= before.take(i as int).push(before[i as int]));
                assert(after.take(i + 1) =~= after.take(i as int).push(after[i as int]));
            }
            i = i + 1;
        }
        proof {
            assert(before.take(i as int) =~= before);
            assert(after.take(i as int) =~= after);
        }
        (source, target)
    }

    /// The fields of the builder that a setter carries over.
    fn kept_fields(&self, ordinal: usize) -> (stream: TokenStream)
        ensures
            tokens(stream) == comma_separated(kept_entries(self.fields@, ordinal)),
    {
        let fields = self.other_fields(ordinal);
        let ghost all = kept_entries(self.fields@, ordinal);
        let mut entries: Vec<TokenStream> = Vec::new();
        let mut i: usize = 0;
        while i < fields.len()
            invariant
                i <= fields@.len(),
                all == kept_entries(self.fields@, ordinal),
                fields@.len() == others(self.fields@, ordinal).len(),
                forall|j: int|
                    0 <= j < fields@.len() ==> *(#[trigger] fields@[j]) == others(
                        self.fields@,
                        ordinal,
                    )[j],
                token_lists(entries@) == all.take(i as int),
            decreases fields@.len() - i,
        {
            let ghost before = token_lists(entries@);
            let mut entry = fields[i].name.stream().clone();
            push_code(&mut entry, ": self.");
            push_word(&mut entry, fields[i].name);
            entries.push(entry);
            proof {
                assert(tokens(entry) == kept_entry(*fields@[i as int]));
                assert(token_lists(entries@) =~= before.push(tokens(entry)));
                assert(all.take(i + 1) =~= before.push(tokens(entry)));
            }
            i = i + 1;
        }
        assert(all.take(i as int) =~= all);
        join_comma_separated(&entries)
    }

    /// The head of the setter of a field.
    fn setter_head_stream<'b>(&self, field: &FieldInfo<'b>, target: &Vec<TokenStream>) -> (stream:
        TokenStream)
        requires
            token_lists(target@) == self.target_arguments(field.ordinal),
        ensures
            tokens(stream) == self.setter_head(*field),
    {
        let mut parameters = new_code("self, value:");
        push_word(&mut parameters, &field.generic_ident);
        let mut stream = match &field.builder_attr.doc {
            Some(doc) => new_doc_attribute(doc),
            None => TokenStream::new(),
        };
        push_code(&mut stream, "pub fn");
        push_word(&mut stream, field.name);
        push_code(&mut stream, "<");
        push_word(&mut stream, &field.generic_ident);
        push_code(&mut stream, ":");
        push_word(&mut stream, &self.core);
        push_code(&mut stream, "::convert::Into<");
        push_tokens(&mut stream, field.ty);
        push_code(&mut stream, ">>");
        push_group(&mut stream, Delim::Parenthesis, parameters);
        push_code(&mut stream, "->");
        push_word(&mut stream, &self.builder_name);
        push_tokens(&mut stream, &bracket(target));
        stream
    }

    /// The builder that the setter of a field returns.
    fn setter_value_stream<'b>(&self, field: &FieldInfo<'b>) -> (stream: TokenStream)
        ensures
            tokens(stream) == self.setter_value(*field),
    {
        let mut value = new_code("value.into");
        push_tokens(&mut value, &empty_type());
        push_code(&mut value, ",");
        let mut fields = if params_of(self.generics).len() == 0 {
            TokenStream::new()
        } else {
            new_code("__typed_builder_phantom_generics: self.__typed_builder_phantom_generics,")
        };
        push_word(&mut fields, field.name);
        push_code(&mut fields, ":");
        push_group(&mut fields, Delim::Parenthesis, value);
        push_code(&mut fields, ",");
        push_tokens(&mut fields, &self.kept_fields(field.ordinal));
        let mut stream = self.builder_name.stream().clone();
        push_group(&mut stream, Delim::Brace, fields);
        stream
    }

    /// Generates the setter of a field.
    pub fn field_impl<'b>(&self, field: &FieldInfo<'b>) -> (stream: Result<
        TokenStream,
        DeriveError,
    >)
        ensures
            stream is Ok,
            tokens(stream->Ok_0) == self.setter(*field),
    {
        let (ty_generics, target_generics) = self.setter_arguments(field.ordinal);
        let generics = self.setter_generics(field.ordinal);
        let (impl_generics, _, where_clause) = split_for_impl(&generics);
        let mut method = self.setter_head_stream(field, &target_generics);
        push_group(&mut method, Delim::Brace, self.setter_value_stream(field));
        let mut stream = new_listing_attribute(
            "allow",
            "dead_code, non_camel_case_types, missing_docs, clippy::default_trait_access",
        );
        push_code(&mut stream, "impl");
        push_tokens(&mut stream, &impl_generics);
        push_word(&mut stream, &self.builder_name);
        push_tokens(&mut stream, &bracket(&ty_generics));
        push_tokens(&mut stream, &where_clause);
        push_group(&mut stream, Delim::Brace, method);
        Ok(stream)
    }
}

} // verus!
