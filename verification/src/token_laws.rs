//! What the generated code is, in literal tokens.
//!
//! Each law here spells one generated item out: the words and marks that always stand in it, and
//! what stands in it for each field and for each generic parameter. The vocabulary of the module is
//! its own, so that the laws can be read, and hold, without the definitions that they speak about.
use vstd::prelude::*;

use crate::build_method::{
    assignment, assignments, build_slot, build_slots, field_names, with_default_params,
};
use crate::creation::{
    conversion_helper, empty_entries, empty_entry, empty_slots, generic_entries, generic_entry,
    phantom, phantom_field, phantom_value, phantoms, setter_text, setter_texts, with_field_params,
};
use crate::emit::{
    attribute, code, comma_separated, concatenated, doc_attribute, listing_attribute,
};
use crate::field_info::{unit_type, FieldInfo};
use crate::generics::{
    angle_bracketed, extended_arguments, generic_params, impl_generics, lifetimes_first, name_of,
    of_kind, type_generics, where_clause, with_param, Param, ParamKind,
};
use crate::lexemes;
use crate::setter::{
    is_elsewhere, kept_entries, kept_entry, others, phantom_kept, setter_doc, slot_after,
    slot_before, slots_after, slots_before,
};
use crate::struct_info::{included, is_included, StructInfo};
use crate::text::joined;
use crate::token::{tokens, Delim, Tok};

verus! {

// The vocabulary.

/// A word.
pub open spec fn id(text: Seq<char>) -> Tok {
    Tok::Ident(text)
}

/// A mark that stands alone.
pub open spec fn mark(c: char) -> Tok {
    Tok::Punct(c, false)
}

/// A mark that is joined to the next.
pub open spec fn joint(c: char) -> Tok {
    Tok::Punct(c, true)
}

/// Tokens in parentheses.
pub open spec fn parens(inner: Seq<Tok>) -> Tok {
    Tok::Group(Delim::Parenthesis, inner)
}

/// Tokens in braces.
pub open spec fn braces(inner: Seq<Tok>) -> Tok {
    Tok::Group(Delim::Brace, inner)
}

/// Tokens in brackets.
pub open spec fn brackets(inner: Seq<Tok>) -> Tok {
    Tok::Group(Delim::Bracket, inner)
}

/// Items with a comma between each two of them.
pub open spec fn listing(items: Seq<Seq<Tok>>) -> Seq<Tok>
    decreases items.len(),
{
    if items.len() == 0 {
        seq![]
    } else if items.len() == 1 {
        items[0]
    } else {
        items[0] + seq![mark(',')] + listing(items.skip(1))
    }
}

/// Items one behind the other.
pub open spec fn chain(items: Seq<Seq<Tok>>) -> Seq<Tok>
    decreases items.len(),
{
    if items.len() == 0 {
        seq![]
    } else {
        items[0] + chain(items.skip(1))
    }
}

/// Texts with a separator between each two of them.
pub open spec fn text_listing(items: Seq<Seq<char>>, separator: Seq<char>) -> Seq<char>
    decreases items.len(),
{
    if items.len() == 0 {
        seq![]
    } else if items.len() == 1 {
        items[0]
    } else {
        items[0] + separator + text_listing(items.skip(1), separator)
    }
}

/// Items in angle brackets.
pub open spec fn in_angles(items: Seq<Seq<Tok>>, trailing: bool) -> Seq<Tok> {
    seq![mark('<')] + listing(items) + (if trailing {
        seq![mark(',')]
    } else {
        seq![]
    }) + seq![mark('>')]
}

/// The attribute that allows what the given lints warn of.
pub open spec fn allowing(lints: Seq<Tok>) -> Seq<Tok> {
    seq![mark('#'), brackets(seq![id("allow"@), parens(lints)])]
}

/// The attribute that documents an item.
pub open spec fn documented(value: Seq<Tok>) -> Seq<Tok> {
    seq![mark('#'), brackets(seq![id("doc"@), mark('=')] + value)]
}

/// The attribute that hides an item from the docs.
pub open spec fn hidden() -> Seq<Tok> {
    seq![mark('#'), brackets(seq![id("doc"@), parens(seq![id("hidden"@)])])]
}

/// The lint on calls of `default()`.
pub open spec fn clippy_lint() -> Seq<Tok> {
    seq![id("clippy"@), joint(':'), mark(':'), id("default_trait_access"@)]
}

/// What is allowed in the `impl`s of the builder.
pub open spec fn impl_lints() -> Seq<Tok> {
    seq![
        id("dead_code"@),
        mark(','),
        id("non_camel_case_types"@),
        mark(','),
        id("missing_docs"@),
        mark(','),
    ] + clippy_lint()
}

/// What is allowed in the declarations of types.
pub open spec fn type_lints() -> Seq<Tok> {
    seq![
        id("dead_code"@),
        mark(','),
        id("non_camel_case_types"@),
        mark(','),
        id("non_snake_case"@),
        mark(','),
    ] + clippy_lint()
}

/// The fields that are not left out, in their order.
pub open spec fn kept_in<'a>(fields: Seq<FieldInfo<'a>>) -> Seq<FieldInfo<'a>> {
    fields.filter(|field: FieldInfo<'a>| !field.builder_attr.exclude)
}

/// The names of parameters, those of lifetimes in front.
pub open spec fn ordered_names(params: Seq<Param>) -> Seq<Seq<Tok>> {
    let ordered = params.filter(|param: Param| param.kind is Lifetime) + params.filter(
        |param: Param| !(param.kind is Lifetime),
    );
    ordered.map_values(|param: Param| param.name)
}

/// Whether a comma stands behind the last parameter, where those of lifetimes come in front.
pub open spec fn ends_in_comma(params: Seq<Param>) -> bool {
    let ordered = params.filter(|param: Param| param.kind is Lifetime) + params.filter(
        |param: Param| !(param.kind is Lifetime),
    );
    params.len() > 0 && ordered.last().comma
}

/// The arguments of a type whose parameters are some parameters and more behind them.
pub open spec fn arguments(params: Seq<Param>, more: Seq<Seq<Tok>>) -> Seq<Tok> {
    in_angles(ordered_names(params) + more, more.len() == 0 && ends_in_comma(params))
}

/// Parameters with more parameters behind them.
pub open spec fn appended(params: Seq<Param>, more: Seq<Param>) -> Seq<Param>
    decreases more.len(),
{
    if more.len() == 0 {
        params
    } else {
        with_param(appended(params, more.drop_last()), more.last())
    }
}

/// A type parameter with the given declaration.
pub open spec fn type_param(name: Seq<char>, declaration: Seq<Tok>) -> Param {
    Param {
        kind: ParamKind::Type,
        name: seq![id(name)],
        bounded: declaration,
        declared: declaration,
        comma: false,
    }
}

// The vocabulary and the definitions.

proof fn lemma_listing(items: Seq<Seq<Tok>>)
    ensures
        comma_separated(items) == listing(items),
    decreases items.len(),
{
    if items.len() > 1 {
        let front = items.drop_last();
        lemma_listing(front);
        lemma_listing(items.skip(1));
        if items.len() == 2 {
            assert(front.len() == 1);
            assert(items.skip(1).len() == 1);
            assert(comma_separated(items) =~= listing(items));
        } else {
            lemma_listing(front.skip(1));
            assert(front.skip(1) =~= items.skip(1).drop_last());
            assert(front[0] == items[0]);
            assert(items.skip(1).last() == items.last());
            assert(comma_separated(items) =~= listing(items));
        }
    }
}

proof fn lemma_chain(items: Seq<Seq<Tok>>)
    ensures
        concatenated(items) == chain(items),
    decreases items.len(),
{
    if items.len() > 0 {
        let front = items.drop_last();
        lemma_chain(front);
        if items.len() == 1 {
            assert(front =~= seq![]);
            assert(items.skip(1) =~= seq![]);
            assert(concatenated(items) =~= chain(items));
        } else {
            lemma_chain(items.skip(1));
            lemma_chain(front.skip(1));
            assert(front.skip(1) =~= items.skip(1).drop_last());
            assert(front[0] == items[0]);
            assert(items.skip(1).last() == items.last());
            assert(concatenated(items) =~= chain(items));
        }
    }
}

proof fn lemma_text_listing(items: Seq<Seq<char>>, separator: Seq<char>)
    ensures
        joined(items, separator) == text_listing(items, separator),
    decreases items.len(),
{
    if items.len() > 1 {
        let front = items.drop_last();
        lemma_text_listing(front, separator);
        lemma_text_listing(items.skip(1), separator);
        if items.len() == 2 {
            assert(front.len() == 1);
            assert(items.skip(1).len() == 1);
            assert(joined(items, separator) =~= text_listing(items, separator));
        } else {
            lemma_text_listing(front.skip(1), separator);
            assert(front.skip(1) =~= items.skip(1).drop_last());
            assert(front[0] == items[0]);
            assert(items.skip(1).last() == items.last());
            assert(joined(items, separator) =~= text_listing(items, separator));
        }
    }
}

proof fn lemma_angles(items: Seq<Seq<Tok>>, trailing: bool)
    ensures
        angle_bracketed(items, trailing) == in_angles(items, trailing),
{
    lemma_listing(items);
}

/// The arguments of a type are the names of its parameters, those of lifetimes in front, and the
/// arguments behind them, in angle brackets.
pub proof fn law_extended_arguments(params: Seq<Param>, more: Seq<Seq<Tok>>)
    ensures
        extended_arguments(params, more) == arguments(params, more),
{
    reveal(lifetimes_first);
    assert(of_kind(true) =~= (|param: Param| param.kind is Lifetime));
    assert(of_kind(false) =~= (|param: Param| !(param.kind is Lifetime)));
    assert(name_of() =~= (|param: Param| param.name));
    lemma_angles(
        lifetimes_first(params).map_values(name_of()) + more,
        more.len() == 0 && params.len() > 0 && lifetimes_first(params).last().comma,
    );
}

/// The fields of the builder are those of the struct that are not left out, in their order.
pub proof fn law_included_fields<'a>(fields: Seq<FieldInfo<'a>>)
    ensures
        included(fields) == kept_in(fields),
{
    assert(is_included::<'a>() =~= (|field: FieldInfo<'a>| !field.builder_attr.exclude));
}

proof fn lemma_attribute(inner: Seq<Tok>)
    ensures
        attribute(inner) == seq![mark('#'), brackets(inner)],
{
    lexemes::lemma_pound();
    assert(attribute(inner) =~= seq![mark('#'), brackets(inner)]);
}

proof fn lemma_documented(value: Seq<Tok>)
    ensures
        doc_attribute(value) == documented(value),
{
    lexemes::lemma_doc_eq();
    lemma_attribute(code("doc ="@) + value);
}

proof fn lemma_hidden()
    ensures
        listing_attribute("doc"@, "hidden"@) == hidden(),
{
    lexemes::lemma_doc();
    lexemes::lemma_hidden();
    let inner = seq![id("doc"@), parens(seq![id("hidden"@)])];
    assert(code("doc"@) + seq![parens(code("hidden"@))] =~= inner);
    lemma_attribute(inner);
}

proof fn lemma_allowing(arguments: Seq<char>, lints: Seq<Tok>)
    requires
        code(arguments) =~= lints,
    ensures
        listing_attribute("allow"@, arguments) == allowing(lints),
{
    lexemes::lemma_allow();
    let inner = seq![id("allow"@), parens(lints)];
    assert(code("allow"@) + seq![parens(code(arguments))] =~= inner);
    lemma_attribute(inner);
}

proof fn lemma_impl_lints()
    ensures
        listing_attribute(
            "allow"@,
            "dead_code, non_camel_case_types, missing_docs, clippy::default_trait_access"@,
        ) == allowing(impl_lints()),
{
    lexemes::lemma_allow_in_impl();
    lemma_allowing(
        "dead_code, non_camel_case_types, missing_docs, clippy::default_trait_access"@,
        impl_lints(),
    );
}

proof fn lemma_type_lints()
    ensures
        listing_attribute(
            "allow"@,
            "dead_code, non_camel_case_types, non_snake_case, clippy::default_trait_access"@,
        ) == allowing(type_lints()),
{
    lexemes::lemma_allow_in_type();
    lemma_allowing(
        "dead_code, non_camel_case_types, non_snake_case, clippy::default_trait_access"@,
        type_lints(),
    );
}

// The method `build()`.

/// The statement of `build()` that binds the value of a field to the name of the field.
pub open spec fn binding<'a>(field: FieldInfo<'a>, trait_name: Seq<char>) -> Seq<Tok> {
    match field.builder_attr.default {
        None => seq![
            id("let"@),
            id(field.name@),
            mark('='),
            id("self"@),
            mark('.'),
            id(field.name@),
            mark('.'),
            Tok::Int(0),
            mark(';'),
        ],
        Some(default) => if field.builder_attr.exclude {
            seq![id("let"@), id(field.name@), mark('=')] + tokens(default) + seq![mark(';')]
        } else {
            seq![
                id("let"@),
                id(field.name@),
                mark('='),
                id(trait_name),
                joint(':'),
                mark(':'),
                id("into_value"@),
                parens(
                    seq![
                        id("self"@),
                        mark('.'),
                        id(field.name@),
                        mark(','),
                        joint('|'),
                        mark('|'),
                    ] + tokens(default),
                ),
                mark(';'),
            ]
        },
    }
}

/// The statement of `build()` for a field binds the only element of the slot of a field without a
/// default, what was set or else the default of one with a default, and the default of one that is
/// left out.
pub proof fn law_binding<'a>(field: FieldInfo<'a>, trait_name: Seq<char>)
    ensures
        assignment(field, trait_name) == binding(field, trait_name),
{
    lexemes::lemma_let();
    lexemes::lemma_eq();
    lexemes::lemma_eq_self_dot();
    lexemes::lemma_dot();
    lexemes::lemma_semi();
    lexemes::lemma_self_dot();
    lexemes::lemma_comma_bars();
    lexemes::lemma_path_into_value();
    if let Some(default) = field.builder_attr.default {
        assert(code("self."@) + seq![id(field.name@)] + code(", ||"@) + tokens(default) =~= seq![
            id("self"@),
            mark('.'),
            id(field.name@),
            mark(','),
            joint('|'),
            mark('|'),
        ] + tokens(default));
    }
    assert(assignment(field, trait_name) =~= binding(field, trait_name));
}

proof fn lemma_default_params<'a>(
    params: Seq<Param>,
    fields: Seq<FieldInfo<'a>>,
    trait_name: Seq<char>,
)
    ensures
        with_default_params(params, fields, trait_name) == appended(
            params,
            fields.filter(
                |field: FieldInfo<'a>| field.builder_attr.default is Some,
            ).map_values(
                |field: FieldInfo<'a>|
                    type_param(
                        field.generic_ident@,
                        seq![id(field.generic_ident@), mark(':'), id(trait_name), mark('<')]
                            + tokens(*field.ty) + seq![mark('>')],
                    ),
            ),
        ),
    decreases fields.len(),
{
    reveal(Seq::filter);
    let optional = |field: FieldInfo<'a>| field.builder_attr.default is Some;
    let param = |field: FieldInfo<'a>|
        type_param(
            field.generic_ident@,
            seq![id(field.generic_ident@), mark(':'), id(trait_name), mark('<')] + tokens(*field.ty)
                + seq![mark('>')],
        );
    if fields.len() == 0 {
        assert(fields.filter(optional).map_values(param) =~= seq![]);
    } else {
        let front = fields.drop_last();
        let field = fields.last();
        lemma_default_params(params, front, trait_name);
        if field.builder_attr.default is Some {
            let more = fields.filter(optional).map_values(param);
            assert(more.drop_last() =~= front.filter(optional).map_values(param));
            let bounded = crate::generics::bounded_param(
                field.generic_ident@,
                trait_name,
                tokens(*field.ty),
            );
            assert(bounded.bounded =~= param(field).bounded);
            assert(bounded.name =~= param(field).name);
            assert(bounded == param(field));
            assert(more.last() == param(field));
        }
    }
}

/// The method `build()`, for all builders in which the fields without a default are set: it binds
/// the value of each field, that of a field without a default being the only element of its slot,
/// and makes the struct of all the fields.
pub proof fn law_build_method_tokens<'a>(info: StructInfo<'a>)
    ensures
        info.build_method() == ({
            let fields = info.fields@;
            let kept = kept_in(fields);
            let trait_name = info.conversion_helper_trait_name@;
            let params = appended(
                info.params(),
                kept.filter(|field: FieldInfo<'a>| field.builder_attr.default is Some).map_values(
                    |field: FieldInfo<'a>|
                        type_param(
                            field.generic_ident@,
                            seq![id(field.generic_ident@), mark(':'), id(trait_name), mark('<')]
                                + tokens(*field.ty) + seq![mark('>')],
                        ),
                ),
            );
            let slots = kept.map_values(
                |field: FieldInfo<'a>|
                    if field.builder_attr.default is Some {
                        seq![id(field.generic_ident@)]
                    } else {
                        seq![parens(tokens(*field.ty) + seq![mark(',')])]
                    },
            );
            let docs = if info.builder_attr.doc {
                match info.builder_attr.build_method_doc {
                    Some(doc) => documented(tokens(doc)),
                    None => documented(
                        seq![
                            Tok::Str(
                                "Finalise the builder and create its [`"@ + info.name@
                                    + "`] instance"@,
                            ),
                        ],
                    ),
                }
            } else {
                seq![]
            };
            let body = chain(
                fields.map_values(|field: FieldInfo<'a>| binding(field, trait_name)),
            ) + seq![id(info.name@)] + seq![
                braces(listing(fields.map_values(|field: FieldInfo<'a>| seq![id(field.name@)]))),
            ];
            allowing(impl_lints()) + seq![id("impl"@)] + impl_generics(params) + seq![
                id(info.builder_name@),
            ] + arguments(info.params(), slots) + where_clause(*info.generics) + seq![
                braces(
                    docs + seq![id("pub"@), id("fn"@), id("build"@)] + seq![
                        parens(seq![id("self"@)]),
                    ] + seq![joint('-'), mark('>')] + seq![id(info.name@)] + type_generics(
                        info.params(),
                    ) + seq![braces(body)],
                ),
            ]
        }),
{
    let fields = info.fields@;
    let trait_name = info.conversion_helper_trait_name@;
    lemma_impl_lints();
    lexemes::lemma_impl();
    lexemes::lemma_pub_fn_build();
    lexemes::lemma_self();
    lexemes::lemma_arrow();
    law_included_fields(fields);
    lemma_default_params(info.params(), included(fields), trait_name);
    let slots = kept_in(fields).map_values(
        |field: FieldInfo<'a>|
            if field.builder_attr.default is Some {
                seq![id(field.generic_ident@)]
            } else {
                seq![parens(tokens(*field.ty) + seq![mark(',')])]
            },
    );
    assert(build_slots(fields) =~= slots) by {
        assert forall|i: int| 0 <= i < slots.len() implies build_slots(fields)[i] == slots[i] by {
            assert(build_slots(fields)[i] == build_slot(kept_in(fields)[i]));
        }
    }
    law_extended_arguments(info.params(), slots);
    if let Some(doc) = info.builder_attr.build_method_doc {
        lemma_documented(tokens(doc));
    } else {
        lemma_documented(
            seq![Tok::Str("Finalise the builder and create its [`"@ + info.name@ + "`] instance"@)],
        );
    }
    let bindings = fields.map_values(|field: FieldInfo<'a>| binding(field, trait_name));
    assert(assignments(fields, trait_name) =~= bindings) by {
        assert forall|i: int| 0 <= i < fields.len() implies assignments(fields, trait_name)[i]
            == bindings[i] by {
            law_binding(fields[i], trait_name);
        }
    }
    lemma_chain(bindings);
    let names = fields.map_values(|field: FieldInfo<'a>| seq![id(field.name@)]);
    assert(field_names(fields) =~= names);
    lemma_listing(names);
}

// The setters.

proof fn lemma_field_params<'a>(params: Seq<Param>, fields: Seq<FieldInfo<'a>>)
    ensures
        with_field_params(params, fields) == appended(
            params,
            fields.map_values(
                |field: FieldInfo<'a>|
                    type_param(field.generic_ident@, seq![id(field.generic_ident@)]),
            ),
        ),
    decreases fields.len(),
{
    let param = |field: FieldInfo<'a>|
        type_param(field.generic_ident@, seq![id(field.generic_ident@)]);
    if fields.len() > 0 {
        lemma_field_params(params, fields.drop_last());
        let more = fields.map_values(param);
        assert(more.drop_last() =~= fields.drop_last().map_values(param));
        let plain = crate::generics::plain_param(fields.last().generic_ident@);
        assert(plain == param(fields.last()));
        assert(more.last() == param(fields.last()));
    }
}

/// The name of the field that makes the builder use the generic parameters of the struct.
pub open spec fn phantom_id() -> Tok {
    id("__typed_builder_phantom_generics"@)
}

/// A setter hands a field on under its name, as the builder held it.
pub proof fn law_kept_entry<'a>(field: FieldInfo<'a>)
    ensures
        kept_entry(field) == seq![
            id(field.name@),
            mark(':'),
            id("self"@),
            mark('.'),
            id(field.name@),
        ],
{
    lexemes::lemma_colon_self_dot();
    assert(kept_entry(field) =~= seq![
        id(field.name@),
        mark(':'),
        id("self"@),
        mark('.'),
        id(field.name@),
    ]);
}

/// The setter of a field, for all builders in which the field is not set: it takes any value that
/// converts into the type of the field, puts it into the slot of the field, and hands every other
/// field on as the builder held it.
pub proof fn law_setter_tokens<'a, 'b>(info: StructInfo<'a>, field: FieldInfo<'b>)
    ensures
        info.setter(field) == ({
            let kept = kept_in(info.fields@);
            let rest = kept.filter(|other: FieldInfo<'a>| other.ordinal != field.ordinal);
            let params = appended(
                info.params(),
                rest.map_values(
                    |other: FieldInfo<'a>|
                        type_param(other.generic_ident@, seq![id(other.generic_ident@)]),
                ),
            );
            let names = info.params().map_values(|param: Param| param.name);
            let source = names + kept.map_values(
                |other: FieldInfo<'a>|
                    if other.ordinal == field.ordinal {
                        seq![parens(seq![])]
                    } else {
                        seq![id(other.generic_ident@)]
                    },
            );
            let target = names + kept.map_values(
                |other: FieldInfo<'a>|
                    if other.ordinal == field.ordinal {
                        seq![parens(tokens(*other.ty) + seq![mark(',')])]
                    } else {
                        seq![id(other.generic_ident@)]
                    },
            );
            let docs = match field.builder_attr.doc {
                Some(doc) => documented(tokens(doc)),
                None => seq![],
            };
            let phantom_entry = if info.params().len() == 0 {
                seq![]
            } else {
                seq![phantom_id(), mark(':'), id("self"@), mark('.'), phantom_id(), mark(',')]
            };
            let entries = phantom_entry + seq![id(field.name@), mark(':')] + seq![
                parens(
                    seq![id("value"@), mark('.'), id("into"@), parens(seq![]), mark(',')],
                ),
                mark(','),
            ] + listing(
                rest.map_values(
                    |other: FieldInfo<'a>|
                        seq![
                            id(other.name@),
                            mark(':'),
                            id("self"@),
                            mark('.'),
                            id(other.name@),
                        ],
                ),
            );
            let head = docs + seq![
                id("pub"@),
                id("fn"@),
                id(field.name@),
                mark('<'),
                id(field.generic_ident@),
                mark(':'),
                id(info.core@),
                joint(':'),
                mark(':'),
                id("convert"@),
                joint(':'),
                mark(':'),
                id("Into"@),
                mark('<'),
            ] + tokens(*field.ty) + seq![
                joint('>'),
                mark('>'),
                parens(
                    seq![
                        id("self"@),
                        mark(','),
                        id("value"@),
                        mark(':'),
                        id(field.generic_ident@),
                    ],
                ),
                joint('-'),
                mark('>'),
                id(info.builder_name@),
            ] + in_angles(target, false);
            allowing(impl_lints()) + seq![id("impl"@)] + impl_generics(params) + seq![
                id(info.builder_name@),
            ] + in_angles(source, false) + where_clause(*info.generics) + seq![
                braces(head + seq![braces(seq![id(info.builder_name@), braces(entries)])]),
            ]
        }),
{
    let fields = info.fields@;
    let ordinal = field.ordinal;
    let kept = kept_in(fields);
    let rest = kept.filter(|other: FieldInfo<'a>| other.ordinal != field.ordinal);
    lemma_impl_lints();
    lexemes::lemma_impl();
    lexemes::lemma_pub_fn();
    lexemes::lemma_lt();
    lexemes::lemma_colon();
    lexemes::lemma_path_convert_path_into_lt();
    lexemes::lemma_gt_gt();
    lexemes::lemma_self_comma_value_colon();
    lexemes::lemma_arrow();
    lexemes::lemma_value_dot_into();
    lexemes::lemma_comma();
    lexemes::lemma_phantom_kept();
    law_included_fields(fields);
    assert(is_elsewhere::<'a>(ordinal) =~= (|other: FieldInfo<'a>| other.ordinal != field.ordinal));
    assert(others(fields, ordinal) == rest);
    lemma_field_params(info.params(), rest);
    assert(name_of() =~= (|param: Param| param.name));
    let names = info.params().map_values(|param: Param| param.name);
    let before = kept.map_values(
        |other: FieldInfo<'a>|
            if other.ordinal == field.ordinal {
                seq![parens(seq![])]
            } else {
                seq![id(other.generic_ident@)]
            },
    );
    let after = kept.map_values(
        |other: FieldInfo<'a>|
            if other.ordinal == field.ordinal {
                seq![parens(tokens(*other.ty) + seq![mark(',')])]
            } else {
                seq![id(other.generic_ident@)]
            },
    );
    assert(slots_before(fields, ordinal) =~= before) by {
        assert forall|i: int| 0 <= i < kept.len() implies slots_before(fields, ordinal)[i]
            == before[i] by {
            assert(slots_before(fields, ordinal)[i] == slot_before(kept[i], ordinal));
        }
    }
    assert(slots_after(fields, ordinal) =~= after) by {
        assert forall|i: int| 0 <= i < kept.len() implies slots_after(fields, ordinal)[i]
            == after[i] by {
            assert(slots_after(fields, ordinal)[i] == slot_after(kept[i], ordinal));
        }
    }
    lemma_angles(names + before, false);
    lemma_angles(names + after, false);
    if let Some(doc) = field.builder_attr.doc {
        lemma_documented(tokens(doc));
    }
    let docs = match field.builder_attr.doc {
        Some(doc) => documented(tokens(doc)),
        None => seq![],
    };
    let head = docs + seq![
        id("pub"@),
        id("fn"@),
        id(field.name@),
        mark('<'),
        id(field.generic_ident@),
        mark(':'),
        id(info.core@),
        joint(':'),
        mark(':'),
        id("convert"@),
        joint(':'),
        mark(':'),
        id("Into"@),
        mark('<'),
    ] + tokens(*field.ty) + seq![
        joint('>'),
        mark('>'),
        parens(
            seq![id("self"@), mark(','), id("value"@), mark(':'), id(field.generic_ident@)],
        ),
        joint('-'),
        mark('>'),
        id(info.builder_name@),
    ] + in_angles(names + after, false);
    assert(code("self, value:"@) + seq![id(field.generic_ident@)] =~= seq![
        id("self"@),
        mark(','),
        id("value"@),
        mark(':'),
        id(field.generic_ident@),
    ]);
    assert(setter_doc(field) == docs);
    assert(info.setter_head(field) =~= head);
    let entries = rest.map_values(
        |other: FieldInfo<'a>|
            seq![id(other.name@), mark(':'), id("self"@), mark('.'), id(other.name@)],
    );
    assert(kept_entries(fields, ordinal) =~= entries) by {
        assert forall|i: int| 0 <= i < rest.len() implies kept_entries(fields, ordinal)[i]
            == entries[i] by {
            law_kept_entry(rest[i]);
        }
    }
    lemma_listing(entries);
    let value = seq![id("value"@), mark('.'), id("into"@), parens(seq![]), mark(',')];
    assert(code("value.into"@) + unit_type() + code(","@) =~= value);
    let phantom_entry = if info.params().len() == 0 {
        seq![]
    } else {
        seq![phantom_id(), mark(':'), id("self"@), mark('.'), phantom_id(), mark(',')]
    };
    assert(phantom_kept(info.params()) =~= phantom_entry);
    let inner = phantom_entry + seq![id(field.name@), mark(':')] + seq![parens(value), mark(',')]
        + listing(entries);
    assert(phantom_entry + seq![id(field.name@)] + code(":"@) + seq![parens(value)] + code(","@)
        + listing(entries) =~= inner);
    assert(info.setter_value(field) =~= seq![id(info.builder_name@), braces(inner)]);
}

// The function `builder()` and the builder type.

/// The docs of `builder()` where the attributes give none.
pub open spec fn builder_docs<'a>(name: Seq<char>, fields: Seq<FieldInfo<'a>>) -> Seq<char> {
    "\n                    Create a builder for building `"@ + name
        + "`.\n                    On the builder, call "@ + text_listing(
        kept_in(fields).map_values(
            |field: FieldInfo<'a>|
                "`."@ + field.name@ + (if field.builder_attr.default is Some {
                    "(...)`(optional)"@
                } else {
                    "(...)`"@
                }),
        ),
        ", "@,
    )
        + " to set the values of the fields (they accept `Into` values).\n                    Finally, call `.build()` to create the instance of `"@
        + name + "`.\n                    "@
}

proof fn lemma_builder_docs<'a>(name: Seq<char>, fields: Seq<FieldInfo<'a>>)
    ensures
        crate::creation::builder_method_text(name, fields) == builder_docs(name, fields),
{
    let texts = kept_in(fields).map_values(
        |field: FieldInfo<'a>|
            "`."@ + field.name@ + (if field.builder_attr.default is Some {
                "(...)`(optional)"@
            } else {
                "(...)`"@
            }),
    );
    law_included_fields(fields);
    reveal_strlit("(...)`");
    reveal_strlit("(optional)");
    reveal_strlit("(...)`(optional)");
    assert("(...)`"@ + "(optional)"@ =~= "(...)`(optional)"@);
    assert(setter_texts(fields) =~= texts) by {
        assert forall|i: int| 0 <= i < texts.len() implies setter_texts(fields)[i] == texts[i] by {
            assert(setter_texts(fields)[i] == setter_text(kept_in(fields)[i]));
            assert(setter_text(kept_in(fields)[i]) =~= texts[i]);
        }
    }
    lemma_text_listing(texts, ", "@);
}

/// The type that makes the builder use a generic parameter of the struct.
pub open spec fn marker(core: Seq<char>, param: Param) -> Seq<Tok> {
    seq![
        id(core),
        joint(':'),
        mark(':'),
        id("marker"@),
        joint(':'),
        mark(':'),
        id("PhantomData"@),
        mark('<'),
    ] + (if param.kind is Lifetime {
        seq![mark('&')] + param.declared + seq![parens(seq![])]
    } else {
        param.name
    }) + seq![mark('>')]
}

proof fn lemma_marker(core: Seq<char>, param: Param)
    ensures
        phantom(core, param) == marker(core, param),
{
    lexemes::lemma_path_marker_path_phantomdata_lt();
    lexemes::lemma_amp();
    lexemes::lemma_gt();
    assert(phantom(core, param) =~= marker(core, param));
}

/// What stands in the braces of the builder type: the field that uses the generic parameters of the
/// struct, where there are any, with one type for each of them; and each field that is not left
/// out, with its type parameter for its type.
pub open spec fn declared_fields<'a>(info: StructInfo<'a>) -> Seq<Tok> {
    (if info.params().len() == 0 {
        seq![]
    } else {
        seq![
            phantom_id(),
            mark(':'),
            parens(listing(info.params().map_values(|param: Param| marker(info.core@, param)))),
            mark(','),
        ]
    }) + listing(
        kept_in(info.fields@).map_values(
            |field: FieldInfo<'a>| seq![id(field.name@), mark(':'), id(field.generic_ident@)],
        ),
    )
}

/// What stands in the braces of the builder that `builder()` makes.
pub open spec fn initial_fields<'a>(info: StructInfo<'a>) -> Seq<Tok> {
    (if info.params().len() == 0 {
        seq![]
    } else {
        seq![
            phantom_id(),
            mark(':'),
            id(info.core@),
            joint(':'),
            mark(':'),
            id("default"@),
            joint(':'),
            mark(':'),
            id("Default"@),
            joint(':'),
            mark(':'),
            id("default"@),
            parens(seq![]),
            mark(','),
        ]
    }) + listing(
        kept_in(info.fields@).map_values(
            |field: FieldInfo<'a>| seq![id(field.name@), mark(':'), parens(seq![])],
        ),
    )
}

proof fn lemma_declared_fields<'a>(info: StructInfo<'a>)
    ensures
        phantom_field(info.core@, info.params()) + comma_separated(generic_entries(info.fields@))
            == declared_fields(info),
{
    let fields = info.fields@;
    let params = info.params();
    lexemes::lemma_phantom_name();
    lexemes::lemma_comma();
    lexemes::lemma_colon();
    law_included_fields(fields);
    let markers = params.map_values(|param: Param| marker(info.core@, param));
    assert(phantoms(info.core@, params) =~= markers) by {
        assert forall|i: int| 0 <= i < params.len() implies phantoms(info.core@, params)[i]
            == markers[i] by {
            lemma_marker(info.core@, params[i]);
        }
    }
    lemma_listing(markers);
    let entries = kept_in(fields).map_values(
        |field: FieldInfo<'a>| seq![id(field.name@), mark(':'), id(field.generic_ident@)],
    );
    assert(generic_entries(fields) =~= entries) by {
        assert forall|i: int| 0 <= i < entries.len() implies generic_entries(fields)[i]
            == entries[i] by {
            assert(generic_entries(fields)[i] == generic_entry(kept_in(fields)[i]));
            assert(generic_entry(kept_in(fields)[i]) =~= entries[i]);
        }
    }
    lemma_listing(entries);
    if params.len() > 0 {
        assert(phantom_field(info.core@, params) =~= seq![
            phantom_id(),
            mark(':'),
            parens(listing(markers)),
            mark(','),
        ]);
    }
}

proof fn lemma_initial_fields<'a>(info: StructInfo<'a>)
    ensures
        phantom_value(info.core@, info.params()) + comma_separated(empty_entries(info.fields@))
            == initial_fields(info),
{
    let fields = info.fields@;
    let params = info.params();
    lexemes::lemma_phantom_name();
    lexemes::lemma_comma();
    lexemes::lemma_colon();
    lexemes::lemma_path_default_path_default_path_default();
    law_included_fields(fields);
    let entries = kept_in(fields).map_values(
        |field: FieldInfo<'a>| seq![id(field.name@), mark(':'), parens(seq![])],
    );
    assert(empty_entries(fields) =~= entries) by {
        assert forall|i: int| 0 <= i < entries.len() implies empty_entries(fields)[i]
            == entries[i] by {
            assert(empty_entries(fields)[i] == empty_entry(kept_in(fields)[i]));
            assert(empty_entry(kept_in(fields)[i]) =~= entries[i]);
        }
    }
    lemma_listing(entries);
    if params.len() > 0 {
        assert(phantom_value(info.core@, params) =~= seq![
            phantom_id(),
            mark(':'),
            id(info.core@),
            joint(':'),
            mark(':'),
            id("default"@),
            joint(':'),
            mark(':'),
            id("Default"@),
            joint(':'),
            mark(':'),
            id("default"@),
            parens(seq![]),
            mark(','),
        ]);
    }
}

/// The function `builder()`, with the visibility of the struct: it makes a builder in which no field
/// is set.
pub proof fn law_builder_method_tokens<'a>(info: StructInfo<'a>)
    ensures
        info.builder_method() == documented(
            match info.builder_attr.builder_method_doc {
                Some(doc) => tokens(doc),
                None => seq![Tok::Str(builder_docs(info.name@, info.fields@))],
            },
        ) + allowing(seq![id("dead_code"@), mark(',')] + clippy_lint()) + tokens(*info.vis) + seq![
            id("fn"@),
            id("builder"@),
        ] + seq![parens(seq![])] + seq![joint('-'), mark('>')] + (seq![id(info.builder_name@)]
            + arguments(
            info.params(),
            kept_in(info.fields@).map_values(|field: FieldInfo<'a>| seq![parens(seq![])]),
        )) + seq![braces(seq![id(info.builder_name@)] + seq![braces(initial_fields(info))])],
{
    lemma_builder_docs(info.name@, info.fields@);
    lemma_documented(info.builder_method_doc());
    lexemes::lemma_allow_in_fn();
    lemma_allowing(
        "dead_code, clippy::default_trait_access"@,
        seq![id("dead_code"@), mark(',')] + clippy_lint(),
    );
    lexemes::lemma_fn_builder();
    lexemes::lemma_arrow();
    law_included_fields(info.fields@);
    let slots = kept_in(info.fields@).map_values(|field: FieldInfo<'a>| seq![parens(seq![])]);
    assert(empty_slots(info.fields@) =~= slots);
    law_extended_arguments(info.params(), slots);
    lemma_initial_fields(info);
}

/// The builder type, with the visibility of the struct: its parameters are those of the struct and
/// one for each field that is not left out.
pub proof fn law_builder_type_tokens<'a>(info: StructInfo<'a>)
    ensures
        info.builder_type() == seq![mark('#'), brackets(seq![id("must_use"@)])] + (
        if info.builder_attr.doc {
            match info.builder_attr.builder_type_doc {
                Some(doc) => documented(tokens(doc)),
                None => documented(
                    seq![
                        Tok::Str(
                            "Builder for [`"@ + info.name@ + "`] instances.\n\nSee [`"@ + info.name@
                                + "::builder()`] for more info."@,
                        ),
                    ],
                ),
            }
        } else {
            hidden()
        }) + allowing(type_lints()) + tokens(*info.vis) + seq![id("struct"@)] + seq![
            id(info.builder_name@),
        ] + crate::generics::declared_generics(
            appended(
                info.params(),
                kept_in(info.fields@).map_values(
                    |field: FieldInfo<'a>|
                        type_param(field.generic_ident@, seq![id(field.generic_ident@)]),
                ),
            ),
        ) + seq![braces(declared_fields(info))],
{
    lexemes::lemma_must_use();
    lemma_attribute(code("must_use"@));
    lemma_hidden();
    if let Some(doc) = info.builder_attr.builder_type_doc {
        lemma_documented(tokens(doc));
    } else {
        lemma_documented(
            seq![
                Tok::Str(
                    "Builder for [`"@ + info.name@ + "`] instances.\n\nSee [`"@ + info.name@
                        + "::builder()`] for more info."@,
                ),
            ],
        );
    }
    lemma_type_lints();
    lexemes::lemma_struct();
    law_included_fields(info.fields@);
    lemma_field_params(info.params(), kept_in(info.fields@));
    lemma_declared_fields(info);
}

/// The code that gives a struct its builder: the name for `core`, the function `builder()` in an
/// `impl` of the struct with its generics, and the builder type.
pub proof fn law_creation_tokens<'a>(info: StructInfo<'a>)
    ensures
        info.creation() == seq![id("extern"@), id("crate"@), id("core"@), id("as"@)] + seq![
            id(info.core@),
        ] + seq![mark(';'), id("impl"@)] + impl_generics(info.params()) + seq![id(info.name@)]
            + type_generics(info.params()) + where_clause(*info.generics) + seq![
            braces(info.builder_method()),
        ] + info.builder_type(),
        info.params() == generic_params(*info.generics),
{
    lexemes::lemma_extern_crate_core_as();
    lexemes::lemma_semi_impl();
}

// The trait that falls back on defaults.

/// The trait that falls back on the default of a field that is not set: for `()` its method calls
/// for the default, and for a tuple of one value it takes the value out.
pub proof fn law_conversion_helper_tokens(trait_name: Seq<char>)
    ensures
        conversion_helper(trait_name) == ({
            let method = seq![
                id("fn"@),
                id("into_value"@),
                mark('<'),
                id("F"@),
                mark(':'),
                id("FnOnce"@),
                parens(seq![]),
                joint('-'),
                mark('>'),
                id("T"@),
                mark('>'),
            ];
            let returned = seq![joint('-'), mark('>'), id("T"@)];
            let defaulting = seq![
                parens(seq![id("self"@), mark(','), id("default"@), mark(':'), id("F"@)]),
            ];
            let taking = seq![parens(seq![id("self"@), mark(','), id("_"@), mark(':'), id("F"@)])];
            let implementing = seq![
                id("impl"@),
                mark('<'),
                id("T"@),
                mark('>'),
                id(trait_name),
                mark('<'),
                id("T"@),
                mark('>'),
                id("for"@),
            ];
            hidden() + allowing(type_lints()) + seq![
                id("pub"@),
                id("trait"@),
                id(trait_name),
                mark('<'),
                id("T"@),
                mark('>'),
                braces(method + defaulting + returned + seq![mark(';')]),
            ] + implementing + seq![
                parens(seq![]),
                braces(
                    method + defaulting + returned + seq![
                        braces(seq![id("default"@), parens(seq![])]),
                    ],
                ),
            ] + implementing + seq![
                parens(seq![id("T"@), mark(',')]),
                braces(
                    method + taking + returned + seq![
                        braces(seq![id("self"@), mark('.'), Tok::Int(0)]),
                    ],
                ),
            ]
        }),
{
    lemma_hidden();
    lemma_type_lints();
    lexemes::lemma_fn_into_value_lt_f_colon_fnonce();
    lexemes::lemma_arrow_t_gt();
    lexemes::lemma_arrow_t();
    lexemes::lemma_arrow_t_semi();
    lexemes::lemma_self_comma_default_colon_f();
    lexemes::lemma_default();
    lexemes::lemma_self_comma_colon_f();
    lexemes::lemma_self_dot();
    lexemes::lemma_pub_trait();
    lexemes::lemma_lt_t_gt();
    lexemes::lemma_impl_lt_t_gt();
    lexemes::lemma_lt_t_gt_for();
    lexemes::lemma_t_comma();
    let method = seq![
        id("fn"@),
        id("into_value"@),
        mark('<'),
        id("F"@),
        mark(':'),
        id("FnOnce"@),
        parens(seq![]),
        joint('-'),
        mark('>'),
        id("T"@),
        mark('>'),
    ];
    let returned = seq![joint('-'), mark('>'), id("T"@)];
    let defaulting = seq![
        parens(seq![id("self"@), mark(','), id("default"@), mark(':'), id("F"@)]),
    ];
    let taking = seq![parens(seq![id("self"@), mark(','), id("_"@), mark(':'), id("F"@)])];
    let implementing = seq![
        id("impl"@),
        mark('<'),
        id("T"@),
        mark('>'),
        id(trait_name),
        mark('<'),
        id("T"@),
        mark('>'),
        id("for"@),
    ];
    let declaration = method + defaulting + returned + seq![mark(';')];
    let default_body = seq![id("default"@), parens(seq![])];
    let by_default = method + defaulting + returned + seq![braces(default_body)];
    let taken_body = seq![id("self"@), mark('.'), Tok::Int(0)];
    let by_value = method + taking + returned + seq![braces(taken_body)];
    assert(crate::creation::into_value_head() =~= method);
    assert(crate::creation::into_value_declaration() =~= declaration);
    assert(code("default"@) + unit_type() =~= default_body);
    assert(crate::creation::into_value_default() =~= by_default);
    assert(code("self."@) + seq![Tok::Int(0)] =~= taken_body);
    assert(crate::creation::into_value_taken() =~= by_value);
    assert(conversion_helper(trait_name) =~= hidden() + allowing(type_lints()) + seq![
        id("pub"@),
        id("trait"@),
        id(trait_name),
        mark('<'),
        id("T"@),
        mark('>'),
        braces(declaration),
    ] + implementing + seq![parens(seq![]), braces(by_default)] + implementing + seq![
        parens(seq![id("T"@), mark(',')]),
        braces(by_value),
    ]);
}

} // verus!
