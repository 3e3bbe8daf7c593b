//! What is taken over from the declaration of a struct, and how the generated items agree on the
//! fields of the builder.
use vstd::prelude::*;

use crate::build_method::assignments;
use crate::builder_attr::{
    apply_attrs, attrs_are_readable, concerns_builder, no_attr, AttrModel, Attribute,
};
use crate::emit::concatenated;
use crate::error::{DeriveError, ErrorModel};
use crate::expr::args_are_readable;
use crate::field_info::{Field, FieldInfo};
use crate::generics::Param;
use crate::ident::is_ident;
use crate::laws::{law_fields_are_bound_in_order, law_fields_are_numbered, numbered};
use crate::struct_info::{
    builder_is_named, builder_text, included, lemma_suffix, placed, DeriveInput, StructInfo,
};
use crate::token::{is_ascii_text, tokens, Tok};
use crate::token_laws::{
    braces, declared_fields, id, initial_fields, joint, kept_in, law_binding,
    law_builder_method_tokens, law_builder_type_tokens, law_included_fields, law_setter_tokens,
    listing, mark, marker, parens, phantom_id,
};

verus! {

// What is taken over.

/// Each field that was read is taken over with its number, and with its name, its type, its type
/// parameter, its docs, whether it is left out, and its default as they were read.
pub proof fn law_fields_are_taken_over<'a>(
    fields: Seq<Result<Field<'a>, DeriveError>>,
    infos: Seq<FieldInfo<'a>>,
)
    requires
        fields.len() <= usize::MAX,
        placed(fields) == Ok::<Seq<FieldInfo<'a>>, DeriveError>(infos),
    ensures
        infos.len() == fields.len(),
        numbered(infos),
        forall|i: int|
            #![trigger infos[i]]
            #![trigger fields[i]]
            0 <= i < infos.len() ==> fields[i] is Ok && {
                let field = fields[i]->Ok_0;
                &&& infos[i].ordinal == i
                &&& infos[i].name == field.name
                &&& infos[i].ty == field.ty
                &&& infos[i].generic_ident == field.generic_ident
                &&& infos[i].builder_attr.doc == field.builder_attr.doc
                &&& infos[i].builder_attr.exclude == field.builder_attr.exclude
                &&& infos[i].builder_attr.default == field.builder_attr.default
            },
{
    law_fields_are_numbered(fields);
    assert forall|i: int|
        #![trigger infos[i]]
        #![trigger fields[i]]
        0 <= i < infos.len() implies fields[i] is Ok && {
        let field = fields[i]->Ok_0;
        &&& infos[i].ordinal == i
        &&& infos[i].name == field.name
        &&& infos[i].ty == field.ty
        &&& infos[i].generic_ident == field.generic_ident
        &&& infos[i].builder_attr.doc == field.builder_attr.doc
        &&& infos[i].builder_attr.exclude == field.builder_attr.exclude
        &&& infos[i].builder_attr.default == field.builder_attr.default
    } by {
        assert(infos[i] == FieldInfo::at(i as usize, fields[i]->Ok_0));
    }
}

/// The first field that was not read decides, with its own error.
pub proof fn law_first_unread_field<'a>(fields: Seq<Result<Field<'a>, DeriveError>>, n: int)
    requires
        0 <= n < fields.len(),
        forall|i: int| 0 <= i < n ==> (#[trigger] fields[i]) is Ok,
        fields[n] is Err,
    ensures
        placed(fields) == Err::<Seq<FieldInfo<'a>>, DeriveError>(fields[n]->Err_0),
    decreases fields.len(),
{
    let front = fields.drop_last();
    if n == fields.len() - 1 {
        lemma_all_read(front);
    } else {
        assert forall|i: int| 0 <= i < n implies (#[trigger] front[i]) is Ok by {
            assert(front[i] == fields[i]);
        }
        law_first_unread_field(front, n);
    }
}

proof fn lemma_all_read<'a>(fields: Seq<Result<Field<'a>, DeriveError>>)
    requires
        forall|i: int| 0 <= i < fields.len() ==> (#[trigger] fields[i]) is Ok,
    ensures
        placed(fields) is Ok,
    decreases fields.len(),
{
    if fields.len() > 0 {
        let front = fields.drop_last();
        assert forall|i: int| 0 <= i < front.len() implies (#[trigger] front[i]) is Ok by {
            assert(front[i] == fields[i]);
        }
        lemma_all_read(front);
        assert(fields[fields.len() - 1] is Ok);
    }
}

/// What is known of a struct is what its declaration says: its visibility, name and generics, its
/// fields, and what its attributes say. The trait that falls back on defaults and the name for
/// `core` are called like the builder, with `_Optional` and `_core` behind it.
pub proof fn law_declaration_is_taken_over<'a>(
    info: StructInfo<'a>,
    ast: DeriveInput,
    model: AttrModel,
    text: Seq<char>,
    fields: Seq<FieldInfo<'a>>,
)
    requires
        info.describes(ast, model, text, fields),
    ensures
        tokens(*info.vis) == tokens(ast.vis),
        info.name@ == ast.ident@,
        *info.generics == ast.generics,
        info.fields@ == fields,
        info.builder_attr@.doc == model.doc,
        info.builder_attr@.name == model.name,
        info.builder_attr@.builder_method_doc == model.builder_method_doc,
        info.builder_attr@.builder_type_doc == model.builder_type_doc,
        info.builder_attr@.build_method_doc == model.build_method_doc,
        (forall|i: int| 0 <= i < text.len() ==> #[trigger] text[i] <= '\x7f') ==> {
            &&& info.builder_name@ == text
            &&& info.conversion_helper_trait_name@ == text + "_Optional"@
            &&& info.core@ == text + "_core"@
        },
{
    if forall|i: int| 0 <= i < text.len() ==> #[trigger] text[i] <= '\x7f' {
        reveal_strlit("_Optional");
        reveal_strlit("_core");
        assert(is_ascii_text(text));
        assert(is_ascii_text(text + "_Optional"@));
        assert(is_ascii_text(text + "_core"@));
    }
}

/// The builder is called by the identifier that the attributes give, or else like the struct with
/// `Builder` behind it. So a struct whose attributes give an identifier, or none, gets a builder.
pub proof fn law_builder_is_named<'a>(
    ast: DeriveInput,
    model: AttrModel,
    given: Seq<char>,
    fields: Seq<Result<Field<'a>, DeriveError>>,
)
    requires
        apply_attrs(no_attr(), ast.attrs@) == Ok::<AttrModel, ErrorModel>(model),
    ensures
        model.name is None ==> builder_text(model, ast.ident@) == Some(ast.ident@ + "Builder"@),
        model.name == Some(seq![Tok::Ident(given)]) ==> builder_text(model, ast.ident@) == Some(
            given,
        ),
        model.name is None && is_ident(ast.ident@) ==> builder_is_named(ast, fields),
        model.name == Some(seq![Tok::Ident(given)]) && is_ident(given) ==> builder_is_named(
            ast,
            fields,
        ),
{
    reveal_strlit("Builder");
    if is_ident(ast.ident@) {
        lemma_suffix(ast.ident@, "Builder"@);
    }
}

/// Letters, digits and underscores of ASCII make an identifier, where the first is not a digit. A
/// text with any other character of ASCII is none, nor is one that starts with a digit.
pub proof fn law_ascii_identifiers(text: Seq<char>)
    requires
        text.len() > 0,
        forall|i: int| 0 <= i < text.len() ==> #[trigger] text[i] <= '\x7f',
    ensures
        is_ident(text) <==> !('0' <= text[0] <= '9') && (forall|i: int|
            0 <= i < text.len() ==> 'a' <= #[trigger] text[i] <= 'z' || 'A' <= text[i] <= 'Z' || '0'
                <= text[i] <= '9' || text[i] == '_'),
{
    if is_ident(text) {
        assert forall|i: int| 0 <= i < text.len() implies 'a' <= #[trigger] text[i] <= 'z' || 'A'
            <= text[i] <= 'Z' || '0' <= text[i] <= '9' || text[i] == '_' by {
            if i > 0 {
                assert(crate::ident::is_ident_continue(text[i]));
            }
        }
    }
}

/// Attributes can be parsed without fail where all of those are that have to be parsed.
pub proof fn law_readable_attributes(model: AttrModel, attrs: Seq<Attribute>)
    requires
        forall|i: int|
            0 <= i < attrs.len() && concerns_builder(#[trigger] attrs[i]) ==> args_are_readable(
                tokens(attrs[i].tts),
            ),
    ensures
        attrs_are_readable(model, attrs),
    decreases attrs.len(),
{
    if attrs.len() > 0 {
        let rest = attrs.skip(1);
        assert(concerns_builder(attrs[0]) ==> args_are_readable(tokens(attrs[0].tts)));
        assert forall|i: int|
            0 <= i < rest.len() && concerns_builder(#[trigger] rest[i]) implies args_are_readable(
            tokens(rest[i].tts),
        ) by {
            assert(rest[i] == attrs[i + 1]);
        }
        if let Ok(next) = crate::builder_attr::apply_attr(model, attrs[0]) {
            law_readable_attributes(next, rest);
        }
    }
}

// The statements of `build()`.

/// In `build()` the statement of a field without a default, whatever its place, binds the only
/// element of the slot that its setter fills; that of a field with a default binds what was set or
/// else the default; and that of a field that is left out binds the default. It stands behind those
/// of all the fields in front, and every field is bound once.
pub proof fn law_build_binds_each_field<'a>(info: StructInfo<'a>, i: int)
    requires
        0 <= i < info.fields@.len(),
    ensures
        ({
            let field = info.fields@[i];
            let name = id(field.name@);
            let trait_name = info.conversion_helper_trait_name@;
            let statement = match field.builder_attr.default {
                None => seq![
                    id("let"@),
                    name,
                    mark('='),
                    id("self"@),
                    mark('.'),
                    name,
                    mark('.'),
                    Tok::Int(0),
                    mark(';'),
                ],
                Some(default) => if field.builder_attr.exclude {
                    seq![id("let"@), name, mark('=')] + tokens(default) + seq![mark(';')]
                } else {
                    seq![
                        id("let"@),
                        name,
                        mark('='),
                        id(trait_name),
                        joint(':'),
                        mark(':'),
                        id("into_value"@),
                        parens(
                            seq![
                                id("self"@),
                                mark('.'),
                                name,
                                mark(','),
                                joint('|'),
                                mark('|'),
                            ] + tokens(default),
                        ),
                        mark(';'),
                    ]
                },
            };
            concatenated(assignments(info.fields@, trait_name)) == concatenated(
                assignments(info.fields@.take(i), trait_name),
            ) + statement + concatenated(assignments(info.fields@.skip(i + 1), trait_name))
        }),
        info.build_body().len() >= 2,
        info.build_body().take(info.build_body().len() - 2) == concatenated(
            assignments(info.fields@, info.conversion_helper_trait_name@),
        ),
{
    let trait_name = info.conversion_helper_trait_name@;
    law_fields_are_bound_in_order(info.fields@, trait_name, i);
    law_binding(info.fields@[i], trait_name);
    let statements = concatenated(assignments(info.fields@, trait_name));
    assert(info.build_body().len() == statements.len() + 2);
    assert(info.build_body().take(info.build_body().len() - 2) =~= statements);
}

// The fields of the builder.

/// The place of the first comma, or the end.
pub open spec fn first_comma(content: Seq<Tok>) -> nat
    decreases content.len(),
{
    if content.len() == 0 || content[0] == mark(',') {
        0
    } else {
        1 + first_comma(content.skip(1))
    }
}

/// The first tokens of the entries that stand between commas: the names of fields.
pub open spec fn entry_names(content: Seq<Tok>) -> Seq<Tok>
    decreases content.len(),
{
    if content.len() == 0 {
        seq![]
    } else {
        let n = first_comma(content) as int;
        seq![content[0]] + (if n < content.len() {
            entry_names(content.skip(n + 1))
        } else {
            seq![]
        })
    }
}

proof fn lemma_entry(entry: Seq<Tok>, rest: Seq<Tok>)
    requires
        entry.len() > 0,
        forall|i: int| 0 <= i < entry.len() ==> #[trigger] entry[i] != mark(','),
    ensures
        first_comma(entry) == entry.len(),
        entry_names(entry) == seq![entry[0]],
        first_comma(entry + seq![mark(',')] + rest) == entry.len(),
        entry_names(entry + seq![mark(',')] + rest) == seq![entry[0]] + entry_names(rest),
{
    lemma_entry_length(entry, rest);
    let n = entry.len() as int;
    assert((entry + seq![mark(',')] + rest).skip(n + 1) =~= rest);
    assert(entry_names(entry) =~= seq![entry[0]]);
}

proof fn lemma_entry_length(entry: Seq<Tok>, rest: Seq<Tok>)
    requires
        forall|i: int| 0 <= i < entry.len() ==> #[trigger] entry[i] != mark(','),
    ensures
        first_comma(entry) == entry.len(),
        first_comma(entry + seq![mark(',')] + rest) == entry.len(),
    decreases entry.len(),
{
    let whole = entry + seq![mark(',')] + rest;
    if entry.len() > 0 {
        let tail = entry.skip(1);
        assert forall|i: int| 0 <= i < tail.len() implies #[trigger] tail[i] != mark(',') by {
            assert(tail[i] == entry[i + 1]);
        }
        lemma_entry_length(tail, rest);
        assert(whole.skip(1) =~= tail + seq![mark(',')] + rest);
        assert(entry[0] != mark(','));
    } else {
        assert(whole[0] == mark(','));
    }
}

/// Items with commas between them that each are one entry have the names of the entries.
proof fn lemma_entries(items: Seq<Seq<Tok>>)
    requires
        forall|i: int| #![trigger items[i]] 0 <= i < items.len() ==> is_entry(items[i]),
    ensures
        entry_names(listing(items)) == items.map_values(|item: Seq<Tok>| item[0]),
    decreases items.len(),
{
    let first = |item: Seq<Tok>| item[0];
    if items.len() == 0 {
        assert(items.map_values(first) =~= seq![]);
    } else {
        assert(is_entry(items[0]));
        lemma_entry(items[0], listing(items.skip(1)));
        if items.len() == 1 {
            assert(items.map_values(first) =~= seq![items[0][0]]);
        } else {
            let rest = items.skip(1);
            assert forall|i: int| #![trigger rest[i]] 0 <= i < rest.len() implies is_entry(
                rest[i],
            ) by {
                assert(rest[i] == items[i + 1]);
            }
            lemma_entries(rest);
            assert(items.map_values(first) =~= seq![items[0][0]] + rest.map_values(first));
        }
    }
}

/// That tokens are one entry: a name with something behind it, and no comma.
spec fn is_entry(item: Seq<Tok>) -> bool {
    item.len() > 0 && forall|i: int| 0 <= i < item.len() ==> #[trigger] item[i] != mark(',')
}

/// The tokens in a group.
pub open spec fn inside(token: Tok) -> Seq<Tok> {
    match token {
        Tok::Group(_, inner) => inner,
        _ => seq![],
    }
}

/// The names of the fields of the builder: the field that uses the generic parameters of the struct
/// if and only if there are any, and the fields that are not left out.
pub open spec fn builder_field_names<'a>(info: StructInfo<'a>) -> Seq<Tok> {
    (if info.params().len() > 0 {
        seq![id("__typed_builder_phantom_generics"@)]
    } else {
        seq![]
    }) + info.fields@.filter(|field: FieldInfo<'a>| !field.builder_attr.exclude).map_values(
        |field: FieldInfo<'a>| id(field.name@),
    )
}

proof fn lemma_phantom_in_front(front: Seq<Tok>, rest: Seq<Tok>)
    requires
        is_entry(front),
    ensures
        entry_names(front + seq![mark(',')] + rest) == seq![front[0]] + entry_names(rest),
{
    lemma_entry(front, rest);
}

proof fn lemma_declared_names<'a>(info: StructInfo<'a>)
    ensures
        entry_names(declared_fields(info)) == builder_field_names(info),
{
    let kept = kept_in(info.fields@);
    let items = kept.map_values(
        |field: FieldInfo<'a>| seq![id(field.name@), mark(':'), id(field.generic_ident@)],
    );
    assert forall|i: int| #![trigger items[i]] 0 <= i < items.len() implies is_entry(items[i]) by {
        assert(items[i] == seq![id(kept[i].name@), mark(':'), id(kept[i].generic_ident@)]);
    }
    lemma_entries(items);
    assert(items.map_values(|item: Seq<Tok>| item[0]) =~= kept.map_values(
        |field: FieldInfo<'a>| id(field.name@),
    ));
    if info.params().len() > 0 {
        let front = seq![
            phantom_id(),
            mark(':'),
            parens(listing(info.params().map_values(|param: Param| marker(info.core@, param)))),
        ];
        lemma_phantom_in_front(front, listing(items));
        assert(declared_fields(info) =~= front + seq![mark(',')] + listing(items));
    } else {
        assert(declared_fields(info) =~= listing(items));
    }
    assert(entry_names(declared_fields(info)) =~= builder_field_names(info));
}

proof fn lemma_initial_names<'a>(info: StructInfo<'a>)
    ensures
        entry_names(initial_fields(info)) == builder_field_names(info),
{
    let kept = kept_in(info.fields@);
    let items = kept.map_values(
        |field: FieldInfo<'a>| seq![id(field.name@), mark(':'), parens(seq![])],
    );
    assert forall|i: int| #![trigger items[i]] 0 <= i < items.len() implies is_entry(items[i]) by {
        assert(items[i] == seq![id(kept[i].name@), mark(':'), parens(seq![])]);
    }
    lemma_entries(items);
    assert(items.map_values(|item: Seq<Tok>| item[0]) =~= kept.map_values(
        |field: FieldInfo<'a>| id(field.name@),
    ));
    if info.params().len() > 0 {
        let front = seq![
            phantom_id(),
            mark(':'),
            id(info.core@),
            joint(':'),
            mark(':'),
            id("default"@),
            joint(':'),
            mark(':'),
            id("Default"@),
            joint(':'),
            mark(':'),
            id("default"@),
            parens(seq![]),
        ];
        lemma_phantom_in_front(front, listing(items));
        assert(initial_fields(info) =~= front + seq![mark(',')] + listing(items));
    } else {
        assert(initial_fields(info) =~= listing(items));
    }
    assert(entry_names(initial_fields(info)) =~= builder_field_names(info));
}

/// The builder type declares exactly the fields that `builder()` initialises: the one that uses the
/// generic parameters of the struct if and only if there are any, and those that are not left out.
pub proof fn law_declared_fields_are_initialised<'a>(info: StructInfo<'a>)
    ensures
        info.builder_type().len() > 0,
        entry_names(inside(info.builder_type().last())) == builder_field_names(info),
        info.builder_method().len() > 0,
        inside(info.builder_method().last()).len() == 2,
        inside(info.builder_method().last())[0] == id(info.builder_name@),
        entry_names(inside(inside(info.builder_method().last())[1])) == builder_field_names(info),
{
    law_builder_type_tokens(info);
    law_builder_method_tokens(info);
    lemma_declared_names(info);
    lemma_initial_names(info);
    assert(info.builder_type().last() == braces(declared_fields(info)));
    assert(info.builder_method().last() == braces(
        seq![id(info.builder_name@)] + seq![braces(initial_fields(info))],
    ));
}

/// The setter of a field makes a builder with exactly the fields that the builder type declares: the
/// one that uses the generic parameters of the struct if there are any, its own field, and all the
/// others in their order.
pub proof fn law_setter_initialises_all_fields<'a>(info: StructInfo<'a>, k: int)
    requires
        numbered(info.fields@),
        0 <= k < included(info.fields@).len(),
    ensures
        ({
            let kept = info.fields@.filter(|field: FieldInfo<'a>| !field.builder_attr.exclude);
            let value = info.setter_value(kept[k]);
            &&& included(info.fields@) == kept
            &&& value.len() == 2
            &&& value[0] == id(info.builder_name@)
            &&& inside(inside(info.setter(kept[k]).last()).last()) == value
            &&& entry_names(inside(value[1])) == (if info.params().len() > 0 {
                seq![id("__typed_builder_phantom_generics"@)]
            } else {
                seq![]
            }) + seq![id(kept[k].name@)] + kept.remove(k).map_values(
                |field: FieldInfo<'a>| id(field.name@),
            )
            &&& entry_names(inside(value[1])).to_multiset() == builder_field_names(
                info,
            ).to_multiset()
        }),
{
    let fields = info.fields@;
    let kept = kept_in(fields);
    law_included_fields(fields);
    let field = kept[k];
    crate::laws::law_setter_keeps_the_others(fields, k);
    law_setter_tokens(info, field);
    let rest = kept.filter(|other: FieldInfo<'a>| other.ordinal != field.ordinal);
    assert(crate::setter::is_elsewhere::<'a>(field.ordinal) =~= (|other: FieldInfo<'a>|
        other.ordinal != field.ordinal));
    assert(rest == kept.remove(k));
    let items = rest.map_values(
        |other: FieldInfo<'a>|
            seq![id(other.name@), mark(':'), id("self"@), mark('.'), id(other.name@)],
    );
    assert forall|i: int| #![trigger items[i]] 0 <= i < items.len() implies is_entry(items[i]) by {
        assert(items[i] == seq![
            id(rest[i].name@),
            mark(':'),
            id("self"@),
            mark('.'),
            id(rest[i].name@),
        ]);
    }
    lemma_entries(items);
    let names = rest.map_values(|other: FieldInfo<'a>| id(other.name@));
    assert(items.map_values(|item: Seq<Tok>| item[0]) =~= names);
    let own = seq![
        id(field.name@),
        mark(':'),
        parens(seq![id("value"@), mark('.'), id("into"@), parens(seq![]), mark(',')]),
    ];
    lemma_phantom_in_front(own, listing(items));
    let phantom_entry = if info.params().len() == 0 {
        seq![]
    } else {
        seq![phantom_id(), mark(':'), id("self"@), mark('.'), phantom_id(), mark(',')]
    };
    let entries = phantom_entry + seq![id(field.name@), mark(':')] + seq![
        parens(seq![id("value"@), mark('.'), id("into"@), parens(seq![]), mark(',')]),
        mark(','),
    ] + listing(items);
    let tail = own + seq![mark(',')] + listing(items);
    if info.params().len() > 0 {
        let front = seq![phantom_id(), mark(':'), id("self"@), mark('.'), phantom_id()];
        lemma_phantom_in_front(front, tail);
        assert(entries =~= front + seq![mark(',')] + tail);
    } else {
        assert(entries =~= tail);
    }
    let phantom_name = if info.params().len() > 0 {
        seq![id("__typed_builder_phantom_generics"@)]
    } else {
        seq![]
    };
    assert(entry_names(entries) =~= phantom_name + seq![id(field.name@)] + names);
    assert(info.setter(field).last() is Group);
    assert(inside(info.setter(field).last()).last() == braces(info.setter_value(field)));
    assert(inside(info.setter(field).last()).last() == braces(
        seq![id(info.builder_name@), braces(entries)],
    ));
    assert(inside(info.setter_value(field)[1]) == entries);
    lemma_moved_to_front(
        phantom_name,
        kept.map_values(|other: FieldInfo<'a>| id(other.name@)),
        k,
    );
    assert(kept.remove(k).map_values(|other: FieldInfo<'a>| id(other.name@)) =~= kept.map_values(
        |other: FieldInfo<'a>| id(other.name@),
    ).remove(k));
}

proof fn lemma_moved_to_front<A>(front: Seq<A>, items: Seq<A>, k: int)
    requires
        0 <= k < items.len(),
    ensures
        (front + seq![items[k]] + items.remove(k)).to_multiset() == (front + items).to_multiset(),
{
    broadcast use vstd::seq_lib::group_to_multiset_ensures;
    broadcast use vstd::multiset::group_multiset_axioms;

    vstd::seq_lib::lemma_multiset_commutative(front + seq![items[k]], items.remove(k));
    vstd::seq_lib::lemma_multiset_commutative(front, seq![items[k]]);
    vstd::seq_lib::lemma_multiset_commutative(front, items);
    assert(seq![items[k]] =~= Seq::<A>::empty().push(items[k]));
    assert(items.to_multiset() =~= items.remove(k).to_multiset().insert(items[k])) by {
        vstd::seq_lib::to_multiset_remove(items, k);
        vstd::seq_lib::to_multiset_contains(items, items[k]);
    }
    assert((front + seq![items[k]] + items.remove(k)).to_multiset() =~= (front
        + items).to_multiset());
}

} // verus!
