//! What holds of the attributes, the declaration and the generated code as a whole.
use vstd::prelude::*;

use crate::build_method::{
    assignment, assignments, build_method_text, build_slot, build_slots, with_default_params,
};
use crate::builder_attr::{
    apply, apply_all, apply_assign, apply_attr, apply_attrs, concerns_builder,
    docs_are_shown, no_attr, AttrModel, Attribute,
};
use crate::creation::{
    builder_method_text, builder_type_text, empty_entries, empty_entry, empty_slots,
    generic_entries, generic_entry, setter_text, setter_texts, with_field_params,
};
use crate::emit::{concatenated, doc_attribute, listing_attribute};
use crate::error::{DeriveError, ErrorModel};
use crate::expr::{args_model, ArgsModel, ExprModel};
use crate::field_info::{tuple_type, unit_type, Field, FieldInfo};
use crate::generics::{
    angle_bracketed, extended_arguments, lifetimes_first, name_of, of_kind, where_clause,
    with_param, Param,
};
use crate::ident::is_ident;
use crate::sequences::{lemma_filter_next, lemma_filter_none};
use crate::setter::{
    is_elsewhere, kept_entries, kept_entry, others, setter_doc, slot_after, slot_before,
    slots_after, slots_before,
};
use crate::struct_info::{
    included, is_included, lemma_suffix, placed, DeriveInput, StructInfo,
};
use crate::token::{is_ascii_text, optional_tokens, string, tokens, word, Tok};

verus! {

// Attributes.

proof fn lemma_apply_keeps_docs_shown(model: AttrModel, exprs: Seq<ExprModel>)
    requires
        docs_are_shown(model),
    ensures
        docs_are_shown(apply_all(model, exprs).0),
    decreases exprs.len(),
{
    if exprs.len() > 0 {
        if let Ok(next) = apply(model, exprs[0]) {
            lemma_apply_keeps_docs_shown(next, exprs.skip(1));
        }
    }
}

proof fn lemma_attrs_keep_docs_shown(model: AttrModel, attrs: Seq<Attribute>)
    requires
        docs_are_shown(model),
    ensures
        apply_attrs(model, attrs) matches Ok(next) ==> docs_are_shown(next),
    decreases attrs.len(),
{
    if attrs.len() > 0 {
        if concerns_builder(attrs[0]) {
            if let Ok(ArgsModel::Listed(exprs)) = args_model(tokens(attrs[0].tts)) {
                lemma_apply_keeps_docs_shown(model, exprs);
            }
        }
        if let Ok(next) = apply_attr(model, attrs[0]) {
            lemma_attrs_keep_docs_shown(next, attrs.skip(1));
        }
    }
}

/// To specify docs on the builder type or on its `build()` method implies `doc`, whatever other
/// attributes a struct has.
pub proof fn law_docs_imply_doc(attrs: Seq<Attribute>)
    ensures
        apply_attrs(no_attr(), attrs) matches Ok(model) ==> docs_are_shown(model),
{
    lemma_attrs_keep_docs_shown(no_attr(), attrs);
}

/// Docs that are specified are the docs of the builder type and of `build()`.
pub proof fn law_specified_docs_are_shown<'a>(info: StructInfo<'a>)
    requires
        docs_are_shown(info.builder_attr@),
    ensures
        info.builder_attr.builder_type_doc matches Some(doc) ==> info.builder_type_doc()
            == doc_attribute(tokens(doc)),
        info.builder_attr.build_method_doc matches Some(doc) ==> info.build_method_doc()
            == doc_attribute(tokens(doc)),
{
}

/// Where docs are shown and none are specified, the builder type and `build()` get default docs.
/// Where they are not shown, the builder type is hidden and `build()` has none. The docs of
/// `builder()` are there either way.
pub proof fn law_default_docs<'a>(info: StructInfo<'a>)
    ensures
        info.builder_attr.doc && info.builder_attr.builder_type_doc is None
            ==> info.builder_type_doc() == doc_attribute(string(builder_type_text(info.name@))),
        info.builder_attr.doc && info.builder_attr.build_method_doc is None
            ==> info.build_method_doc() == doc_attribute(string(build_method_text(info.name@))),
        !info.builder_attr.doc ==> info.builder_type_doc() == listing_attribute("doc"@, "hidden"@)
            && info.build_method_doc() == Seq::<Tok>::empty(),
        info.builder_attr.builder_method_doc is None ==> info.builder_method_doc() == string(
            builder_method_text(info.name@, info.fields@),
        ),
{
}

/// The attributes of a struct take effect one after the other: what comes first is known when the
/// rest is read, and the first that is refused decides.
pub proof fn law_attributes_in_order(model: AttrModel, first: Seq<Attribute>, rest: Seq<Attribute>)
    ensures
        apply_attrs(model, first + rest) == (match apply_attrs(model, first) {
            Ok(next) => apply_attrs(next, rest),
            Err(error) => Err(error),
        }),
    decreases first.len(),
{
    if first.len() == 0 {
        assert(first + rest =~= rest);
    } else {
        assert((first + rest)[0] == first[0]);
        assert((first + rest).skip(1) =~= first.skip(1) + rest);
        if let Ok(next) = apply_attr(model, first[0]) {
            law_attributes_in_order(next, first.skip(1), rest);
        }
    }
}

/// An attribute that is not called `builder`, or that has no arguments, changes nothing wherever it
/// stands.
pub proof fn law_other_attributes_are_ignored(
    model: AttrModel,
    first: Seq<Attribute>,
    other: Attribute,
    rest: Seq<Attribute>,
)
    requires
        !concerns_builder(other),
    ensures
        apply_attrs(model, first + seq![other] + rest) == apply_attrs(model, first + rest),
{
    law_attributes_in_order(model, first + seq![other], rest);
    law_attributes_in_order(model, first, seq![other]);
    law_attributes_in_order(model, first, rest);
    if let Ok(next) = apply_attrs(model, first) {
        assert(seq![other].skip(1) =~= seq![]);
        assert(apply_attrs(next, seq![other].skip(1)) == Ok::<AttrModel, ErrorModel>(next));
        assert(apply_attrs(next, seq![other]) == Ok::<AttrModel, ErrorModel>(next));
    }
}

/// Which attributes are `builder` attributes with arguments.
pub open spec fn concerning() -> spec_fn(Attribute) -> bool {
    |attr: Attribute| concerns_builder(attr)
}

/// Nothing but the `builder` attributes with arguments counts: with any other attributes among
/// them, they give the same result.
pub proof fn law_only_builder_attributes_count(model: AttrModel, attrs: Seq<Attribute>)
    ensures
        apply_attrs(model, attrs) == apply_attrs(model, attrs.filter(concerning())),
    decreases attrs.len(),
{
    reveal(Seq::filter);
    if attrs.len() > 0 {
        let front = attrs.drop_last();
        let last = seq![attrs.last()];
        assert(attrs =~= front + last);
        law_only_builder_attributes_count(model, front);
        law_attributes_in_order(model, front, last);
        if concerns_builder(attrs.last()) {
            law_attributes_in_order(model, front.filter(concerning()), last);
            assert(attrs.filter(concerning()) =~= front.filter(concerning()) + last);
        } else {
            assert(front + seq![attrs.last()] + seq![] =~= attrs);
            assert(front + Seq::<Attribute>::empty() =~= front);
            law_other_attributes_are_ignored(model, front, attrs.last(), seq![]);
        }
    }
}

proof fn lemma_single_arguments(model: AttrModel, exprs: Seq<ExprModel>, each: Seq<Attribute>)
    requires
        each.len() == exprs.len(),
        forall|i: int|
            #![trigger each[i]]
            0 <= i < each.len() ==> concerns_builder(each[i]) && args_model(tokens(each[i].tts))
                == Ok::<ArgsModel, Seq<char>>(ArgsModel::Listed(seq![exprs[i]])),
    ensures
        apply_attrs(model, each) == (match apply_all(model, exprs) {
            (next, None) => Ok(next),
            (_, Some(error)) => Err(error),
        }),
    decreases exprs.len(),
{
    if exprs.len() > 0 {
        let single = seq![exprs[0]];
        assert(concerns_builder(each[0]));
        assert(single.skip(1) =~= seq![]);
        reveal_with_fuel(apply_all, 2);
        if let Ok(next) = apply(model, exprs[0]) {
            assert forall|i: int|
                #![trigger each.skip(1)[i]]
                0 <= i < each.skip(1).len() implies concerns_builder(each.skip(1)[i]) && args_model(
                tokens(each.skip(1)[i].tts),
            ) == Ok::<ArgsModel, Seq<char>>(ArgsModel::Listed(seq![exprs.skip(1)[i]])) by {
                assert(each.skip(1)[i] == each[i + 1]);
            }
            lemma_single_arguments(next, exprs.skip(1), each.skip(1));
        }
    }
}

/// Several arguments in one attribute do the same as one attribute for each of them, whatever
/// attributes stand around.
pub proof fn law_arguments_in_one_attribute(
    model: AttrModel,
    first: Seq<Attribute>,
    one: Attribute,
    each: Seq<Attribute>,
    rest: Seq<Attribute>,
    exprs: Seq<ExprModel>,
)
    requires
        concerns_builder(one),
        args_model(tokens(one.tts)) == Ok::<ArgsModel, Seq<char>>(ArgsModel::Listed(exprs)),
        each.len() == exprs.len(),
        forall|i: int|
            #![trigger each[i]]
            0 <= i < each.len() ==> concerns_builder(each[i]) && args_model(tokens(each[i].tts))
                == Ok::<ArgsModel, Seq<char>>(ArgsModel::Listed(seq![exprs[i]])),
    ensures
        apply_attrs(model, first + seq![one] + rest) == apply_attrs(model, first + each + rest),
{
    law_attributes_in_order(model, first + seq![one], rest);
    law_attributes_in_order(model, first, seq![one]);
    law_attributes_in_order(model, first + each, rest);
    law_attributes_in_order(model, first, each);
    if let Ok(next) = apply_attrs(model, first) {
        lemma_single_arguments(next, exprs, each);
        assert(seq![one].skip(1) =~= seq![]);
        reveal_with_fuel(apply_attrs, 2);
    }
}

/// Of two values for the same name, the later counts, as if the earlier had not been given. (The
/// earlier one still shows the docs, but then the later one does, too.)
pub proof fn law_later_value_counts(
    model: AttrModel,
    name: Seq<char>,
    earlier: (Seq<Tok>, Seq<Tok>),
    later: (Seq<Tok>, Seq<Tok>),
)
    ensures
        apply_assign(model, earlier.0, name, earlier.1) matches Ok(next) ==> apply_assign(
            next,
            later.0,
            name,
            later.1,
        ) == apply_assign(model, later.0, name, later.1),
{
}

// Fields.

/// The fields of a declaration are numbered from zero in their order, and none is lost.
pub proof fn law_fields_are_numbered<'a>(fields: Seq<Result<Field<'a>, DeriveError>>)
    requires
        fields.len() <= usize::MAX,
    ensures
        placed(fields) is Ok <==> (forall|i: int|
            0 <= i < fields.len() ==> (#[trigger] fields[i]) is Ok),
        placed(fields) matches Ok(infos) ==> {
            &&& infos.len() == fields.len()
            &&& forall|i: int|
                0 <= i < infos.len() ==> fields[i] is Ok && #[trigger] infos[i] == FieldInfo::at(
                    i as usize,
                    fields[i]->Ok_0,
                )
        },
    decreases fields.len(),
{
    if fields.len() > 0 {
        let front = fields.drop_last();
        law_fields_are_numbered(front);
        if placed(fields) is Ok {
            assert forall|i: int| 0 <= i < fields.len() implies (#[trigger] fields[i]) is Ok by {
                if i < front.len() {
                    assert(front[i] == fields[i]);
                }
            }
        } else if placed(front) is Err {
            let i = choose|i: int| 0 <= i < front.len() && !((#[trigger] front[i]) is Ok);
            assert(!(fields[i] is Ok));
        } else {
            assert(!(fields[fields.len() - 1] is Ok));
        }
    }
}

/// The builder has exactly the fields of the struct that are not left out.
pub proof fn law_included<'a>(fields: Seq<FieldInfo<'a>>)
    ensures
        forall|i: int|
            0 <= i < included(fields).len() ==> !(#[trigger] included(
                fields,
            )[i]).builder_attr.exclude && fields.contains(included(fields)[i]),
        forall|i: int|
            #![trigger fields[i]]
            0 <= i < fields.len() && !fields[i].builder_attr.exclude ==> included(
                fields,
            ).contains(fields[i]),
    decreases fields.len(),
{
    broadcast use vstd::seq_lib::group_seq_properties;

    let keep = is_included::<'a>();
    assert forall|i: int| 0 <= i < included(fields).len() implies !(#[trigger] included(
        fields,
    )[i]).builder_attr.exclude && fields.contains(included(fields)[i]) by {
        fields.lemma_filter_pred(keep, i);
        assert(keep(fields.filter(keep)[i]));
        lemma_filter_is_part(fields, keep, i);
    }
    assert forall|i: int|
        #![trigger fields[i]]
        0 <= i < fields.len() && !fields[i].builder_attr.exclude implies included(fields).contains(
        fields[i],
    ) by {
        assert(keep(fields[i]));
        fields.lemma_filter_contains(keep, i);
    }
}

proof fn lemma_filter_is_part<A>(items: Seq<A>, keep: spec_fn(A) -> bool, i: int)
    requires
        0 <= i < items.filter(keep).len(),
    ensures
        items.contains(items.filter(keep)[i]),
    decreases items.len(),
{
    reveal(Seq::filter);
    if items.len() > 0 {
        let front = items.drop_last();
        if i < front.filter(keep).len() {
            lemma_filter_is_part(front, keep, i);
            let j = choose|j: int| 0 <= j < front.len() && front[j] == front.filter(keep)[i];
            assert(items[j] == items.filter(keep)[i]);
        } else {
            assert(items[items.len() - 1] == items.filter(keep)[i]);
        }
    }
}

proof fn lemma_filter_remove<A>(items: Seq<A>, keep: spec_fn(A) -> bool, i: int)
    requires
        0 <= i < items.len(),
        !keep(items[i]),
    ensures
        items.remove(i).filter(keep) == items.filter(keep),
    decreases items.len(),
{
    reveal(Seq::filter);
    if i == items.len() - 1 {
        assert(items.remove(i) =~= items.drop_last());
    } else {
        lemma_filter_remove(items.drop_last(), keep, i);
        assert(items.remove(i).drop_last() =~= items.drop_last().remove(i));
        assert(items.remove(i).last() == items.last());
    }
}

// The states of the builder.
//
// The type of a builder tells which of its fields are set: the argument that stands for a field is
// `()` where it is not set, and the type of the tuples that hold one value of the field where it
// is.

/// The arguments that stand for the fields of a builder in which exactly the fields at the given
/// places are set.
pub open spec fn state_slots<'a>(fields: Seq<FieldInfo<'a>>, set: Set<usize>) -> Seq<Seq<Tok>> {
    included(fields).map_values(
        |field: FieldInfo<'a>|
            if set.contains(field.ordinal) {
                tuple_type(tokens(*field.ty))
            } else {
                unit_type()
            },
    )
}

/// That arguments, each of which may be the parameter of its field, can be those of a builder.
pub open spec fn fits<'a>(
    fields: Seq<FieldInfo<'a>>,
    pattern: Seq<Seq<Tok>>,
    slots: Seq<Seq<Tok>>,
) -> bool {
    &&& pattern.len() == slots.len()
    &&& forall|i: int|
        #![trigger pattern[i]]
        0 <= i < pattern.len() ==> pattern[i] == word(included(fields)[i].generic_ident@)
            || pattern[i] == slots[i]
}

/// Arguments, where those of a builder stand for the parameters of the fields.
pub open spec fn instance<'a>(
    fields: Seq<FieldInfo<'a>>,
    pattern: Seq<Seq<Tok>>,
    slots: Seq<Seq<Tok>>,
) -> Seq<Seq<Tok>> {
    Seq::new(
        pattern.len(),
        |i: int|
            if pattern[i] == word(included(fields)[i].generic_ident@) {
                slots[i]
            } else {
                pattern[i]
            },
    )
}

proof fn lemma_slots_differ(ty: Seq<Tok>, name: Seq<char>)
    ensures
        unit_type() != tuple_type(ty),
        unit_type() != word(name),
        tuple_type(ty) != word(name),
{
    let unit = unit_type()[0];
    let tuple = tuple_type(ty)[0];
    let ident = word(name)[0];
    assert(unit->Group_1.len() == 0);
    assert(tuple->Group_1.len() > 0);
    assert(ident is Ident);
}

/// The function `builder()` returns a builder in which no field is set.
pub proof fn law_builder_starts_empty<'a>(fields: Seq<FieldInfo<'a>>)
    ensures
        empty_slots(fields) == state_slots(fields, Set::empty()),
{
    assert(empty_slots(fields) =~= state_slots(fields, Set::empty()));
}

/// A field can be set exactly where it is not set yet.
pub proof fn law_set_once<'a>(fields: Seq<FieldInfo<'a>>, k: int, set: Set<usize>)
    requires
        0 <= k < included(fields).len(),
    ensures
        fits(
            fields,
            slots_before(fields, included(fields)[k].ordinal),
            state_slots(fields, set),
        ) <==> !set.contains(included(fields)[k].ordinal),
{
    let ordinal = included(fields)[k].ordinal;
    let pattern = slots_before(fields, ordinal);
    let field = included(fields)[k];
    lemma_slots_differ(tokens(*field.ty), field.generic_ident@);
    assert(pattern[k] == unit_type());
}

/// Setting a field sets that field and no other.
pub proof fn law_setter_sets_its_field<'a>(
    fields: Seq<FieldInfo<'a>>,
    ordinal: usize,
    set: Set<usize>,
)
    ensures
        instance(fields, slots_after(fields, ordinal), state_slots(fields, set)) == state_slots(
            fields,
            set.insert(ordinal),
        ),
{
    let pattern = slots_after(fields, ordinal);
    let slots = state_slots(fields, set);
    let after = state_slots(fields, set.insert(ordinal));
    assert forall|i: int| 0 <= i < pattern.len() implies instance(fields, pattern, slots)[i]
        == after[i] by {
        let field = included(fields)[i];
        lemma_slots_differ(tokens(*field.ty), field.generic_ident@);
        assert(pattern[i] == slot_after(field, ordinal));
    }
    assert(instance(fields, pattern, slots) =~= after);
}

/// The method `build()` can be called exactly where every field is set that has no default.
pub proof fn law_build_when_complete<'a>(fields: Seq<FieldInfo<'a>>, set: Set<usize>)
    ensures
        fits(fields, build_slots(fields), state_slots(fields, set)) <==> (forall|i: int|
            0 <= i < included(fields).len() && (#[trigger] included(
                fields,
            )[i]).builder_attr.default is None ==> set.contains(included(fields)[i].ordinal)),
{
    let pattern = build_slots(fields);
    let slots = state_slots(fields, set);
    assert forall|i: int| 0 <= i < pattern.len() implies (pattern[i] == word(
        included(fields)[i].generic_ident@,
    ) || #[trigger] pattern[i] == slots[i]) == (included(fields)[i].builder_attr.default is None
        ==> set.contains(included(fields)[i].ordinal)) by {
        let field = included(fields)[i];
        lemma_slots_differ(tokens(*field.ty), field.generic_ident@);
        assert(pattern[i] == build_slot(field));
    }
    if fits(fields, pattern, slots) {
        assert forall|i: int|
            0 <= i < included(fields).len() && (#[trigger] included(
                fields,
            )[i]).builder_attr.default is None implies set.contains(
            included(fields)[i].ordinal,
        ) by {
            assert(pattern[i] == build_slot(included(fields)[i]));
        }
    }
}

/// The arguments that stand for the fields of a builder after the fields at the given places were
/// set one after the other, from the builder that `builder()` returns on.
pub open spec fn slots_after_setters<'a>(fields: Seq<FieldInfo<'a>>, places: Seq<usize>) -> Seq<
    Seq<Tok>,
>
    decreases places.len(),
{
    if places.len() == 0 {
        empty_slots(fields)
    } else {
        instance(
            fields,
            slots_after(fields, places.last()),
            slots_after_setters(fields, places.drop_last()),
        )
    }
}

/// The order in which the fields are set makes no difference: the builder knows only which are.
pub proof fn law_setters_in_any_order<'a>(fields: Seq<FieldInfo<'a>>, places: Seq<usize>)
    ensures
        slots_after_setters(fields, places) == state_slots(fields, places.to_set()),
    decreases places.len(),
{
    broadcast use vstd::seq_lib::group_seq_properties;

    if places.len() == 0 {
        law_builder_starts_empty(fields);
        assert(places.to_set() =~= Set::empty());
    } else {
        law_setters_in_any_order(fields, places.drop_last());
        law_setter_sets_its_field(fields, places.last(), places.drop_last().to_set());
        assert(places =~= places.drop_last().push(places.last()));
        assert(places.to_set() =~= places.drop_last().to_set().insert(places.last()));
    }
}

/// Whatever fields were set before, a field can be set exactly where it was not among them.
pub proof fn law_set_once_in_a_chain<'a>(fields: Seq<FieldInfo<'a>>, places: Seq<usize>, k: int)
    requires
        0 <= k < included(fields).len(),
    ensures
        fits(
            fields,
            slots_before(fields, included(fields)[k].ordinal),
            slots_after_setters(fields, places),
        ) <==> !places.contains(included(fields)[k].ordinal),
{
    law_setters_in_any_order(fields, places);
    law_set_once(fields, k, places.to_set());
}

/// After some fields were set, `build()` can be called exactly where every field without a default
/// was among them.
pub proof fn law_build_after_setters<'a>(fields: Seq<FieldInfo<'a>>, places: Seq<usize>)
    ensures
        fits(fields, build_slots(fields), slots_after_setters(fields, places)) <==> (forall|i: int|
            0 <= i < included(fields).len() && (#[trigger] included(
                fields,
            )[i]).builder_attr.default is None ==> places.contains(included(fields)[i].ordinal)),
{
    law_setters_in_any_order(fields, places);
    law_build_when_complete(fields, places.to_set());
}

// The parameters of the generated items.

/// The names of the type parameters of fields.
pub open spec fn generic_names<'a>(fields: Seq<FieldInfo<'a>>) -> Seq<Seq<Tok>> {
    fields.map_values(|field: FieldInfo<'a>| word(field.generic_ident@))
}

/// Which fields have a default.
pub open spec fn has_default<'a>() -> spec_fn(FieldInfo<'a>) -> bool {
    |field: FieldInfo<'a>| field.builder_attr.default is Some
}

proof fn lemma_with_param_names(params: Seq<Param>, param: Param)
    ensures
        with_param(params, param).map_values(name_of()) == params.map_values(name_of()).push(
            param.name,
        ),
{
    let names = params.map_values(name_of());
    let more = with_param(params, param).map_values(name_of());
    assert(more.len() == names.len() + 1);
    assert forall|i: int| 0 <= i < more.len() implies more[i] == names.push(param.name)[i] by {
        if i < params.len() - 1 {
            assert(with_param(params, param)[i] == params[i]);
        }
    }
    assert(more =~= names.push(param.name));
}

proof fn lemma_field_param_names<'a>(params: Seq<Param>, fields: Seq<FieldInfo<'a>>)
    ensures
        with_field_params(params, fields).map_values(name_of()) == params.map_values(name_of())
            + generic_names(fields),
    decreases fields.len(),
{
    let names = params.map_values(name_of());
    if fields.len() == 0 {
        assert(names + generic_names(fields) =~= names);
    } else {
        let front = fields.drop_last();
        lemma_field_param_names(params, front);
        lemma_with_param_names(
            with_field_params(params, front),
            crate::generics::plain_param(fields.last().generic_ident@),
        );
        assert(names + generic_names(fields) =~= (names + generic_names(front)).push(
            word(fields.last().generic_ident@),
        ));
    }
}

proof fn lemma_default_param_names<'a>(
    params: Seq<Param>,
    fields: Seq<FieldInfo<'a>>,
    trait_name: Seq<char>,
)
    ensures
        with_default_params(params, fields, trait_name).map_values(name_of()) == params.map_values(
            name_of(),
        ) + generic_names(fields.filter(has_default())),
    decreases fields.len(),
{
    reveal(Seq::filter);
    let names = params.map_values(name_of());
    if fields.len() == 0 {
        assert(names + generic_names(fields.filter(has_default())) =~= names);
    } else {
        let front = fields.drop_last();
        let field = fields.last();
        lemma_default_param_names(params, front, trait_name);
        if field.builder_attr.default is Some {
            lemma_with_param_names(
                with_default_params(params, front, trait_name),
                crate::generics::bounded_param(
                    field.generic_ident@,
                    trait_name,
                    tokens(*field.ty),
                ),
            );
            assert(names + generic_names(fields.filter(has_default())) =~= (names + generic_names(
                front.filter(has_default()),
            )).push(word(field.generic_ident@)));
        }
    }
}

/// The builder type has the parameters of the struct and one for each field that is not left out;
/// the setter of a field declares those of all other fields, and `build()` those of the fields with
/// a default. Wherever the builder type is named, it gets an argument for each parameter.
pub proof fn law_parameters<'a>(info: StructInfo<'a>, ordinal: usize)
    ensures
        with_field_params(info.params(), included(info.fields@)).map_values(name_of())
            == info.params().map_values(name_of()) + generic_names(included(info.fields@)),
        with_field_params(info.params(), others(info.fields@, ordinal)).map_values(name_of())
            == info.params().map_values(name_of()) + generic_names(
            others(info.fields@, ordinal),
        ),
        with_default_params(
            info.params(),
            included(info.fields@),
            info.conversion_helper_trait_name@,
        ).map_values(name_of()) == info.params().map_values(name_of()) + generic_names(
            included(info.fields@).filter(has_default()),
        ),
        ({
            let count = with_field_params(info.params(), included(info.fields@)).len();
            &&& info.source_arguments(ordinal).len() == count
            &&& info.target_arguments(ordinal).len() == count
            &&& info.params().len() + empty_slots(info.fields@).len() == count
            &&& info.params().len() + build_slots(info.fields@).len() == count
        }),
{
    let params = info.params();
    let fields = included(info.fields@);
    lemma_field_param_names(params, fields);
    lemma_field_param_names(params, others(info.fields@, ordinal));
    lemma_default_param_names(params, fields, info.conversion_helper_trait_name@);
    assert(with_field_params(params, fields).map_values(name_of()).len() == (params.map_values(
        name_of(),
    ) + generic_names(fields)).len());
}

/// That no lifetime comes behind another parameter, as the language demands.
pub open spec fn lifetimes_lead(params: Seq<Param>) -> bool {
    forall|i: int, j: int|
        0 <= i < j < params.len() && (#[trigger] params[j]).kind is Lifetime ==> (
        #[trigger] params[i]).kind is Lifetime
}

proof fn lemma_lifetimes_lead_in_front(params: Seq<Param>)
    requires
        lifetimes_lead(params),
        params.len() > 0,
    ensures
        lifetimes_lead(params.drop_last()),
{
    let front = params.drop_last();
    assert forall|i: int, j: int|
        0 <= i < j < front.len() && (#[trigger] front[j]).kind is Lifetime implies (
    #[trigger] front[i]).kind is Lifetime by {
        assert(params[j].kind is Lifetime);
        assert(params[i].kind is Lifetime);
    }
}

proof fn lemma_last_is_lifetime(params: Seq<Param>)
    requires
        lifetimes_lead(params),
        params.len() > 0,
        params.last().kind is Lifetime,
    ensures
        forall|i: int| 0 <= i < params.len() ==> (#[trigger] params[i]).kind is Lifetime,
{
    assert(params[params.len() - 1].kind is Lifetime);
}

proof fn lemma_all_lifetimes(params: Seq<Param>)
    requires
        forall|i: int| 0 <= i < params.len() ==> (#[trigger] params[i]).kind is Lifetime,
    ensures
        params.filter(of_kind(true)) == params,
        params.filter(of_kind(false)) == Seq::<Param>::empty(),
        lifetimes_first(params) == params,
    decreases params.len(),
{
    reveal(lifetimes_first);
    if params.len() == 0 {
        lemma_filter_none(params, of_kind(true));
        lemma_filter_none(params, of_kind(false));
        assert(params.take(0) =~= params);
    } else {
        lemma_filter_next(params, of_kind(true), params.len() - 1);
        lemma_filter_next(params, of_kind(false), params.len() - 1);
        assert(params.take(params.len() as int) =~= params);
        assert(params.take(params.len() - 1) =~= params.drop_last());
        lemma_all_lifetimes(params.drop_last());
        assert(params =~= params.drop_last().push(params.last()));
    }
    assert(params + Seq::<Param>::empty() =~= params);
}

proof fn lemma_lifetimes_first_next(params: Seq<Param>)
    requires
        params.len() > 0,
        !(params.last().kind is Lifetime),
    ensures
        lifetimes_first(params) == lifetimes_first(params.drop_last()).push(params.last()),
{
    reveal(lifetimes_first);
    let front = params.drop_last();
    let last = params.last();
    lemma_filter_next(params, of_kind(true), params.len() - 1);
    lemma_filter_next(params, of_kind(false), params.len() - 1);
    assert(params.take(params.len() as int) =~= params);
    assert(params.take(params.len() - 1) =~= front);
    assert(params.filter(of_kind(true)) == front.filter(of_kind(true)));
    assert(params.filter(of_kind(false)) == front.filter(of_kind(false)).push(last));
    let lifetimes = front.filter(of_kind(true));
    let rest = front.filter(of_kind(false));
    assert(lifetimes + rest.push(last) =~= (lifetimes + rest).push(last));
}

proof fn lemma_lifetimes_lead(params: Seq<Param>)
    requires
        lifetimes_lead(params),
    ensures
        lifetimes_first(params) == params,
    decreases params.len(),
{
    if params.len() == 0 || params.last().kind is Lifetime {
        if params.len() > 0 {
            lemma_last_is_lifetime(params);
        }
        lemma_all_lifetimes(params);
    } else {
        lemma_lifetimes_lead_in_front(params);
        lemma_lifetimes_lead(params.drop_last());
        lemma_lifetimes_first_next(params);
        assert(params =~= params.drop_last().push(params.last()));
    }
}

/// The builder type gets its arguments in the same order everywhere: what `builder()` returns and
/// what `build()` takes lists them as the setters do.
pub proof fn law_arguments_agree<'a>(info: StructInfo<'a>, slots: Seq<Seq<Tok>>)
    requires
        lifetimes_lead(info.params()),
        slots.len() > 0 || info.params().len() == 0 || !info.params().last().comma,
    ensures
        extended_arguments(info.params(), slots) == angle_bracketed(
            info.params().map_values(name_of()) + slots,
            false,
        ),
{
    lemma_lifetimes_lead(info.params());
}

// The bodies of the generated functions.

/// That the fields are numbered from zero in their order.
pub open spec fn numbered<'a>(fields: Seq<FieldInfo<'a>>) -> bool {
    forall|i: int| 0 <= i < fields.len() ==> (#[trigger] fields[i]).ordinal == i
}

proof fn lemma_included_ascend<'a>(fields: Seq<FieldInfo<'a>>)
    requires
        numbered(fields),
    ensures
        forall|i: int|
            0 <= i < included(fields).len() ==> (#[trigger] included(fields)[i]).ordinal
                < fields.len(),
        forall|i: int, j: int|
            0 <= i < j < included(fields).len() ==> (#[trigger] included(fields)[i]).ordinal < (
            #[trigger] included(fields)[j]).ordinal,
    decreases fields.len(),
{
    if fields.len() == 0 {
        lemma_filter_none(fields, is_included());
        assert(fields.take(0) =~= fields);
    } else {
        let front = fields.drop_last();
        lemma_filter_next(fields, is_included(), fields.len() - 1);
        assert(fields.take(fields.len() as int) =~= fields);
        assert(fields.take(fields.len() - 1) =~= front);
        assert(numbered(front)) by {
            assert forall|i: int| 0 <= i < front.len() implies (#[trigger] front[i]).ordinal == i by {
                assert(fields[i].ordinal == i);
            }
        }
        lemma_included_ascend(front);
    }
}

proof fn lemma_filter_all<A>(items: Seq<A>, keep: spec_fn(A) -> bool)
    requires
        forall|i: int| 0 <= i < items.len() ==> keep(#[trigger] items[i]),
    ensures
        items.filter(keep) == items,
    decreases items.len(),
{
    if items.len() == 0 {
        lemma_filter_none(items, keep);
        assert(items.take(0) =~= items);
    } else {
        let front = items.drop_last();
        lemma_filter_next(items, keep, items.len() - 1);
        assert(items.take(items.len() as int) =~= items);
        assert(items.take(items.len() - 1) =~= front);
        assert forall|i: int| 0 <= i < front.len() implies keep(#[trigger] front[i]) by {
            assert(keep(items[i]));
        }
        lemma_filter_all(front, keep);
        assert(items =~= front.push(items.last()));
    }
}

/// The setter of a field carries over every other field of the builder, in their order.
pub proof fn law_setter_keeps_the_others<'a>(fields: Seq<FieldInfo<'a>>, k: int)
    requires
        numbered(fields),
        0 <= k < included(fields).len(),
    ensures
        others(fields, included(fields)[k].ordinal) == included(fields).remove(k),
        kept_entries(fields, included(fields)[k].ordinal) == included(fields).remove(k).map_values(
            |field: FieldInfo<'a>| kept_entry(field),
        ),
{
    let all = included(fields);
    let ordinal = all[k].ordinal;
    let keep = is_elsewhere::<'a>(ordinal);
    lemma_included_ascend(fields);
    lemma_filter_remove(all, keep, k);
    assert forall|i: int| 0 <= i < all.remove(k).len() implies keep(#[trigger] all.remove(k)[i]) by {
        if i < k {
            assert(all[i].ordinal < all[k].ordinal);
        } else {
            assert(all[k].ordinal < all[i + 1].ordinal);
        }
    }
    lemma_filter_all(all.remove(k), keep);
    assert(kept_entries(fields, ordinal) =~= all.remove(k).map_values(
        |field: FieldInfo<'a>| kept_entry(field),
    ));
}

proof fn lemma_concatenated_split(parts: Seq<Seq<Tok>>, i: int)
    requires
        0 <= i < parts.len(),
    ensures
        concatenated(parts) == concatenated(parts.take(i)) + parts[i] + concatenated(
            parts.skip(i + 1),
        ),
    decreases parts.len(),
{
    let front = parts.drop_last();
    if i == parts.len() - 1 {
        assert(parts.take(i) =~= front);
        assert(parts.skip(i + 1) =~= seq![]);
        assert(concatenated(parts.skip(i + 1)) =~= seq![]);
        assert(concatenated(parts) =~= concatenated(parts.take(i)) + parts[i] + concatenated(
            parts.skip(i + 1),
        ));
    } else {
        lemma_concatenated_split(front, i);
        assert(front.take(i) =~= parts.take(i));
        assert(front.skip(i + 1) =~= parts.skip(i + 1).drop_last());
        assert(parts.skip(i + 1).last() == parts.last());
        assert(concatenated(parts) =~= concatenated(parts.take(i)) + parts[i] + concatenated(
            parts.skip(i + 1),
        ));
    }
}

/// In `build()` the value of a field is bound behind those of all the fields in front of it, and in
/// front of those of all the fields behind it. So its default can refer to the fields in front of
/// it.
pub proof fn law_fields_are_bound_in_order<'a>(
    fields: Seq<FieldInfo<'a>>,
    trait_name: Seq<char>,
    i: int,
)
    requires
        0 <= i < fields.len(),
    ensures
        concatenated(assignments(fields, trait_name)) == concatenated(
            assignments(fields.take(i), trait_name),
        ) + assignment(fields[i], trait_name) + concatenated(
            assignments(fields.skip(i + 1), trait_name),
        ),
{
    let parts = assignments(fields, trait_name);
    lemma_concatenated_split(parts, i);
    assert(parts.take(i) =~= assignments(fields.take(i), trait_name));
    assert(parts.skip(i + 1) =~= assignments(fields.skip(i + 1), trait_name));
}

/// The builder, the trait that falls back on defaults, and the name for `core` are called by three
/// different identifiers, where the name of the builder is one of ASCII.
pub proof fn law_names_differ<'a>(
    info: StructInfo<'a>,
    ast: DeriveInput,
    model: AttrModel,
    text: Seq<char>,
    fields: Seq<FieldInfo<'a>>,
)
    requires
        info.describes(ast, model, text, fields),
        is_ident(text),
        is_ascii_text(text),
    ensures
        is_ident(info.builder_name@),
        is_ident(info.conversion_helper_trait_name@),
        is_ident(info.core@),
        info.builder_name@ != info.conversion_helper_trait_name@,
        info.builder_name@ != info.core@,
        info.conversion_helper_trait_name@ != info.core@,
{
    reveal_strlit("_Optional");
    reveal_strlit("_core");
    lemma_suffix(text, "_Optional"@);
    lemma_suffix(text, "_core"@);
    assert(is_ascii_text(text + "_Optional"@));
    assert(is_ascii_text(text + "_core"@));
    assert(info.conversion_helper_trait_name@.len() == text.len() + 9);
    assert(info.core@.len() == text.len() + 5);
}

// Fields that are left out.

/// That two fields differ at most in their places among the fields.
pub open spec fn alike<'a, 'b>(field: FieldInfo<'a>, other: FieldInfo<'b>) -> bool {
    &&& field.name@ == other.name@
    &&& tokens(*field.ty) == tokens(*other.ty)
    &&& field.generic_ident@ == other.generic_ident@
    &&& field.builder_attr.exclude == other.builder_attr.exclude
    &&& optional_tokens(field.builder_attr.doc) == optional_tokens(other.builder_attr.doc)
    &&& optional_tokens(field.builder_attr.default) == optional_tokens(other.builder_attr.default)
}

/// That the fields of two lists differ at most in their places among the fields.
pub open spec fn all_alike<'a, 'b>(fields: Seq<FieldInfo<'a>>, others: Seq<FieldInfo<'b>>) -> bool {
    &&& fields.len() == others.len()
    &&& forall|i: int| #![trigger fields[i]] #![trigger others[i]]
        0 <= i < fields.len() ==> alike(fields[i], others[i])
}

/// That two structs differ at most in their fields.
pub open spec fn same_but_fields<'a, 'b>(info: StructInfo<'a>, other: StructInfo<'b>) -> bool {
    &&& tokens(*info.vis) == tokens(*other.vis)
    &&& info.name@ == other.name@
    &&& info.params() == other.params()
    &&& where_clause(*info.generics) == where_clause(*other.generics)
    &&& info.builder_attr@ == other.builder_attr@
    &&& info.builder_name@ == other.builder_name@
    &&& info.conversion_helper_trait_name@ == other.conversion_helper_trait_name@
    &&& info.core@ == other.core@
}

proof fn lemma_alike_params<'a, 'b>(
    params: Seq<Param>,
    fields: Seq<FieldInfo<'a>>,
    others: Seq<FieldInfo<'b>>,
)
    requires
        all_alike(fields, others),
    ensures
        with_field_params(params, fields) == with_field_params(params, others),
    decreases fields.len(),
{
    if fields.len() > 0 {
        let front = fields.drop_last();
        let other_front = others.drop_last();
        assert(all_alike(front, other_front)) by {
            assert forall|i: int| #![trigger front[i]] 0 <= i < front.len() implies alike(
                front[i],
                other_front[i],
            ) by {
                assert(alike(fields[i], others[i]));
            }
        }
        lemma_alike_params(params, front, other_front);
        assert(alike(fields[fields.len() - 1], others[fields.len() - 1]));
    }
}

/// The builder type and the function `builder()` depend on the fields that are not left out alone,
/// and not on their places among all the fields.
pub proof fn law_creation_of_included_fields<'a, 'b>(info: StructInfo<'a>, other: StructInfo<'b>)
    requires
        same_but_fields(info, other),
        all_alike(included(info.fields@), included(other.fields@)),
    ensures
        info.creation() == other.creation(),
{
    let fields = included(info.fields@);
    let others = included(other.fields@);
    assert forall|i: int| 0 <= i < fields.len() implies setter_text(fields[i]) == setter_text(
        others[i],
    ) && #[trigger] empty_entry(fields[i]) == empty_entry(others[i]) && generic_entry(fields[i])
        == generic_entry(others[i]) by {
        assert(alike(fields[i], others[i]));
    }
    assert(setter_texts(info.fields@) =~= setter_texts(other.fields@)) by {
        assert forall|i: int| 0 <= i < fields.len() implies setter_texts(info.fields@)[i]
            == setter_texts(other.fields@)[i] by {
            assert(empty_entry(fields[i]) == empty_entry(others[i]));
        }
    }
    assert(empty_entries(info.fields@) =~= empty_entries(other.fields@));
    assert(generic_entries(info.fields@) =~= generic_entries(other.fields@)) by {
        assert forall|i: int| 0 <= i < fields.len() implies generic_entries(info.fields@)[i]
            == generic_entries(other.fields@)[i] by {
            assert(empty_entry(fields[i]) == empty_entry(others[i]));
        }
    }
    assert(empty_slots(info.fields@) =~= empty_slots(other.fields@));
    lemma_alike_params(info.params(), fields, others);
    assert(info.builder_method_doc() == other.builder_method_doc());
    assert(info.builder_type_doc() == other.builder_type_doc());
}

/// The setter of a field depends on the fields that are not left out alone, and not on their places
/// among all the fields.
pub proof fn law_setter_of_included_fields<'a, 'b>(
    info: StructInfo<'a>,
    other: StructInfo<'b>,
    k: int,
)
    requires
        same_but_fields(info, other),
        numbered(info.fields@),
        numbered(other.fields@),
        all_alike(included(info.fields@), included(other.fields@)),
        0 <= k < included(info.fields@).len(),
    ensures
        info.setter(included(info.fields@)[k]) == other.setter(included(other.fields@)[k]),
{
    let fields = included(info.fields@);
    let others = included(other.fields@);
    let ordinal = fields[k].ordinal;
    let other_ordinal = others[k].ordinal;
    lemma_included_ascend(info.fields@);
    lemma_included_ascend(other.fields@);
    law_setter_keeps_the_others(info.fields@, k);
    law_setter_keeps_the_others(other.fields@, k);
    let rest = fields.remove(k);
    let other_rest = others.remove(k);
    assert(all_alike(rest, other_rest)) by {
        assert forall|i: int| #![trigger rest[i]] 0 <= i < rest.len() implies alike(
            rest[i],
            other_rest[i],
        ) by {
            let j = if i < k { i } else { i + 1 };
            assert(alike(fields[j], others[j]));
        }
    }
    lemma_alike_params(info.params(), rest, other_rest);
    assert forall|i: int| 0 <= i < fields.len() implies #[trigger] slot_before(fields[i], ordinal)
        == slot_before(others[i], other_ordinal) && slot_after(fields[i], ordinal) == slot_after(
        others[i],
        other_ordinal,
    ) by {
        assert(alike(fields[i], others[i]));
        if i < k {
            assert(fields[i].ordinal < fields[k].ordinal);
            assert(others[i].ordinal < others[k].ordinal);
        } else if i > k {
            assert(fields[k].ordinal < fields[i].ordinal);
            assert(others[k].ordinal < others[i].ordinal);
        }
    }
    assert(slots_before(info.fields@, ordinal) =~= slots_before(other.fields@, other_ordinal));
    assert(slots_after(info.fields@, ordinal) =~= slots_after(other.fields@, other_ordinal)) by {
        assert forall|i: int| 0 <= i < fields.len() implies slots_after(info.fields@, ordinal)[i]
            == slots_after(other.fields@, other_ordinal)[i] by {
            assert(slot_before(fields[i], ordinal) == slot_before(others[i], other_ordinal));
        }
    }
    assert(kept_entries(info.fields@, ordinal) =~= kept_entries(other.fields@, other_ordinal)) by {
        assert forall|i: int| 0 <= i < rest.len() implies kept_entries(info.fields@, ordinal)[i]
            == kept_entries(other.fields@, other_ordinal)[i] by {
            assert(alike(rest[i], other_rest[i]));
        }
    }
    assert(alike(fields[k], others[k]));
    assert(setter_doc(fields[k]) == setter_doc(others[k]));
    assert(info.setter_head(fields[k]) == other.setter_head(others[k]));
    assert(info.setter_value(fields[k]) == other.setter_value(others[k]));
}

proof fn lemma_alike_included<'a, 'b>(fields: Seq<FieldInfo<'a>>, others: Seq<FieldInfo<'b>>)
    requires
        all_alike(fields, others),
    ensures
        all_alike(included(fields), included(others)),
    decreases fields.len(),
{
    if fields.len() == 0 {
        lemma_filter_none(fields, is_included());
        lemma_filter_none(others, is_included());
        assert(fields.take(0) =~= fields);
        assert(others.take(0) =~= others);
    } else {
        let n = fields.len() - 1;
        let front = fields.drop_last();
        let other_front = others.drop_last();
        lemma_filter_next(fields, is_included(), n);
        lemma_filter_next(others, is_included(), n);
        assert(fields.take(n + 1) =~= fields);
        assert(others.take(n + 1) =~= others);
        assert(fields.take(n) =~= front);
        assert(others.take(n) =~= other_front);
        assert(alike(fields[n], others[n]));
        assert(all_alike(front, other_front)) by {
            assert forall|i: int| #![trigger front[i]] 0 <= i < front.len() implies alike(
                front[i],
                other_front[i],
            ) by {
                assert(alike(fields[i], others[i]));
            }
        }
        lemma_alike_included(front, other_front);
    }
}

/// A field that is left out leaves no trace in the builder: without it, the builder type, the
/// function `builder()` and the setters are the same.
pub proof fn law_excluded_leaves_no_trace<'a>(
    fields: Seq<Result<Field<'a>, DeriveError>>,
    i: int,
    info: StructInfo<'a>,
    other: StructInfo<'a>,
)
    requires
        fields.len() <= usize::MAX,
        0 <= i < fields.len(),
        placed(fields) == Ok::<Seq<FieldInfo<'a>>, DeriveError>(info.fields@),
        placed(fields.remove(i)) == Ok::<Seq<FieldInfo<'a>>, DeriveError>(other.fields@),
        info.fields@[i].builder_attr.exclude,
        same_but_fields(info, other),
    ensures
        info.creation() == other.creation(),
        included(info.fields@).len() == included(other.fields@).len(),
        forall|k: int|
            0 <= k < included(info.fields@).len() ==> #[trigger] info.setter(
                included(info.fields@)[k],
            ) == other.setter(included(other.fields@)[k]),
{
    law_fields_are_numbered(fields);
    law_fields_are_numbered(fields.remove(i));
    let rest = info.fields@.remove(i);
    assert(all_alike(rest, other.fields@)) by {
        assert forall|j: int| #![trigger rest[j]] 0 <= j < rest.len() implies alike(
            rest[j],
            other.fields@[j],
        ) by {
            let at = if j < i { j } else { j + 1 };
            assert(fields.remove(i)[j] == fields[at]);
            assert(rest[j] == info.fields@[at]);
            assert(info.fields@[at] == FieldInfo::at(at as usize, fields[at]->Ok_0));
            assert(other.fields@[j] == FieldInfo::at(j as usize, fields[at]->Ok_0));
        }
    }
    lemma_filter_remove(info.fields@, is_included::<'a>(), i);
    lemma_alike_included(rest, other.fields@);
    law_creation_of_included_fields(info, other);
    assert(numbered(info.fields@));
    assert(numbered(other.fields@));
    assert forall|k: int| 0 <= k < included(info.fields@).len() implies #[trigger] info.setter(
        included(info.fields@)[k],
    ) == other.setter(included(other.fields@)[k]) by {
        law_setter_of_included_fields(info, other, k);
    }
}

} // verus!
