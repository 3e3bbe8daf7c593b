//! What the arguments of `builder` attributes do.
use vstd::prelude::*;

use crate::builder_attr::{
    apply, apply_all, apply_args_model, apply_attrs, concerns_builder, no_attr, AttrModel,
    Attribute, TypeBuilderAttr,
};
use crate::error::{error_text, DeriveError, ErrorModel};
use crate::expr::{
    args_model, expr_models, expr_shape, kind_with, listed_arguments, read_model, read_models,
    shape_text, Args, ArgsModel, Expr, ExprKind, ExprModel, ExprShape, KindModel, Shape,
};
use crate::token::{single_ident, token_lists, tokens, Tok};
use proc_macro2::TokenStream;

verus! {

// What is known, by the names of the arguments.

/// That arguments with a value have the given name.
pub open spec fn takes_value(name: Seq<char>) -> bool {
    name == "name"@ || name == "builder_method_doc"@ || name == "builder_type_doc"@ || name
        == "build_method_doc"@
}

/// That a name consists of letters, digits and underscores of ASCII.
pub open spec fn is_plain_name(name: Seq<char>) -> bool {
    forall|i: int|
        0 <= i < name.len() ==> 'a' <= #[trigger] name[i] <= 'z' || 'A' <= name[i] <= 'Z' || '0'
            <= name[i] <= '9' || name[i] == '_'
}

/// The value that is known under a name.
pub open spec fn value_of(model: AttrModel, name: Seq<char>) -> Option<Seq<Tok>> {
    if name == "name"@ {
        model.name
    } else if name == "builder_method_doc"@ {
        model.builder_method_doc
    } else if name == "builder_type_doc"@ {
        model.builder_type_doc
    } else if name == "build_method_doc"@ {
        model.build_method_doc
    } else {
        None
    }
}

/// The argument `name = value`.
pub open spec fn setting(
    toks: Seq<Tok>,
    left: Seq<Tok>,
    name: Seq<char>,
    value: Seq<Tok>,
) -> ExprModel {
    ExprModel { toks, kind: KindModel::Assign(left, Some(name), value) }
}

proof fn lemma_names()
    ensures
        "name"@ != "builder_method_doc"@,
        "name"@ != "builder_type_doc"@,
        "name"@ != "build_method_doc"@,
        "builder_method_doc"@ != "builder_type_doc"@,
        "builder_method_doc"@ != "build_method_doc"@,
        "builder_type_doc"@ != "build_method_doc"@,
{
    reveal_strlit("name");
    reveal_strlit("builder_method_doc");
    reveal_strlit("builder_type_doc");
    reveal_strlit("build_method_doc");
    assert("name"@.len() == 4);
    assert("builder_method_doc"@.len() == 18);
    assert("builder_type_doc"@.len() == 16);
    assert("build_method_doc"@.len() == 16);
    assert("builder_type_doc"@[5] == 'e');
    assert("build_method_doc"@[5] == '_');
}

/// The argument `name = value` is accepted for the four names that take a value. It sets the value
/// of its own name and leaves the values of all other names as they were. It shows the docs where it
/// gives docs on the builder type or on `build()`, and leaves that as it was otherwise.
pub proof fn law_argument_sets_its_own_name(
    model: AttrModel,
    toks: Seq<Tok>,
    left: Seq<Tok>,
    name: Seq<char>,
    value: Seq<Tok>,
)
    ensures
        apply(model, setting(toks, left, name, value)) is Ok <==> takes_value(name),
        apply(model, setting(toks, left, name, value)) matches Ok(next) ==> {
            &&& value_of(next, name) == Some(value)
            &&& forall|other: Seq<char>|
                other != name ==> #[trigger] value_of(next, other) == value_of(model, other)
            &&& next.doc == (model.doc || name == "builder_type_doc"@ || name
                == "build_method_doc"@)
        },
{
    lemma_names();
}

/// The arguments that are refused, and why: a name that takes no value, a left side that is no
/// identifier, a path other than `doc`, and anything that is neither.
pub proof fn law_refused_arguments(
    model: AttrModel,
    toks: Seq<Tok>,
    left: Seq<Tok>,
    name: Seq<char>,
    value: Seq<Tok>,
)
    ensures
        !takes_value(name) && is_plain_name(name) ==> apply(model, setting(toks, left, name, value))
            == Err::<AttrModel, ErrorModel>(
            ErrorModel::Spanned(toks, "Unknown parameter \""@ + name + "\""@),
        ),
        !takes_value(name) ==> (apply(model, setting(toks, left, name, value)) matches Err(
            ErrorModel::Spanned(at, _),
        ) && at == toks),
        apply(model, ExprModel { toks, kind: KindModel::Assign(left, None, value) }) == Err::<
            AttrModel,
            ErrorModel,
        >(ErrorModel::Spanned(left, "Expected identifier"@)),
        name != "doc"@ && is_plain_name(name) ==> apply(
            model,
            ExprModel { toks, kind: KindModel::Path(Some(name)) },
        ) == Err::<AttrModel, ErrorModel>(
            ErrorModel::Spanned(toks, "Unknown parameter \""@ + name + "\""@),
        ),
        name != "doc"@ ==> (apply(
            model,
            ExprModel { toks, kind: KindModel::Path(Some(name)) },
        ) matches Err(ErrorModel::Spanned(at, _)) && at == toks),
        apply(model, ExprModel { toks, kind: KindModel::Path(None) }) == Err::<
            AttrModel,
            ErrorModel,
        >(ErrorModel::Spanned(toks, "Expected identifier"@)),
        apply(model, ExprModel { toks, kind: KindModel::Other }) == Err::<AttrModel, ErrorModel>(
            ErrorModel::Spanned(toks, "Expected (<...>=<...>)"@),
        ),
{
    reveal_strlit("Unknown parameter ");
    reveal_strlit("Unknown parameter \"");
    reveal_strlit("\"");
    assert("Unknown parameter "@ + (seq!['"'] + name + seq!['"']) =~= "Unknown parameter \""@ + name
        + "\""@);
}

/// The argument `doc` shows the docs and leaves all values as they were.
pub proof fn law_doc_argument(model: AttrModel, toks: Seq<Tok>)
    ensures
        apply(model, ExprModel { toks, kind: KindModel::Path(Some("doc"@)) }) matches Ok(next) && {
            &&& next.doc
            &&& forall|name: Seq<char>| #[trigger] value_of(next, name) == value_of(model, name)
        },
{
}

/// Two accepted arguments that do not give the same name a value do the same in either order.
pub proof fn law_arguments_commute(model: AttrModel, first: ExprModel, second: ExprModel)
    requires
        apply(model, first) is Ok,
        apply(model, second) is Ok,
        first.kind is Path || second.kind is Path || first.kind->Assign_1
            != second.kind->Assign_1,
    ensures
        apply(apply(model, first)->Ok_0, second) == apply(apply(model, second)->Ok_0, first),
{
    lemma_names();
}

// Lists of arguments.

/// That an argument is accepted.
pub open spec fn is_accepted(expr: ExprModel) -> bool {
    match expr.kind {
        KindModel::Assign(_, Some(name), _) => takes_value(name),
        KindModel::Path(Some(name)) => name == "doc"@,
        _ => false,
    }
}

/// That an argument shows the docs.
pub open spec fn shows_docs(expr: ExprModel) -> bool {
    match expr.kind {
        KindModel::Assign(_, Some(name), _) => name == "builder_type_doc"@ || name
            == "build_method_doc"@,
        KindModel::Path(Some(name)) => name == "doc"@,
        _ => false,
    }
}

/// The last value that arguments give to a name.
pub open spec fn last_value(exprs: Seq<ExprModel>, name: Seq<char>) -> Option<Seq<Tok>>
    decreases exprs.len(),
{
    if exprs.len() == 0 {
        None
    } else {
        match exprs.last().kind {
            KindModel::Assign(_, given, value) => if given == Some(name) {
                Some(value)
            } else {
                last_value(exprs.drop_last(), name)
            },
            _ => last_value(exprs.drop_last(), name),
        }
    }
}

proof fn lemma_last_value(exprs: Seq<ExprModel>, name: Seq<char>)
    requires
        exprs.len() > 0,
    ensures
        last_value(exprs, name) == (match last_value(exprs.skip(1), name) {
            Some(value) => Some(value),
            None => last_value(seq![exprs[0]], name),
        }),
    decreases exprs.len(),
{
    if exprs.len() == 1 {
        assert(exprs =~= seq![exprs[0]]);
        assert(exprs.skip(1) =~= seq![]);
    } else {
        lemma_last_value(exprs.drop_last(), name);
        assert(exprs.drop_last().skip(1) =~= exprs.skip(1).drop_last());
        assert(exprs.skip(1).last() == exprs.last());
        assert(exprs.drop_last()[0] == exprs[0]);
    }
}

/// After a list of arguments that are all accepted, each name that takes a value has the last value
/// given for it, or else the value that it had; and the docs are shown where they were, or where an
/// argument shows them.
pub proof fn law_last_values(model: AttrModel, exprs: Seq<ExprModel>)
    requires
        forall|i: int| 0 <= i < exprs.len() ==> is_accepted(#[trigger] exprs[i]),
    ensures
        apply_all(model, exprs).1 is None,
        forall|name: Seq<char>|
            takes_value(name) ==> #[trigger] value_of(apply_all(model, exprs).0, name) == (
            match last_value(exprs, name) {
                Some(value) => Some(value),
                None => value_of(model, name),
            }),
        apply_all(model, exprs).0.doc == (model.doc || exists|i: int|
            0 <= i < exprs.len() && shows_docs(#[trigger] exprs[i])),
    decreases exprs.len(),
{
    lemma_names();
    if exprs.len() > 0 {
        let rest = exprs.skip(1);
        let first = exprs[0];
        assert(is_accepted(first));
        let next = apply(model, first)->Ok_0;
        assert(apply(model, first) is Ok);
        assert forall|i: int| 0 <= i < rest.len() implies is_accepted(#[trigger] rest[i]) by {
            assert(rest[i] == exprs[i + 1]);
        }
        law_last_values(next, rest);
        assert forall|name: Seq<char>| takes_value(name) implies #[trigger] value_of(
            apply_all(model, exprs).0,
            name,
        ) == (match last_value(exprs, name) {
            Some(value) => Some(value),
            None => value_of(model, name),
        }) by {
            lemma_last_value(exprs, name);
            assert(seq![first].last() == first);
            assert(seq![first].drop_last() =~= seq![]);
            assert(last_value(seq![first].drop_last(), name) is None);
            assert(value_of(apply_all(next, rest).0, name) == (match last_value(rest, name) {
                Some(value) => Some(value),
                None => value_of(next, name),
            }));
        }
        assert(next.doc == (model.doc || shows_docs(first)));
        if exists|i: int| 0 <= i < exprs.len() && shows_docs(#[trigger] exprs[i]) {
            let i = choose|i: int| 0 <= i < exprs.len() && shows_docs(#[trigger] exprs[i]);
            if i > 0 {
                assert(rest[i - 1] == exprs[i]);
            }
        }
        if exists|i: int| 0 <= i < rest.len() && shows_docs(#[trigger] rest[i]) {
            let i = choose|i: int| 0 <= i < rest.len() && shows_docs(#[trigger] rest[i]);
            assert(exprs[i + 1] == rest[i]);
        }
    }
}

/// The first argument of a list that is not accepted decides: what it is refused for is what the
/// list is refused for, whatever comes behind it, and the arguments in front of it are taken over.
pub proof fn law_first_refused_argument(model: AttrModel, exprs: Seq<ExprModel>, n: int)
    requires
        0 <= n < exprs.len(),
        forall|i: int| 0 <= i < n ==> is_accepted(#[trigger] exprs[i]),
        !is_accepted(exprs[n]),
    ensures
        apply_all(model, exprs).0 == apply_all(model, exprs.take(n)).0,
        apply(no_attr(), exprs[n]) is Err,
        apply_all(model, exprs).1 == Some(apply(no_attr(), exprs[n])->Err_0),
    decreases n,
{
    if n == 0 {
        assert(exprs.take(0) =~= seq![]);
    } else {
        let rest = exprs.skip(1);
        assert(is_accepted(exprs[0]));
        assert forall|i: int| 0 <= i < n - 1 implies is_accepted(#[trigger] rest[i]) by {
            assert(rest[i] == exprs[i + 1]);
        }
        law_first_refused_argument(apply(model, exprs[0])->Ok_0, rest, n - 1);
        assert(exprs.take(n).skip(1) =~= rest.take(n - 1));
        assert(exprs.take(n)[0] == exprs[0]);
    }
}

// Attributes.

/// Where no attribute says anything, docs are not shown and no value is known.
pub proof fn law_nothing_is_said(model: AttrModel)
    ensures
        !no_attr().doc,
        forall|name: Seq<char>| #[trigger] value_of(no_attr(), name) is None,
        apply_attrs(model, seq![]) == Ok::<AttrModel, ErrorModel>(model),
{
}

/// The message of an error is the one that it was made with.
pub proof fn law_error_texts(toks: Seq<Tok>, message: Seq<char>)
    ensures
        ErrorModel::Spanned(toks, message).text() == message,
        ErrorModel::Syntax(message).text() == message,
{
}

/// A single token that is an identifier, and nothing else, is a single identifier.
pub proof fn law_single_ident(toks: Seq<Tok>, text: Seq<char>)
    ensures
        single_ident(toks) == Some(text) <==> toks == seq![Tok::Ident(text)],
{
    if single_ident(toks) == Some(text) {
        assert(toks =~= seq![Tok::Ident(text)]);
    }
}

/// An attribute counts where its path is the identifier `builder` and tokens follow it. Then these
/// have to be arguments in parentheses: tokens that are no expression and arguments that are refused
/// are reported.
pub proof fn law_single_attribute(model: AttrModel, attr: Attribute)
    ensures
        concerns_builder(attr) <==> tokens(attr.path) == seq![Tok::Ident("builder"@)] && tokens(
            attr.tts,
        ).len() > 0,
        apply_attrs(model, seq![attr]) == (if tokens(attr.path) != seq![Tok::Ident("builder"@)]
            || tokens(attr.tts).len() == 0 {
            Ok(model)
        } else {
            match args_model(tokens(attr.tts)) {
                Err(message) => Err(ErrorModel::Syntax(message)),
                Ok(ArgsModel::Bare) => Err(
                    ErrorModel::Spanned(tokens(attr.tts), "Expected (<...>)"@),
                ),
                Ok(ArgsModel::Listed(exprs)) => match apply_all(model, exprs).1 {
                    None => Ok(apply_all(model, exprs).0),
                    Some(error) => Err(error),
                },
            }
        }),
{
    law_single_ident(tokens(attr.path), "builder"@);
    assert(seq![attr].skip(1) =~= seq![]);
    reveal_with_fuel(apply_attrs, 2);
}

/// What an argument says, by how its tokens are parsed.
pub open spec fn said_by(toks: Seq<Tok>, shape: Shape) -> ExprModel {
    ExprModel {
        toks,
        kind: match shape {
            Shape::Assign(left, right) => KindModel::Assign(
                left,
                match expr_shape(left) {
                    Ok(Shape::Path(path)) => if path.len() == 1 && path[0] is Ident {
                        Some(path[0]->Ident_0)
                    } else {
                        None
                    },
                    _ => None,
                },
                right,
            ),
            Shape::Path(path) => KindModel::Path(
                if path.len() == 1 && path[0] is Ident {
                    Some(path[0]->Ident_0)
                } else {
                    None
                },
            ),
            _ => KindModel::Other,
        },
    }
}

/// The arguments of an attribute are what stands in parentheses, or each element of a tuple; any
/// other expression has none. Each says what its own tokens say.
pub proof fn law_arguments_are_read(toks: Seq<Tok>)
    ensures
        match expr_shape(toks) {
            Err(message) => args_model(toks) == Err::<ArgsModel, Seq<char>>(message),
            Ok(Shape::Paren(inner)) => args_model(toks) == (match expr_shape(inner) {
                Ok(shape) => Ok(ArgsModel::Listed(seq![said_by(inner, shape)])),
                Err(message) => Err(message),
            }),
            Ok(Shape::Tuple(elements)) => (forall|i: int|
                0 <= i < elements.len() ==> expr_shape(#[trigger] elements[i]) is Ok)
                ==> args_model(toks) == Ok::<ArgsModel, Seq<char>>(
                ArgsModel::Listed(
                    elements.map_values(
                        |element: Seq<Tok>| said_by(element, expr_shape(element)->Ok_0),
                    ),
                ),
            ),
            Ok(_) => args_model(toks) == Ok::<ArgsModel, Seq<char>>(ArgsModel::Bare),
        },
{
    match expr_shape(toks) {
        Ok(Shape::Paren(inner)) => {
            assert(seq![inner].drop_last() =~= seq![]);
            assert(seq![inner].last() == inner);
            reveal_with_fuel(read_models, 2);
            if let Ok(shape) = expr_shape(inner) {
                lemma_said_by(inner, shape);
                assert(Seq::<ExprModel>::empty().push(said_by(inner, shape)) =~= seq![
                    said_by(inner, shape),
                ]);
            }
        },
        Ok(Shape::Tuple(elements)) => {
            if forall|i: int|
                0 <= i < elements.len() ==> expr_shape(#[trigger] elements[i]) is Ok {
                lemma_read_models(elements);
            }
        },
        _ => {},
    }
}

proof fn lemma_said_by(toks: Seq<Tok>, shape: Shape)
    requires
        expr_shape(toks) == Ok::<Shape, Seq<char>>(shape),
    ensures
        read_model(toks) == Ok::<ExprModel, Seq<char>>(said_by(toks, shape)),
{
}

proof fn lemma_read_models(elements: Seq<Seq<Tok>>)
    requires
        forall|i: int| 0 <= i < elements.len() ==> expr_shape(#[trigger] elements[i]) is Ok,
    ensures
        read_models(elements) == Ok::<Seq<ExprModel>, Seq<char>>(
            elements.map_values(|element: Seq<Tok>| said_by(element, expr_shape(element)->Ok_0)),
        ),
    decreases elements.len(),
{
    let said = |element: Seq<Tok>| said_by(element, expr_shape(element)->Ok_0);
    if elements.len() == 0 {
        assert(elements.map_values(said) =~= seq![]);
    } else {
        let front = elements.drop_last();
        assert forall|i: int| 0 <= i < front.len() implies expr_shape(#[trigger] front[i]) is Ok by {
            assert(front[i] == elements[i]);
        }
        lemma_read_models(front);
        assert(expr_shape(elements[elements.len() - 1]) is Ok);
        lemma_said_by(elements.last(), expr_shape(elements.last())->Ok_0);
        assert(elements.map_values(said) =~= front.map_values(said).push(said(elements.last())));
    }
}

/// The message about several arguments is that about the first that is no expression.
pub proof fn law_first_argument_without_expression(elements: Seq<Seq<Tok>>, n: int)
    requires
        0 <= n < elements.len(),
        forall|i: int| 0 <= i < n ==> expr_shape(#[trigger] elements[i]) is Ok,
        expr_shape(elements[n]) is Err,
    ensures
        read_models(elements) == Err::<Seq<ExprModel>, Seq<char>>(expr_shape(elements[n])->Err_0),
    decreases elements.len(),
{
    let front = elements.drop_last();
    if n == elements.len() - 1 {
        assert forall|i: int| 0 <= i < front.len() implies expr_shape(#[trigger] front[i]) is Ok by {
            assert(front[i] == elements[i]);
        }
        lemma_read_models(front);
    } else {
        assert forall|i: int| 0 <= i < n implies expr_shape(#[trigger] front[i]) is Ok by {
            assert(front[i] == elements[i]);
        }
        law_first_argument_without_expression(front, n);
    }
}

/// The arguments of an attribute that are listed are taken over one after the other. Where none are
/// listed, nothing is taken over, and the tokens of the attribute are refused.
pub proof fn law_listed_or_bare(model: AttrModel, tts: Seq<Tok>, exprs: Seq<ExprModel>)
    ensures
        apply_args_model(model, tts, ArgsModel::Listed(exprs)) == apply_all(model, exprs),
        apply_args_model(model, tts, ArgsModel::Bare) == (
            model,
            Some(ErrorModel::Spanned(tts, "Expected (<...>)"@)),
        ),
        apply_all(model, seq![]) == (model, None::<ErrorModel>),
{
}

/// What a parsed expression says, given the identifier on the left of an assignment; the arguments
/// that it lists; and the identifier that it consists of.
pub proof fn law_forms_of_expressions(
    left: Seq<Tok>,
    right: Seq<Tok>,
    elements: Seq<Seq<Tok>>,
    text: Option<Seq<char>>,
    word: Seq<char>,
)
    ensures
        kind_with(Shape::Assign(left, right), text) == KindModel::Assign(left, text, right),
        kind_with(Shape::Path(seq![Tok::Ident(word)]), text) == KindModel::Path(Some(word)),
        (left.len() != 1 || !(left[0] is Ident)) ==> kind_with(Shape::Path(left), text)
            == KindModel::Path(None),
        kind_with(Shape::Paren(left), text) is Other,
        kind_with(Shape::Tuple(elements), text) is Other,
        kind_with(Shape::Other, text) is Other,
        listed_arguments(Shape::Paren(left)) == Some(seq![left]),
        listed_arguments(Shape::Tuple(elements)) == Some(elements),
        listed_arguments(Shape::Assign(left, right)) is None,
        listed_arguments(Shape::Path(left)) is None,
        listed_arguments(Shape::Other) is None,
        shape_text(Some(Shape::Path(seq![Tok::Ident(word)]))) == Some(word),
        (left.len() != 1 || !(left[0] is Ident)) ==> shape_text(Some(Shape::Path(left))) is None,
        shape_text(Some(Shape::Assign(left, right))) is None,
        shape_text(Some(Shape::Paren(left))) is None,
        shape_text(Some(Shape::Tuple(elements))) is None,
        shape_text(Some(Shape::Other)) is None,
        shape_text(None) is None,
{
    law_single_ident(seq![Tok::Ident(word)], word);
}

// Values and what they stand for.

/// What is known of a struct's attributes stands for the tokens of each value, under its own name.
pub proof fn law_attributes_stand_for(attr: TypeBuilderAttr)
    ensures
        attr@.doc == attr.doc,
        attr.name is None ==> attr@.name is None,
        attr.name matches Some(value) ==> attr@.name == Some(tokens(value)),
        attr.builder_method_doc is None ==> attr@.builder_method_doc is None,
        attr.builder_method_doc matches Some(value) ==> attr@.builder_method_doc == Some(
            tokens(value),
        ),
        attr.builder_type_doc is None ==> attr@.builder_type_doc is None,
        attr.builder_type_doc matches Some(value) ==> attr@.builder_type_doc == Some(
            tokens(value),
        ),
        attr.build_method_doc is None ==> attr@.build_method_doc is None,
        attr.build_method_doc matches Some(value) ==> attr@.build_method_doc == Some(
            tokens(value),
        ),
{
}

/// An argument stands for its tokens and what it says; arguments stand for each of them in order.
pub proof fn law_arguments_stand_for(expr: Expr, exprs: Seq<Expr>, args: Args)
    ensures
        expr@.toks == tokens(expr.stream),
        match expr.kind {
            ExprKind::Assign { left, name, right } => expr@.kind matches KindModel::Assign(
                left_toks,
                text,
                right_toks,
            ) && left_toks == tokens(left) && right_toks == tokens(right) && (match name {
                Some(name) => text == Some(name@),
                None => text is None,
            }),
            ExprKind::Path { name } => expr@.kind matches KindModel::Path(text) && (match name {
                Some(name) => text == Some(name@),
                None => text is None,
            }),
            ExprKind::Other => expr@.kind is Other,
        },
        expr_models(exprs).len() == exprs.len(),
        forall|i: int| 0 <= i < exprs.len() ==> #[trigger] expr_models(exprs)[i] == exprs[i]@,
        match args {
            Args::Listed(listed) => args@ == ArgsModel::Listed(expr_models(listed@)),
            Args::Bare => args@ is Bare,
        },
{
}

/// The form of an expression stands for the tokens of its parts.
pub proof fn law_forms_stand_for(shape: ExprShape, streams: Seq<TokenStream>)
    ensures
        match shape {
            ExprShape::Assign(left, right) => shape@ == Shape::Assign(tokens(left), tokens(right)),
            ExprShape::Path(path) => shape@ == Shape::Path(tokens(path)),
            ExprShape::Paren(inner) => shape@ == Shape::Paren(tokens(inner)),
            ExprShape::Tuple(elements) => shape@ == Shape::Tuple(token_lists(elements@)),
            ExprShape::Other => shape@ is Other,
        },
        token_lists(streams).len() == streams.len(),
        forall|i: int|
            0 <= i < streams.len() ==> #[trigger] token_lists(streams)[i] == tokens(streams[i]),
{
}

/// An error stands for its tokens and its message.
pub proof fn law_errors_stand_for(error: DeriveError)
    ensures
        match error {
            DeriveError::Spanned { tokens: stream, message } => error@ == ErrorModel::Spanned(
                tokens(stream),
                message@,
            ),
            DeriveError::Syntax(inner) => error@ == ErrorModel::Syntax(error_text(inner)),
        },
{
}

} // verus!
