//! What the `builder` attributes of a struct say.
use vstd::prelude::*;

use crate::error::{quoted, show_debug, DeriveError, ErrorModel};
use crate::expr::{
    args_are_readable, args_model, check_args, expr_models, path_to_single_string, read_args, Args,
    ArgsModel, Expr, ExprKind, ExprModel, KindModel,
};
use crate::text::same_text;
use crate::token::{optional_tokens, single_ident, tokens, Tok};
use proc_macro2::TokenStream;

verus! {

/// An attribute of the source: `#[path tts]`.
#[derive(Debug)]
pub struct Attribute {
    /// The name of the attribute.
    pub path: TokenStream,
    /// The tokens behind the name.
    pub tts: TokenStream,
}

/// What the `builder` attributes of a struct say.
#[derive(Debug)]
pub struct TypeBuilderAttr {
    /// Whether to show docs for the builder type (rather than hiding them).
    pub doc: bool,
    /// The name of the builder type.
    pub name: Option<TokenStream>,
    /// Docs on the `Type::builder()` method.
    pub builder_method_doc: Option<TokenStream>,
    /// Docs on the builder type. Specifying this implies `doc`, but you can just specify `doc`
    /// instead and a default value will be filled in here.
    pub builder_type_doc: Option<TokenStream>,
    /// Docs on the `build()` method of the builder type. Specifying this implies `doc`, but you
    /// can just specify `doc` instead and a default value will be filled in here.
    pub build_method_doc: Option<TokenStream>,
}

/// What the `builder` attributes of a struct say, by the tokens of the values.
pub struct AttrModel {
    pub doc: bool,
    pub name: Option<Seq<Tok>>,
    pub builder_method_doc: Option<Seq<Tok>>,
    pub builder_type_doc: Option<Seq<Tok>>,
    pub build_method_doc: Option<Seq<Tok>>,
}

impl View for TypeBuilderAttr {
    type V = AttrModel;

    open spec fn view(&self) -> AttrModel {
        AttrModel {
            doc: self.doc,
            name: optional_tokens(self.name),
            builder_method_doc: optional_tokens(self.builder_method_doc),
            builder_type_doc: optional_tokens(self.builder_type_doc),
            build_method_doc: optional_tokens(self.build_method_doc),
        }
    }
}

/// What no attribute says.
pub open spec fn no_attr() -> AttrModel {
    AttrModel {
        doc: false,
        name: None,
        builder_method_doc: None,
        builder_type_doc: None,
        build_method_doc: None,
    }
}

/// That docs on the builder type or on its `build()` method come only where docs are shown.
pub open spec fn docs_are_shown(model: AttrModel) -> bool {
    model.builder_type_doc is Some || model.build_method_doc is Some ==> model.doc
}

/// The message about an argument with an unknown name.
pub open spec fn unknown_parameter(name: Seq<char>) -> Seq<char> {
    "Unknown parameter "@ + quoted(name)
}

/// What a `name = value` argument adds, or why it is refused.
pub open spec fn apply_assign(
    model: AttrModel,
    toks: Seq<Tok>,
    name: Seq<char>,
    value: Seq<Tok>,
) -> Result<AttrModel, ErrorModel> {
    if name == "name"@ {
        Ok(AttrModel { name: Some(value), ..model })
    } else if name == "builder_method_doc"@ {
        Ok(AttrModel { builder_method_doc: Some(value), ..model })
    } else if name == "builder_type_doc"@ {
        Ok(AttrModel { builder_type_doc: Some(value), doc: true, ..model })
    } else if name == "build_method_doc"@ {
        Ok(AttrModel { build_method_doc: Some(value), doc: true, ..model })
    } else {
        Err(ErrorModel::Spanned(toks, unknown_parameter(name)))
    }
}

/// What an argument adds, or why it is refused.
pub open spec fn apply(model: AttrModel, expr: ExprModel) -> Result<AttrModel, ErrorModel> {
    match expr.kind {
        KindModel::Assign(_, Some(name), right) => apply_assign(model, expr.toks, name, right),
        KindModel::Assign(left, None, _) => Err(
            ErrorModel::Spanned(left, "Expected identifier"@),
        ),
        KindModel::Path(Some(name)) => if name == "doc"@ {
            Ok(AttrModel { doc: true, ..model })
        } else {
            Err(ErrorModel::Spanned(expr.toks, unknown_parameter(name)))
        },
        KindModel::Path(None) => Err(ErrorModel::Spanned(expr.toks, "Expected identifier"@)),
        KindModel::Other => Err(ErrorModel::Spanned(expr.toks, "Expected (<...>=<...>)"@)),
    }
}

/// What is known after a list of arguments, up to the first that is refused, and why it is.
pub open spec fn apply_all(model: AttrModel, exprs: Seq<ExprModel>) -> (
    AttrModel,
    Option<ErrorModel>,
)
    decreases exprs.len(),
{
    if exprs.len() == 0 {
        (model, None)
    } else {
        match apply(model, exprs[0]) {
            Ok(next) => apply_all(next, exprs.skip(1)),
            Err(error) => (model, Some(error)),
        }
    }
}

/// What is known after the arguments of an attribute, and why one of them is refused.
pub open spec fn apply_args_model(model: AttrModel, tts: Seq<Tok>, args: ArgsModel) -> (
    AttrModel,
    Option<ErrorModel>,
) {
    match args {
        ArgsModel::Listed(exprs) => apply_all(model, exprs),
        ArgsModel::Bare => (model, Some(ErrorModel::Spanned(tts, "Expected (<...>)"@))),
    }
}

/// That an attribute is a `builder` attribute with arguments.
pub open spec fn concerns_builder(attr: Attribute) -> bool {
    single_ident(tokens(attr.path)) == Some("builder"@) && tokens(attr.tts).len() > 0
}

/// What is known after an attribute, or why it is refused.
pub open spec fn apply_attr(model: AttrModel, attr: Attribute) -> Result<AttrModel, ErrorModel> {
    if !concerns_builder(attr) {
        Ok(model)
    } else {
        match args_model(tokens(attr.tts)) {
            Err(message) => Err(ErrorModel::Syntax(message)),
            Ok(args) => match apply_args_model(model, tokens(attr.tts), args) {
                (next, None) => Ok(next),
                (_, Some(error)) => Err(error),
            },
        }
    }
}

/// What is known after a list of attributes, or why the first is refused that is.
pub open spec fn apply_attrs(model: AttrModel, attrs: Seq<Attribute>) -> Result<
    AttrModel,
    ErrorModel,
>
    decreases attrs.len(),
{
    if attrs.len() == 0 {
        Ok(model)
    } else {
        match apply_attr(model, attrs[0]) {
            Ok(next) => apply_attrs(next, attrs.skip(1)),
            Err(error) => Err(error),
        }
    }
}

/// That an attribute can be parsed without fail, if it has to be.
pub open spec fn attr_is_readable(attr: Attribute) -> bool {
    concerns_builder(attr) ==> args_are_readable(tokens(attr.tts))
}

/// That attributes can be parsed without fail, up to the first that is refused.
pub open spec fn attrs_are_readable(model: AttrModel, attrs: Seq<Attribute>) -> bool
    decreases attrs.len(),
{
    if attrs.len() == 0 {
        true
    } else {
        attr_is_readable(attrs[0]) && (match apply_attr(model, attrs[0]) {
            Ok(next) => attrs_are_readable(next, attrs.skip(1)),
            Err(_) => true,
        })
    }
}

impl Attribute {
    /// Whether this is a `builder` attribute with arguments.
    fn check_concerns_builder(&self) -> (yes: bool)
        ensures
            yes == concerns_builder(*self),
    {
        let is_builder = match path_to_single_string(&self.path) {
            Some(name) => same_text(name.as_str(), "builder"),
            None => false,
        };
        is_builder && !self.tts.is_empty()
    }
}

impl Default for TypeBuilderAttr {
    fn default() -> (attr: TypeBuilderAttr)
        ensures
            attr@ == no_attr(),
    {
        TypeBuilderAttr {
            doc: false,
            name: None,
            builder_method_doc: None,
            builder_type_doc: None,
            build_method_doc: None,
        }
    }
}

/// Refuses an argument with an unknown name.
fn unknown(stream: TokenStream, name: &str) -> (error: DeriveError)
    ensures
        error@ == ErrorModel::Spanned(tokens(stream), unknown_parameter(name@)),
{
    let mut message = "Unknown parameter ".to_owned();
    let shown = show_debug(name);
    message.append(shown.as_str());
    DeriveError::new_spanned(stream, message.as_str())
}

impl TypeBuilderAttr {
    /// Reads the attributes of a struct. Those that are not called `builder`, and those without
    /// arguments, are passed over.
    pub fn new(attrs: &[Attribute]) -> (attr: Result<TypeBuilderAttr, DeriveError>)
        requires
            attrs_are_readable(no_attr(), attrs@),
        ensures
            match attr {
                Ok(attr) => apply_attrs(no_attr(), attrs@) == Ok::<AttrModel, ErrorModel>(attr@),
                Err(error) => apply_attrs(no_attr(), attrs@) == Err::<AttrModel, ErrorModel>(
                    error@,
                ),
            },
    {
        let mut result = TypeBuilderAttr::default();
        let mut i: usize = 0;
        assert(attrs@.skip(0) =~= attrs@);
        while i < attrs.len()
            invariant
                i <= attrs@.len(),
                attrs_are_readable(result@, attrs@.skip(i as int)),
                apply_attrs(result@, attrs@.skip(i as int)) == apply_attrs(no_attr(), attrs@),
            decreases attrs@.len() - i,
        {
            proof {
                assert(attrs@.skip(i as int)[0] == attrs@[i as int]);
                assert(attrs@.skip(i as int).skip(1) =~= attrs@.skip(i + 1));
            }
            match result.apply_attribute(&attrs[i]) {
                Ok(_) => {},
                Err(error) => {
                    return Err(error);
                },
            }
            i = i + 1;
        }
        Ok(result)
    }

    /// Reads the attributes of a struct, where they can be parsed without fail. There is no result
    /// where they cannot.
    pub fn try_new(attrs: &[Attribute]) -> (attr: Option<Result<TypeBuilderAttr, DeriveError>>)
        ensures
            attr is Some <==> attrs_are_readable(no_attr(), attrs@),
            attr matches Some(attr) ==> (match attr {
                Ok(attr) => apply_attrs(no_attr(), attrs@) == Ok::<AttrModel, ErrorModel>(attr@),
                Err(error) => apply_attrs(no_attr(), attrs@) == Err::<AttrModel, ErrorModel>(
                    error@,
                ),
            }),
    {
        if check_attrs(attrs) {
            Some(Self::new(attrs))
        } else {
            None
        }
    }

    /// Takes over an attribute, up to the first argument that is refused.
    fn apply_attribute(&mut self, attr: &Attribute) -> (result: Result<(), DeriveError>)
        requires
            attr_is_readable(*attr),
        ensures
            match result {
                Ok(_) => apply_attr(old(self)@, *attr) == Ok::<AttrModel, ErrorModel>(final(self)@),
                Err(error) => apply_attr(old(self)@, *attr) == Err::<AttrModel, ErrorModel>(
                    error@,
                ),
            },
    {
        if !attr.check_concerns_builder() {
            return Ok(());
        }
        match read_args(&attr.tts) {
            Ok(args) => self.apply_args(&attr.tts, args),
            Err(error) => Err(error),
        }
    }

    /// Takes over the arguments of an attribute, up to the first that is refused.
    pub fn apply_args(&mut self, tts: &TokenStream, args: Args) -> (result: Result<(), DeriveError>)
        ensures
            apply_args_model(old(self)@, tokens(*tts), args@) == (
                final(self)@,
                (match result {
                    Ok(_) => None,
                    Err(error) => Some(error@),
                }),
            ),
    {
        match args {
            Args::Listed(exprs) => {
                let mut exprs = exprs;
                let ghost models = expr_models(exprs@);
                let ghost mut done: int = 0;
                assert(models.skip(0) =~= models);
                while exprs.len() > 0
                    invariant
                        0 <= done <= models.len(),
                        args@ == ArgsModel::Listed(models),
                        expr_models(exprs@) == models.skip(done),
                        apply_all(self@, models.skip(done)) == apply_all(old(self)@, models),
                    decreases exprs.len(),
                {
                    let ghost before = exprs@;
                    let expr = exprs.remove(0);
                    proof {
                        assert(expr_models(before)[0] == expr@);
                        assert(models.skip(done).skip(1) =~= models.skip(done + 1));
                        assert(expr_models(exprs@) =~= expr_models(before).skip(1));
                        done = done + 1;
                    }
                    match self.apply_meta(expr) {
                        Ok(_) => {},
                        Err(error) => {
                            return Err(error);
                        },
                    }
                }
                Ok(())
            },
            Args::Bare => Err(DeriveError::new_spanned(tts.clone(), "Expected (<...>)")),
        }
    }

    /// Takes over an argument. One that is refused changes nothing.
    pub fn apply_meta(&mut self, expr: Expr) -> (result: Result<(), DeriveError>)
        ensures
            match result {
                Ok(_) => apply(old(self)@, expr@) == Ok::<AttrModel, ErrorModel>(final(self)@),
                Err(error) => apply(old(self)@, expr@) == Err::<AttrModel, ErrorModel>(error@)
                    && final(self)@ == old(self)@,
            },
    {
        let stream = expr.stream;
        match expr.kind {
            ExprKind::Assign { left, name, right } => match name {
                Some(name) => {
                    let name = name.as_str();
                    if same_text(name, "name") {
                        self.name = Some(right);
                        Ok(())
                    } else if same_text(name, "builder_method_doc") {
                        self.builder_method_doc = Some(right);
                        Ok(())
                    } else if same_text(name, "builder_type_doc") {
                        self.builder_type_doc = Some(right);
                        self.doc = true;
                        Ok(())
                    } else if same_text(name, "build_method_doc") {
                        self.build_method_doc = Some(right);
                        self.doc = true;
                        Ok(())
                    } else {
                        Err(unknown(stream, name))
                    }
                },
                None => Err(DeriveError::new_spanned(left, "Expected identifier")),
            },
            ExprKind::Path { name } => match name {
                Some(name) => {
                    let name = name.as_str();
                    if same_text(name, "doc") {
                        self.doc = true;
                        Ok(())
                    } else {
                        Err(unknown(stream, name))
                    }
                },
                None => Err(DeriveError::new_spanned(stream, "Expected identifier")),
            },
            ExprKind::Other => Err(DeriveError::new_spanned(stream, "Expected (<...>=<...>)")),
        }
    }
}

/// Whether attributes can be parsed without fail, up to the first that is refused.
pub fn check_attrs(attrs: &[Attribute]) -> (yes: bool)
    ensures
        yes == attrs_are_readable(no_attr(), attrs@),
{
    let mut known = TypeBuilderAttr::default();
    let mut i: usize = 0;
    assert(attrs@.skip(0) =~= attrs@);
    while i < attrs.len()
        invariant
            i <= attrs@.len(),
            attrs_are_readable(known@, attrs@.skip(i as int)) == attrs_are_readable(
                no_attr(),
                attrs@,
            ),
        decreases attrs@.len() - i,
    {
        let attr = &attrs[i];
        proof {
            assert(attrs@.skip(i as int)[0] == *attr);
            assert(attrs@.skip(i as int).skip(1) =~= attrs@.skip(i + 1));
        }
        if attr.check_concerns_builder() && !check_args(&attr.tts) {
            return false;
        }
        match known.apply_attribute(attr) {
            Ok(_) => {},
            Err(_) => {
                return true;
            },
        }
        i = i + 1;
    }
    true
}

} // verus!
