//! The expressions that attributes hold.
//!
//! An attribute such as `#[builder(doc, name = FooBuilder)]` has a list of expressions for its
//! arguments.
use vstd::prelude::*;

use crate::error::{error_text, DeriveError};
use crate::readable::{check_readable, is_readable};
use crate::token::{single_ident, single_ident_text, token_lists, tokens, Tok};
use proc_macro2::TokenStream;
use quote::ToTokens;

verus! {

/// The outermost form of an expression, with the tokens of what is inside.
pub enum Shape {
    /// `left = right`
    Assign(Seq<Tok>, Seq<Tok>),
    /// A path, without a qualified self type.
    Path(Seq<Tok>),
    /// `( inner )`
    Paren(Seq<Tok>),
    /// `( element, ... )`
    Tuple(Seq<Seq<Tok>>),
    /// Any other expression.
    Other,
}

/// The outermost form of an expression, as it is parsed.
#[derive(Debug)]
pub enum ExprShape {
    /// `left = right`
    Assign(TokenStream, TokenStream),
    /// A path, without a qualified self type.
    Path(TokenStream),
    /// `( inner )`
    Paren(TokenStream),
    /// `( element, ... )`
    Tuple(Vec<TokenStream>),
    /// Any other expression.
    Other,
}

impl View for ExprShape {
    type V = Shape;

    open spec fn view(&self) -> Shape {
        match *self {
            ExprShape::Assign(left, right) => Shape::Assign(tokens(left), tokens(right)),
            ExprShape::Path(path) => Shape::Path(tokens(path)),
            ExprShape::Paren(inner) => Shape::Paren(tokens(inner)),
            ExprShape::Tuple(elements) => Shape::Tuple(token_lists(elements@)),
            ExprShape::Other => Shape::Other,
        }
    }
}

/// The outermost form of the expression that `syn` parses some tokens to, or the message of the
/// error where it does not parse them.
pub uninterp spec fn expr_shape(toks: Seq<Tok>) -> Result<Shape, Seq<char>>;

/// Parses tokens with `syn::parse2` to a `syn::Expr`, and hands out the parts of an assignment, a
/// path, a parenthesized expression or a tuple as tokens by `quote::ToTokens`. The form and the
/// message of an error depend on the tokens alone. Tokens that are not readable make the parser
/// panic.
#[verifier::external_body]
pub(crate) fn parse_expr(stream: &TokenStream) -> (shape: Result<ExprShape, syn::Error>)
    requires
        is_readable(tokens(*stream)),
    ensures
        match shape {
            Ok(shape) => expr_shape(tokens(*stream)) == Ok::<Shape, Seq<char>>(shape@),
            Err(error) => expr_shape(tokens(*stream)) == Err::<Shape, Seq<char>>(
                error_text(error),
            ),
        },
{
    Ok(match syn::parse2::<syn::Expr>(stream.clone())? {
        syn::Expr::Assign(e) => {
            ExprShape::Assign(e.left.into_token_stream(), e.right.into_token_stream())
        },
        syn::Expr::Path(e) => ExprShape::Path(e.path.into_token_stream()),
        syn::Expr::Paren(e) => ExprShape::Paren(e.expr.into_token_stream()),
        syn::Expr::Tuple(e) => {
            ExprShape::Tuple(e.elems.into_iter().map(ToTokens::into_token_stream).collect())
        },
        _ => ExprShape::Other,
    })
}

/// The text of an expression of the given form, if it has one, that is a single identifier.
pub open spec fn shape_text(shape: Option<Shape>) -> Option<Seq<char>> {
    match shape {
        Some(Shape::Path(path)) => single_ident(path),
        _ => None,
    }
}

/// The text of an expression that is a single identifier.
pub open spec fn single_path(toks: Seq<Tok>) -> Option<Seq<char>> {
    match expr_shape(toks) {
        Ok(shape) => shape_text(Some(shape)),
        Err(_) => None,
    }
}

/// The identifier that a path consists of: there is none where the path starts with a colon, has
/// several segments, or has arguments.
pub fn path_to_single_string(path: &TokenStream) -> (text: Option<String>)
    ensures
        match text {
            Some(text) => single_ident(tokens(*path)) == Some(text@),
            None => single_ident(tokens(*path)) is None,
        },
{
    single_ident_text(path)
}

/// The form of an optional expression.
pub open spec fn optional_shape(shape: Option<ExprShape>) -> Option<Shape> {
    match shape {
        Some(shape) => Some(shape@),
        None => None,
    }
}

/// The identifier that an expression of the given form consists of.
pub fn shape_to_single_string(shape: &Option<ExprShape>) -> (text: Option<String>)
    ensures
        match text {
            Some(text) => shape_text(optional_shape(*shape)) == Some(text@),
            None => shape_text(optional_shape(*shape)) is None,
        },
{
    match shape {
        Some(ExprShape::Path(path)) => path_to_single_string(path),
        _ => None,
    }
}

/// The identifier that an expression consists of.
pub fn expr_to_single_string(expr: &TokenStream) -> (text: Option<String>)
    requires
        is_readable(tokens(*expr)),
    ensures
        match text {
            Some(text) => single_path(tokens(*expr)) == Some(text@),
            None => single_path(tokens(*expr)) is None,
        },
{
    let shape = match parse_expr(expr) {
        Ok(shape) => Some(shape),
        Err(_) => None,
    };
    shape_to_single_string(&shape)
}

/// An argument of an attribute.
#[derive(Debug)]
pub struct Expr {
    /// The whole argument.
    pub stream: TokenStream,
    /// What it says.
    pub kind: ExprKind,
}

/// What an argument of an attribute says.
#[derive(Debug)]
pub enum ExprKind {
    /// `left = right`, with the identifier that the left side consists of.
    Assign { left: TokenStream, name: Option<String>, right: TokenStream },
    /// A path, with the identifier that it consists of.
    Path { name: Option<String> },
    /// Any other expression.
    Other,
}

/// An argument of an attribute, by its tokens.
pub struct ExprModel {
    /// The whole argument.
    pub toks: Seq<Tok>,
    /// What it says.
    pub kind: KindModel,
}

/// What an argument of an attribute says, by its tokens.
pub enum KindModel {
    /// The left side, the identifier that it consists of, and the right side of an assignment.
    Assign(Seq<Tok>, Option<Seq<char>>, Seq<Tok>),
    /// The identifier that a path consists of.
    Path(Option<Seq<char>>),
    /// Any other expression.
    Other,
}

/// The text of an optional string.
pub open spec fn optional_text(text: Option<String>) -> Option<Seq<char>> {
    match text {
        Some(text) => Some(text@),
        None => None,
    }
}

impl View for ExprKind {
    type V = KindModel;

    open spec fn view(&self) -> KindModel {
        match *self {
            ExprKind::Assign { left, name, right } => KindModel::Assign(
                tokens(left),
                optional_text(name),
                tokens(right),
            ),
            ExprKind::Path { name } => KindModel::Path(optional_text(name)),
            ExprKind::Other => KindModel::Other,
        }
    }
}

impl View for Expr {
    type V = ExprModel;

    open spec fn view(&self) -> ExprModel {
        ExprModel { toks: tokens(self.stream), kind: self.kind@ }
    }
}

/// The views of arguments.
pub open spec fn expr_models(exprs: Seq<Expr>) -> Seq<ExprModel> {
    exprs.map_values(|expr: Expr| expr@)
}

/// What an expression of the given form says as an argument, given the identifier that the left
/// side of an assignment consists of.
pub open spec fn kind_with(shape: Shape, left_text: Option<Seq<char>>) -> KindModel {
    match shape {
        Shape::Assign(left, right) => KindModel::Assign(left, left_text, right),
        Shape::Path(path) => KindModel::Path(single_ident(path)),
        _ => KindModel::Other,
    }
}

/// What an expression of the given form says as an argument.
pub open spec fn kind_of(shape: Shape) -> KindModel {
    match shape {
        Shape::Assign(left, _) => kind_with(shape, single_path(left)),
        _ => kind_with(shape, None),
    }
}

impl ExprKind {
    /// What an expression of the given form says as an argument, given the identifier that the
    /// left side of an assignment consists of.
    pub fn new(shape: ExprShape, left_text: Option<String>) -> (kind: ExprKind)
        ensures
            kind@ == kind_with(shape@, optional_text(left_text)),
    {
        match shape {
            ExprShape::Assign(left, right) => ExprKind::Assign { left, name: left_text, right },
            ExprShape::Path(path) => ExprKind::Path { name: path_to_single_string(&path) },
            _ => ExprKind::Other,
        }
    }
}

/// What tokens say as an argument, or the message about tokens that are no expression.
pub open spec fn read_model(toks: Seq<Tok>) -> Result<ExprModel, Seq<char>> {
    match expr_shape(toks) {
        Ok(shape) => Ok(ExprModel { toks, kind: kind_of(shape) }),
        Err(message) => Err(message),
    }
}

/// That an argument can be parsed without fail, and the left side of an assignment with it.
pub open spec fn expr_is_readable(toks: Seq<Tok>) -> bool {
    is_readable(toks) && (expr_shape(toks) matches Ok(Shape::Assign(left, _)) ==> is_readable(left))
}

/// Whether an argument can be parsed without fail, and the left side of an assignment with it.
pub fn check_expr(stream: &TokenStream) -> (yes: bool)
    ensures
        yes == expr_is_readable(tokens(*stream)),
{
    if !check_readable(stream) {
        return false;
    }
    match parse_expr(stream) {
        Ok(ExprShape::Assign(left, _)) => check_readable(&left),
        _ => true,
    }
}

/// Reads an argument.
pub fn read_expr(stream: &TokenStream) -> (expr: Result<Expr, DeriveError>)
    requires
        expr_is_readable(tokens(*stream)),
    ensures
        match expr {
            Ok(expr) => read_model(tokens(*stream)) == Ok::<ExprModel, Seq<char>>(expr@),
            Err(error) => error@ is Syntax && read_model(tokens(*stream)) == Err::<
                ExprModel,
                Seq<char>,
            >(error@.text()),
        },
{
    match parse_expr(stream) {
        Ok(shape) => {
            let left_text = match &shape {
                ExprShape::Assign(left, _) => expr_to_single_string(left),
                _ => None,
            };
            Ok(Expr { stream: stream.clone(), kind: ExprKind::new(shape, left_text) })
        },
        Err(error) => Err(DeriveError::Syntax(error)),
    }
}

/// The arguments of an attribute.
#[derive(Debug)]
pub enum Args {
    /// Arguments in parentheses.
    Listed(Vec<Expr>),
    /// An expression that is not in parentheses.
    Bare,
}

/// The arguments of an attribute, by their tokens.
pub enum ArgsModel {
    /// Arguments in parentheses.
    Listed(Seq<ExprModel>),
    /// An expression that is not in parentheses.
    Bare,
}

impl View for Args {
    type V = ArgsModel;

    open spec fn view(&self) -> ArgsModel {
        match *self {
            Args::Listed(exprs) => ArgsModel::Listed(expr_models(exprs@)),
            Args::Bare => ArgsModel::Bare,
        }
    }
}

/// What several arguments say, or the message about the first that is no expression.
pub open spec fn read_models(lists: Seq<Seq<Tok>>) -> Result<Seq<ExprModel>, Seq<char>>
    decreases lists.len(),
{
    if lists.len() == 0 {
        Ok(seq![])
    } else {
        match read_models(lists.drop_last()) {
            Ok(models) => match read_model(lists.last()) {
                Ok(model) => Ok(models.push(model)),
                Err(message) => Err(message),
            },
            Err(message) => Err(message),
        }
    }
}

/// The arguments that an expression of the given form lists: one in parentheses, or the elements of
/// a tuple. Any other expression lists none.
pub open spec fn listed_arguments(shape: Shape) -> Option<Seq<Seq<Tok>>> {
    match shape {
        Shape::Paren(inner) => Some(seq![inner]),
        Shape::Tuple(elements) => Some(elements),
        _ => None,
    }
}

/// The arguments that the tokens behind the name of an attribute are, or the message about tokens
/// that are no expression.
pub open spec fn args_model(toks: Seq<Tok>) -> Result<ArgsModel, Seq<char>> {
    match expr_shape(toks) {
        Ok(shape) => match listed_arguments(shape) {
            Some(lists) => match read_models(lists) {
                Ok(models) => Ok(ArgsModel::Listed(models)),
                Err(message) => Err(message),
            },
            None => Ok(ArgsModel::Bare),
        },
        Err(message) => Err(message),
    }
}

/// That the tokens behind the name of an attribute can be parsed without fail, and each of their
/// arguments with them.
pub open spec fn args_are_readable(toks: Seq<Tok>) -> bool {
    &&& is_readable(toks)
    &&& match expr_shape(toks) {
        Ok(shape) => match listed_arguments(shape) {
            Some(lists) => forall|i: int|
                0 <= i < lists.len() ==> expr_is_readable(#[trigger] lists[i]),
            None => true,
        },
        Err(_) => true,
    }
}

/// The arguments that an expression of the given form lists.
pub fn list_arguments(shape: ExprShape) -> (elements: Option<Vec<TokenStream>>)
    ensures
        match elements {
            Some(elements) => listed_arguments(shape@) == Some(token_lists(elements@)),
            None => listed_arguments(shape@) is None,
        },
{
    match shape {
        ExprShape::Paren(inner) => {
            let mut elements: Vec<TokenStream> = Vec::new();
            elements.push(inner);
            assert(token_lists(elements@) =~= seq![tokens(inner)]);
            Some(elements)
        },
        ExprShape::Tuple(elements) => Some(elements),
        _ => None,
    }
}

/// Whether the tokens behind the name of an attribute can be parsed without fail, and each of their
/// arguments with them.
pub fn check_args(stream: &TokenStream) -> (yes: bool)
    ensures
        yes == args_are_readable(tokens(*stream)),
{
    if !check_readable(stream) {
        return false;
    }
    let elements = match parse_expr(stream) {
        Ok(shape) => match list_arguments(shape) {
            Some(elements) => elements,
            None => {
                return true;
            },
        },
        Err(_) => {
            return true;
        },
    };
    let ghost lists = token_lists(elements@);
    let mut i: usize = 0;
    while i < elements.len()
        invariant
            i <= elements@.len(),
            lists == token_lists(elements@),
            lists.len() == elements@.len(),
            is_readable(tokens(*stream)),
            expr_shape(tokens(*stream)) is Ok,
            listed_arguments(expr_shape(tokens(*stream))->Ok_0) == Some(lists),
            forall|j: int| 0 <= j < i ==> expr_is_readable(#[trigger] lists[j]),
        decreases elements@.len() - i,
    {
        if !check_expr(&elements[i]) {
            proof {
                let all = listed_arguments(expr_shape(tokens(*stream))->Ok_0)->0;
                assert(all[i as int] == tokens(elements@[i as int]));
                assert(!expr_is_readable(all[i as int]));
            }
            return false;
        }
        i = i + 1;
    }
    true
}

/// An argument that is no expression decides, whatever comes behind it.
proof fn lemma_read_models_error(lists: Seq<Seq<Tok>>, n: int)
    requires
        0 <= n <= lists.len(),
        read_models(lists.take(n)) is Err,
    ensures
        read_models(lists) == read_models(lists.take(n)),
    decreases lists.len(),
{
    if n == lists.len() {
        assert(lists.take(n) =~= lists);
    } else {
        assert(lists.drop_last().take(n) =~= lists.take(n));
        lemma_read_models_error(lists.drop_last(), n);
    }
}

/// Reads several arguments.
fn read_exprs(streams: &Vec<TokenStream>) -> (exprs: Result<Vec<Expr>, DeriveError>)
    requires
        forall|i: int|
            0 <= i < streams@.len() ==> expr_is_readable(#[trigger] token_lists(streams@)[i]),
    ensures
        match exprs {
            Ok(exprs) => read_models(token_lists(streams@)) == Ok::<Seq<ExprModel>, Seq<char>>(
                expr_models(exprs@),
            ),
            Err(error) => error@ is Syntax && read_models(token_lists(streams@)) == Err::<
                Seq<ExprModel>,
                Seq<char>,
            >(error@.text()),
        },
{
    let ghost lists = token_lists(streams@);
    let mut exprs: Vec<Expr> = Vec::new();
    let mut i: usize = 0;
    assert(expr_models(exprs@) =~= seq![]);
    while i < streams.len()
        invariant
            i <= streams@.len(),
            lists == token_lists(streams@),
            forall|j: int| 0 <= j < streams@.len() ==> expr_is_readable(#[trigger] lists[j]),
            read_models(lists.take(i as int)) == Ok::<Seq<ExprModel>, Seq<char>>(
                expr_models(exprs@),
            ),
        decreases streams@.len() - i,
    {
        let ghost before = expr_models(exprs@);
        proof {
            assert(lists[i as int] == tokens(streams@[i as int]));
            assert(lists.take(i + 1).drop_last() =~= lists.take(i as int));
        }
        match read_expr(&streams[i]) {
            Ok(expr) => {
                exprs.push(expr);
                assert(expr_models(exprs@) =~= before.push(expr@));
            },
            Err(error) => {
                proof {
                    lemma_read_models_error(lists, i + 1);
                }
                return Err(error);
            },
        }
        i = i + 1;
    }
    assert(lists.take(i as int) =~= lists);
    Ok(exprs)
}

/// Reads the arguments of an attribute off the tokens behind its name.
pub fn read_args(stream: &TokenStream) -> (args: Result<Args, DeriveError>)
    requires
        args_are_readable(tokens(*stream)),
    ensures
        match args {
            Ok(args) => args_model(tokens(*stream)) == Ok::<ArgsModel, Seq<char>>(args@),
            Err(error) => error@ is Syntax && args_model(tokens(*stream)) == Err::<
                ArgsModel,
                Seq<char>,
            >(error@.text()),
        },
{
    match parse_expr(stream) {
        Ok(shape) => match list_arguments(shape) {
            Some(elements) => match read_exprs(&elements) {
                Ok(exprs) => Ok(Args::Listed(exprs)),
                Err(error) => Err(error),
            },
            None => Ok(Args::Bare),
        },
        Err(error) => Err(DeriveError::Syntax(error)),
    }
}

} // verus!
