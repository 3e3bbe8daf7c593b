//! Token streams and the tokens that they hold.
use vstd::prelude::*;

use crate::ident::is_ident;
use proc_macro2::{Delimiter, Spacing, TokenStream, TokenTree};

verus! {

/// The delimiter of a group of tokens.
#[derive(Clone, Copy, Debug, PartialEq, Eq, Structural)]
pub enum Delim {
    /// `( ... )`
    Parenthesis,
    /// `{ ... }`
    Brace,
    /// `[ ... ]`
    Bracket,
    /// A group without a visible delimiter, as macro expansion makes them.
    Hidden,
}

/// A token, without its place in the source.
pub enum Tok {
    /// An identifier or a keyword, as it is written (a raw one with its `r#`).
    Ident(Seq<char>),
    /// A punctuation character, and whether it is joined to the one that follows it.
    Punct(char, bool),
    /// A string literal without a suffix (not one of bytes or of C), by its value.
    Str(Seq<char>),
    /// An integer literal in plain decimal notation without a suffix, by its value.
    Int(nat),
    /// Any other literal, as it is written.
    Literal(Seq<char>),
    /// A delimited group of tokens.
    Group(Delim, Seq<Tok>),
}

/// The type `proc_macro2::TokenStream`: a sequence of token trees.
#[verifier::external_type_specification]
#[verifier::external_body]
pub struct ExTokenStream(proc_macro2::TokenStream);

/// The tokens that a token stream holds, in their order.
pub uninterp spec fn tokens(stream: TokenStream) -> Seq<Tok>;

/// The tokens of each of a sequence of token streams.
pub open spec fn token_lists(streams: Seq<TokenStream>) -> Seq<Seq<Tok>> {
    streams.map_values(|stream: TokenStream| tokens(stream))
}

/// The tokens of an optional token stream.
pub open spec fn optional_tokens(stream: Option<TokenStream>) -> Option<Seq<Tok>> {
    match stream {
        Some(stream) => Some(tokens(stream)),
        None => None,
    }
}

/// `TokenStream::new` returns a stream without tokens.
pub assume_specification[ proc_macro2::TokenStream::new ]() -> (stream: proc_macro2::TokenStream)
    ensures
        tokens(stream) == Seq::<Tok>::empty(),
;

/// `TokenStream::is_empty` tells whether the stream has no tokens.
pub assume_specification[ proc_macro2::TokenStream::is_empty ](
    stream: &proc_macro2::TokenStream,
) -> (empty: bool)
    ensures
        empty == (tokens(*stream).len() == 0),
;

/// The clone of a token stream holds the same tokens.
pub assume_specification[ <proc_macro2::TokenStream as Clone>::clone ](
    stream: &proc_macro2::TokenStream,
) -> (copy: proc_macro2::TokenStream)
    ensures
        tokens(copy) == tokens(*stream),
;

/// An identifier.
pub open spec fn word(text: Seq<char>) -> Seq<Tok> {
    seq![Tok::Ident(text)]
}

/// A punctuation character.
pub open spec fn punct(c: char, joint: bool) -> Seq<Tok> {
    seq![Tok::Punct(c, joint)]
}

/// A string literal.
pub open spec fn string(value: Seq<char>) -> Seq<Tok> {
    seq![Tok::Str(value)]
}

/// An integer literal.
pub open spec fn integer(value: nat) -> Seq<Tok> {
    seq![Tok::Int(value)]
}

/// A delimited group.
pub open spec fn group(delim: Delim, inner: Seq<Tok>) -> Seq<Tok> {
    seq![Tok::Group(delim, inner)]
}

/// The punctuation characters of the language, which `proc_macro2::Punct::new` accepts.
pub open spec fn is_punct(c: char) -> bool {
    c == '=' || c == '<' || c == '>' || c == '!' || c == '~' || c == '+' || c == '-' || c == '*'
        || c == '/' || c == '%' || c == '^' || c == '&' || c == '|' || c == '@' || c == '.' || c
        == ',' || c == ';' || c == ':' || c == '#' || c == '$' || c == '?' || c == '\''
}

/// That a text has only characters of ASCII.
pub open spec fn is_ascii_text(text: Seq<char>) -> bool {
    forall|i: int| 0 <= i < text.len() ==> #[trigger] text[i] <= '\x7f'
}

/// Appends an identifier made by `proc_macro2::Ident::new`, which refuses any text that is not
/// that of an identifier. The identifier is placed where the macro is called. A text of ASCII is
/// written as it is given. Any other text makes an identifier too, of which nothing more is said:
/// inside of a macro the compiler brings it into its normal form.
#[verifier::external_body]
pub(crate) fn push_ident(stream: &mut TokenStream, text: &str)
    requires
        is_ident(text@),
    ensures
        tokens(*final(stream)).len() == tokens(*old(stream)).len() + 1,
        tokens(*final(stream)).drop_last() == tokens(*old(stream)),
        ident_text(tokens(*final(stream)).last()) is Some,
        is_ascii_text(text@) ==> ident_text(tokens(*final(stream)).last()) == Some(text@),
{
    let ident = proc_macro2::Ident::new(text, proc_macro2::Span::call_site());
    stream.extend(Some(TokenTree::from(ident)));
}

/// Appends a punctuation character made by `proc_macro2::Punct::new`.
#[verifier::external_body]
pub(crate) fn push_punct(stream: &mut TokenStream, c: char, joint: bool)
    requires
        is_punct(c),
    ensures
        tokens(*final(stream)) == tokens(*old(stream)) + punct(c, joint),
{
    let spacing = match joint {
        true => Spacing::Joint,
        false => Spacing::Alone,
    };
    stream.extend(Some(TokenTree::from(proc_macro2::Punct::new(c, spacing))));
}

/// Appends a string literal made by `proc_macro2::Literal::string`, whose value is the text given.
#[verifier::external_body]
pub(crate) fn push_string(stream: &mut TokenStream, value: &str)
    ensures
        tokens(*final(stream)) == tokens(*old(stream)) + string(value@),
{
    stream.extend(Some(TokenTree::from(proc_macro2::Literal::string(value))));
}

/// Appends an integer literal made by `proc_macro2::Literal::usize_unsuffixed`.
#[verifier::external_body]
pub(crate) fn push_integer(stream: &mut TokenStream, value: usize)
    ensures
        tokens(*final(stream)) == tokens(*old(stream)) + integer(value as nat),
{
    let literal = proc_macro2::Literal::usize_unsuffixed(value);
    stream.extend(Some(TokenTree::from(literal)));
}

/// Appends a group made by `proc_macro2::Group::new`: the delimiters with the given tokens inside.
#[verifier::external_body]
pub(crate) fn push_group(stream: &mut TokenStream, delim: Delim, inner: TokenStream)
    ensures
        tokens(*final(stream)) == tokens(*old(stream)) + group(delim, tokens(inner)),
{
    let delimiter = match delim {
        Delim::Parenthesis => Delimiter::Parenthesis,
        Delim::Brace => Delimiter::Brace,
        Delim::Bracket => Delimiter::Bracket,
        Delim::Hidden => Delimiter::None,
    };
    stream.extend(Some(TokenTree::from(proc_macro2::Group::new(delimiter, inner))));
}

/// Appends the tokens of another stream, with `quote::ToTokens::to_tokens`.
#[verifier::external_body]
pub(crate) fn push_tokens(stream: &mut TokenStream, other: &TokenStream)
    ensures
        tokens(*final(stream)) == tokens(*old(stream)) + tokens(*other),
{
    quote::ToTokens::to_tokens(other, stream);
}

/// The text of a token if it is an identifier.
pub open spec fn ident_text(token: Tok) -> Option<Seq<char>> {
    match token {
        Tok::Ident(text) => Some(text),
        _ => None,
    }
}

/// The text of a string literal starts with a quote, or with the `r` of a raw one.
pub open spec fn is_string_text(text: Seq<char>) -> bool {
    text.len() > 0 && (text[0] == '"' || text[0] == 'r')
}

/// The text of an integer literal in plain decimal notation.
pub open spec fn is_decimal_text(text: Seq<char>) -> bool {
    text.len() > 0 && forall|i: int| 0 <= i < text.len() ==> '0' <= #[trigger] text[i] <= '9'
}

/// A token, as it is read off a stream.
#[derive(Debug)]
pub enum Tree {
    /// An identifier, as it is written.
    Ident(String),
    /// A punctuation character, and whether it is joined to the one that follows it.
    Punct(char, bool),
    /// A literal, as it is written.
    Literal(String),
    /// A delimited group of tokens.
    Group(Delim, TokenStream),
}

impl Tree {
    /// That this was read off a token.
    pub open spec fn reads(self, token: Tok) -> bool {
        match token {
            Tok::Ident(text) => self matches Tree::Ident(read) && read@ == text,
            Tok::Punct(c, joint) => self == Tree::Punct(c, joint),
            Tok::Str(_) => self matches Tree::Literal(read) && is_string_text(read@),
            Tok::Int(_) => self matches Tree::Literal(read) && is_decimal_text(read@),
            Tok::Literal(text) => self matches Tree::Literal(read) && read@ == text,
            Tok::Group(delim, inner) => self matches Tree::Group(read, stream) && read == delim
                && tokens(stream) == inner,
        }
    }
}

/// That trees were read off tokens, one for each.
pub open spec fn all_read(trees: Seq<Tree>, toks: Seq<Tok>) -> bool {
    &&& trees.len() == toks.len()
    &&& forall|i: int| #![trigger trees[i]] #![trigger toks[i]]
        0 <= i < trees.len() ==> trees[i].reads(toks[i])
}

/// The tokens of a stream, as `TokenStream::into_iter` hands them out. Identifiers and literals are
/// taken by the text that they display.
#[verifier::external_body]
pub(crate) fn trees_of(stream: &TokenStream) -> (trees: Vec<Tree>)
    ensures
        all_read(trees@, tokens(*stream)),
{
    stream.clone().into_iter().map(|tree| match tree {
        TokenTree::Ident(ident) => Tree::Ident(ident.to_string()),
        TokenTree::Punct(punct) => Tree::Punct(
            punct.as_char(),
            matches!(punct.spacing(), Spacing::Joint),
        ),
        TokenTree::Literal(literal) => Tree::Literal(literal.to_string()),
        TokenTree::Group(group) => match group.delimiter() {
            Delimiter::Parenthesis => Tree::Group(Delim::Parenthesis, group.stream()),
            Delimiter::Brace => Tree::Group(Delim::Brace, group.stream()),
            Delimiter::Bracket => Tree::Group(Delim::Bracket, group.stream()),
            Delimiter::None => Tree::Group(Delim::Hidden, group.stream()),
        },
    }).collect()
}

/// The text of a sequence of tokens that is a single identifier.
pub open spec fn single_ident(toks: Seq<Tok>) -> Option<Seq<char>> {
    if toks.len() == 1 {
        ident_text(toks[0])
    } else {
        None
    }
}

/// The text of a token stream that is a single identifier.
pub fn single_ident_text(stream: &TokenStream) -> (text: Option<String>)
    ensures
        match text {
            Some(text) => single_ident(tokens(*stream)) == Some(text@),
            None => single_ident(tokens(*stream)) is None,
        },
{
    let mut trees = trees_of(stream);
    if trees.len() == 1 {
        assert(trees@[0].reads(tokens(*stream)[0]));
        match trees.pop() {
            Some(Tree::Ident(text)) => Some(text),
            _ => None,
        }
    } else {
        None
    }
}

/// The text that `TokenStream` displays. For a stream of one identifier that is the identifier;
/// how other streams are spaced out is left to the compiler that the macro runs in.
#[verifier::external_body]
pub(crate) fn display_text(stream: &TokenStream) -> (text: String)
    ensures
        single_ident(tokens(*stream)) is Some ==> single_ident(tokens(*stream)) == Some(text@),
{
    stream.to_string()
}

} // verus!
