//! What is reported to the user of the macro.
use vstd::prelude::*;

use crate::ident::is_word_char;
use crate::token::{tokens, Tok};
use proc_macro2::TokenStream;

verus! {

/// The type `syn::Error`: a message about a place in the source.
#[verifier::external_type_specification]
#[verifier::external_body]
pub struct ExSynError(syn::Error);

/// The message of an error.
pub uninterp spec fn error_text(error: syn::Error) -> Seq<char>;

/// The message of an error, as `syn::Error` displays it.
#[verifier::external_body]
pub(crate) fn show_error(error: &syn::Error) -> (text: String)
    ensures
        text@ == error_text(*error),
{
    error.to_string()
}

/// Makes an error with `syn::Error::new_spanned`, which keeps the message as it is given. The place
/// of the error is that of the tokens, of which nothing is said.
#[verifier::external_body]
pub(crate) fn error_at(tokens: TokenStream, message: &str) -> (error: syn::Error)
    ensures
        error_text(error) == message@,
{
    syn::Error::new_spanned(tokens, message)
}

/// Why no code can be generated.
#[derive(Debug)]
pub enum DeriveError {
    /// A message about some tokens of the source.
    Spanned { tokens: TokenStream, message: String },
    /// Tokens that could not be parsed.
    Syntax(syn::Error),
}

/// An error, without its place in the source.
pub enum ErrorModel {
    /// A message about some tokens.
    Spanned(Seq<Tok>, Seq<char>),
    /// The message about tokens that could not be parsed.
    Syntax(Seq<char>),
}

impl ErrorModel {
    /// The message.
    pub open spec fn text(self) -> Seq<char> {
        match self {
            ErrorModel::Spanned(_, message) => message,
            ErrorModel::Syntax(message) => message,
        }
    }
}

impl View for DeriveError {
    type V = ErrorModel;

    open spec fn view(&self) -> ErrorModel {
        match *self {
            DeriveError::Spanned { tokens: stream, message } => ErrorModel::Spanned(
                tokens(stream),
                message@,
            ),
            DeriveError::Syntax(error) => ErrorModel::Syntax(error_text(error)),
        }
    }
}

impl DeriveError {
    /// A message about some tokens of the source.
    pub fn new_spanned(tokens: TokenStream, message: &str) -> (error: DeriveError)
        ensures
            error@ == ErrorModel::Spanned(crate::token::tokens(tokens), message@),
    {
        DeriveError::Spanned { tokens, message: message.to_owned() }
    }

    /// The message.
    pub fn message(&self) -> (text: String)
        ensures
            text@ == self@.text(),
    {
        match self {
            DeriveError::Spanned { message, .. } => message.as_str().to_owned(),
            DeriveError::Syntax(error) => show_error(error),
        }
    }

    /// The error that the compiler reports, at the place of the tokens.
    pub fn into_error(self) -> (error: syn::Error)
        ensures
            error_text(error) == self@.text(),
            self matches DeriveError::Syntax(inner) ==> error == inner,
    {
        match self {
            DeriveError::Spanned { tokens, message } => error_at(tokens, message.as_str()),
            DeriveError::Syntax(error) => error,
        }
    }
}

/// How the standard library shows a text for debugging.
pub uninterp spec fn debug_text(text: Seq<char>) -> Seq<char>;

/// That a text consists of letters, digits and underscores of ASCII.
pub open spec fn is_plain(text: Seq<char>) -> bool {
    forall|i: int| 0 <= i < text.len() ==> is_word_char(#[trigger] text[i])
}

/// A text in double quotes. A text that is not plain is escaped as the standard library does it.
pub open spec fn quoted(text: Seq<char>) -> Seq<char> {
    if is_plain(text) {
        seq!['"'] + text + seq!['"']
    } else {
        debug_text(text)
    }
}

/// Shows a text with the formatting `{:?}` of the standard library: in double quotes, with the
/// characters escaped that need it. Letters, digits and underscores of ASCII need no escape.
#[verifier::external_body]
pub(crate) fn show_debug(text: &str) -> (shown: String)
    ensures
        shown@ == debug_text(text@),
        is_plain(text@) ==> shown@ == seq!['"'] + text@ + seq!['"'],
{
    format!("{:?}", text)
}

} // verus!
