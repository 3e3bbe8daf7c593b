//! Identifiers.
use vstd::prelude::*;

use crate::token::{
    is_ascii_text, push_ident, single_ident, single_ident_text, tokens, word,
};
use proc_macro2::TokenStream;

verus! {

/// What `unicode_xid` says of a character that may start an identifier.
pub uninterp spec fn xid_start(c: char) -> bool;

/// What `unicode_xid` says of a character that may continue an identifier.
pub uninterp spec fn xid_continue(c: char) -> bool;

/// `UnicodeXID::is_xid_start`, the table that decides beyond ASCII.
#[verifier::external_body]
fn is_xid_start(c: char) -> (yes: bool)
    ensures
        yes == xid_start(c),
{
    unicode_xid::UnicodeXID::is_xid_start(c)
}

/// `UnicodeXID::is_xid_continue`, the table that decides beyond ASCII.
#[verifier::external_body]
fn is_xid_continue(c: char) -> (yes: bool)
    ensures
        yes == xid_continue(c),
{
    unicode_xid::UnicodeXID::is_xid_continue(c)
}

/// An ASCII letter or an underscore.
pub open spec fn is_word_start(c: char) -> bool {
    ('a' <= c && c <= 'z') || ('A' <= c && c <= 'Z') || c == '_'
}

/// An ASCII letter, a digit or an underscore.
pub open spec fn is_word_char(c: char) -> bool {
    is_word_start(c) || ('0' <= c && c <= '9')
}

/// A character that may start an identifier.
pub open spec fn is_ident_start(c: char) -> bool {
    is_word_start(c) || (c > '\x7f' && xid_start(c))
}

/// A character that may stand in an identifier behind the first.
pub open spec fn is_ident_continue(c: char) -> bool {
    is_word_char(c) || (c > '\x7f' && xid_continue(c))
}

/// The text of an identifier or a keyword that is not a raw one.
pub open spec fn is_ident(text: Seq<char>) -> bool {
    &&& text.len() > 0
    &&& is_ident_start(text[0])
    &&& forall|i: int| 0 < i < text.len() ==> is_ident_continue(#[trigger] text[i])
}

/// Whether a character is an ASCII letter or an underscore.
pub fn starts_word(c: char) -> (yes: bool)
    ensures
        yes == is_word_start(c),
{
    ('a' <= c && c <= 'z') || ('A' <= c && c <= 'Z') || c == '_'
}

/// Whether a character is an ASCII letter, a digit or an underscore.
pub fn continues_word(c: char) -> (yes: bool)
    ensures
        yes == is_word_char(c),
{
    starts_word(c) || ('0' <= c && c <= '9')
}

/// Whether a text is that of an identifier.
pub fn check_ident(text: &str) -> (yes: bool)
    ensures
        yes == is_ident(text@),
{
    let len = text.unicode_len();
    if len == 0 {
        return false;
    }
    let first = text.get_char(0);
    if !(starts_word(first) || (first > '\x7f' && is_xid_start(first))) {
        return false;
    }
    let mut i: usize = 1;
    while i < len
        invariant
            1 <= i <= len,
            len == text@.len(),
            forall|j: int| 0 < j < i ==> is_ident_continue(#[trigger] text@[j]),
        decreases len - i,
    {
        let c = text.get_char(i);
        if !(continues_word(c) || (c > '\x7f' && is_xid_continue(c))) {
            return false;
        }
        i = i + 1;
    }
    true
}

/// That an identifier that was made of a text is written as the text: the compiler may bring a text
/// that is not of ASCII into its normal form.
pub open spec fn is_spelled(written: Seq<char>, text: Seq<char>) -> bool {
    is_ascii_text(text) ==> written == text
}

/// An identifier, with its place in the source. Its view is its text.
#[derive(Debug)]
pub struct Ident {
    text: String,
    stream: TokenStream,
}

impl View for Ident {
    type V = Seq<char>;

    closed spec fn view(&self) -> Seq<char> {
        self.text@
    }
}

impl Ident {
    #[verifier::type_invariant]
    spec fn wf(self) -> bool {
        tokens(self.stream) == word(self.text@)
    }

    /// An identifier with the given text, placed where the macro is called.
    pub fn new(text: &str) -> (ident: Ident)
        requires
            is_ident(text@),
        ensures
            is_spelled(ident@, text@),
    {
        let mut stream = TokenStream::new();
        push_ident(&mut stream, text);
        Self::from_stream(stream).unwrap()
    }

    /// The identifier that a token stream consists of.
    pub fn from_stream(stream: TokenStream) -> (ident: Option<Ident>)
        ensures
            match ident {
                Some(ident) => single_ident(tokens(stream)) == Some(ident@),
                None => single_ident(tokens(stream)) is None,
            },
    {
        match single_ident_text(&stream) {
            Some(text) => {
                assert(tokens(stream) =~= word(text@));
                Some(Ident { text, stream })
            },
            None => None,
        }
    }

    /// The text of the identifier.
    pub fn text(&self) -> (text: &str)
        ensures
            text@ == self@,
    {
        self.text.as_str()
    }

    /// The identifier as a token stream.
    pub fn stream(&self) -> (stream: &TokenStream)
        ensures
            tokens(*stream) == word(self@),
    {
        proof {
            use_type_invariant(self);
        }
        &self.stream
    }
}

} // verus!
