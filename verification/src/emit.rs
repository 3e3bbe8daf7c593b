//! Appending code to a token stream.
//!
//! Each function here appends one piece; what it appends is a spec function of the same meaning,
//! so that generated code is stated as the concatenation of its pieces.
use vstd::prelude::*;

use crate::ident::{continues_word, is_ident, is_word_char, is_word_start, starts_word, Ident};
use crate::token::{
    group, is_punct, punct, push_group, push_ident, push_punct, push_string, push_tokens, string,
    token_lists, tokens, word, Delim, Tok,
};
use proc_macro2::TokenStream;

verus! {

/// The number of word characters that a text starts with.
pub open spec fn word_len(text: Seq<char>) -> nat
    decreases text.len(),
{
    if text.len() > 0 && is_word_char(text[0]) {
        1 + word_len(text.skip(1))
    } else {
        0
    }
}

/// The tokens of a piece of code without literals and groups: words and punctuation, where a
/// punctuation character is joined to another one that directly follows it. Every other character
/// only separates tokens.
pub open spec fn code(text: Seq<char>) -> Seq<Tok>
    decreases text.len(),
{
    if text.len() == 0 {
        seq![]
    } else if is_word_start(text[0]) {
        let n = word_len(text.skip(1)) + 1;
        proof {
            lemma_word_len(text.skip(1));
        }
        word(text.take(n as int)) + code(text.skip(n as int))
    } else if is_punct(text[0]) {
        punct(text[0], text.len() > 1 && is_punct(text[1])) + code(text.skip(1))
    } else {
        code(text.skip(1))
    }
}

/// A single comma.
pub open spec fn comma() -> Seq<Tok> {
    punct(',', false)
}

/// Pieces of code with a comma between each two of them.
pub open spec fn comma_separated(parts: Seq<Seq<Tok>>) -> Seq<Tok>
    decreases parts.len(),
{
    if parts.len() == 0 {
        seq![]
    } else if parts.len() == 1 {
        parts[0]
    } else {
        comma_separated(parts.drop_last()) + comma() + parts.last()
    }
}

/// Pieces of code one behind the other.
pub open spec fn concatenated(parts: Seq<Seq<Tok>>) -> Seq<Tok>
    decreases parts.len(),
{
    if parts.len() == 0 {
        seq![]
    } else {
        concatenated(parts.drop_last()) + parts.last()
    }
}

/// A text starts with no more word characters than it has characters.
pub proof fn lemma_word_len(text: Seq<char>)
    ensures
        word_len(text) <= text.len(),
    decreases text.len(),
{
    if text.len() > 0 && is_word_char(text[0]) {
        lemma_word_len(text.skip(1));
    }
}

pub proof fn lemma_word_len_is(text: Seq<char>, n: nat)
    requires
        n <= text.len(),
        forall|i: int| 0 <= i < n ==> is_word_char(#[trigger] text[i]),
        n < text.len() ==> !is_word_char(text[n as int]),
    ensures
        word_len(text) == n,
    decreases text.len(),
{
    if n > 0 {
        assert(is_word_char(text[0]));
        assert forall|i: int| 0 <= i < n - 1 implies is_word_char(#[trigger] text.skip(1)[i]) by {
            assert(text.skip(1)[i] == text[i + 1]);
        }
        lemma_word_len_is(text.skip(1), (n - 1) as nat);
    }
}

/// Whether a character is a punctuation character of the language.
pub fn check_punct(c: char) -> (yes: bool)
    ensures
        yes == is_punct(c),
{
    c == '=' || c == '<' || c == '>' || c == '!' || c == '~' || c == '+' || c == '-' || c == '*'
        || c == '/' || c == '%' || c == '^' || c == '&' || c == '|' || c == '@' || c == '.' || c
        == ',' || c == ';' || c == ':' || c == '#' || c == '$' || c == '?' || c == '\''
}

/// The end of the word that starts at a place in a text.
fn word_end(text: &str, start: usize, len: usize) -> (end: usize)
    requires
        start < len,
        len == text@.len(),
        is_word_start(text@[start as int]),
    ensures
        start < end <= len,
        end - start == word_len(text@.skip(start as int).skip(1)) + 1,
        is_ident(text@.subrange(start as int, end as int)),
        forall|i: int| start <= i < end ==> is_word_char(#[trigger] text@[i]),
{
    let mut end: usize = start + 1;
    while end < len && continues_word(text.get_char(end))
        invariant
            start < end <= len,
            len == text@.len(),
            forall|i: int| start < i < end ==> is_word_char(#[trigger] text@[i]),
        ensures
            end < len ==> !is_word_char(text@[end as int]),
        decreases len - end,
    {
        end = end + 1;
    }
    proof {
        let rest = text@.skip(start as int).skip(1);
        assert forall|i: int| 0 <= i < end - start - 1 implies is_word_char(#[trigger] rest[i]) by {
            assert(rest[i] == text@[start + 1 + i]);
        }
        if end < len {
            assert(rest[end - start - 1] == text@[end as int]);
        }
        lemma_word_len_is(rest, (end - start - 1) as nat);
    }
    end
}

/// Appends the words and the punctuation of a piece of code.
pub fn push_code(stream: &mut TokenStream, text: &str)
    ensures
        tokens(*final(stream)) == tokens(*old(stream)) + code(text@),
{
    let len = text.unicode_len();
    let mut i: usize = 0;
    assert(text@.skip(0) =~= text@);
    while i < len
        invariant
            i <= len,
            len == text@.len(),
            tokens(*stream) + code(text@.skip(i as int)) == tokens(*old(stream)) + code(text@),
        decreases len - i,
    {
        let c = text.get_char(i);
        let ghost rest = text@.skip(i as int);
        let ghost before = tokens(*stream);
        if starts_word(c) {
            let end = word_end(text, i, len);
            let part = text.substring_char(i, end);
            push_ident(stream, part);
            proof {
                assert forall|k: int| 0 <= k < part@.len() implies #[trigger] part@[k] <= '\x7f' by {
                    assert(is_word_char(text@[i + k]));
                }
                assert(tokens(*stream) =~= before + word(part@));
                let n = end - i;
                assert(rest.take(n) =~= part@);
                assert(rest.skip(n) =~= text@.skip(end as int));
                assert(code(rest) == word(part@) + code(text@.skip(end as int)));
                assert(tokens(*stream) + code(text@.skip(end as int)) =~= before + code(rest));
            }
            i = end;
        } else {
            assert(rest.skip(1) =~= text@.skip(i + 1));
            if check_punct(c) {
                let joint = i + 1 < len && check_punct(text.get_char(i + 1));
                push_punct(stream, c, joint);
                assert(tokens(*stream) + code(text@.skip(i + 1)) =~= before + code(rest));
            }
            i = i + 1;
        }
    }
    assert(text@.skip(len as int) =~= seq![]);
    assert(tokens(*stream) + code(text@.skip(len as int)) =~= tokens(*stream));
}

/// Appends an identifier.
pub fn push_word(stream: &mut TokenStream, ident: &Ident)
    ensures
        tokens(*final(stream)) == tokens(*old(stream)) + word(ident@),
{
    push_tokens(stream, ident.stream());
}

/// The words and the punctuation of a piece of code.
pub fn new_code(text: &str) -> (stream: TokenStream)
    ensures
        tokens(stream) == code(text@),
{
    let mut stream = TokenStream::new();
    push_code(&mut stream, text);
    assert(tokens(stream) =~= code(text@));
    stream
}

/// A string literal.
pub fn new_string(value: &str) -> (stream: TokenStream)
    ensures
        tokens(stream) == string(value@),
{
    let mut stream = TokenStream::new();
    push_string(&mut stream, value);
    assert(tokens(stream) =~= string(value@));
    stream
}

/// An attribute, by what stands in its brackets.
pub open spec fn attribute(inner: Seq<Tok>) -> Seq<Tok> {
    code("#"@) + group(Delim::Bracket, inner)
}

/// An attribute that documents an item.
pub open spec fn doc_attribute(value: Seq<Tok>) -> Seq<Tok> {
    attribute(code("doc ="@) + value)
}

/// An attribute with arguments that are words and punctuation.
pub open spec fn listing_attribute(name: Seq<char>, arguments: Seq<char>) -> Seq<Tok> {
    attribute(code(name) + group(Delim::Parenthesis, code(arguments)))
}

/// Makes an attribute.
pub fn new_attribute(inner: TokenStream) -> (stream: TokenStream)
    ensures
        tokens(stream) == attribute(tokens(inner)),
{
    let mut stream = new_code("#");
    push_group(&mut stream, Delim::Bracket, inner);
    stream
}

/// Makes an attribute that documents an item.
pub fn new_doc_attribute(value: &TokenStream) -> (stream: TokenStream)
    ensures
        tokens(stream) == doc_attribute(tokens(*value)),
{
    let mut inner = new_code("doc =");
    push_tokens(&mut inner, value);
    new_attribute(inner)
}

/// Makes an attribute with arguments that are words and punctuation.
pub fn new_listing_attribute(name: &str, arguments: &str) -> (stream: TokenStream)
    ensures
        tokens(stream) == listing_attribute(name@, arguments@),
{
    let mut inner = new_code(name);
    push_group(&mut inner, Delim::Parenthesis, new_code(arguments));
    new_attribute(inner)
}

/// Joins pieces of code with a comma between each two of them.
pub fn join_comma_separated(parts: &Vec<TokenStream>) -> (stream: TokenStream)
    ensures
        tokens(stream) == comma_separated(token_lists(parts@)),
{
    let ghost lists = token_lists(parts@);
    let mut stream = TokenStream::new();
    let mut i: usize = 0;
    while i < parts.len()
        invariant
            i <= parts@.len(),
            lists == token_lists(parts@),
            tokens(stream) == comma_separated(lists.take(i as int)),
        decreases parts@.len() - i,
    {
        let ghost before = tokens(stream);
        assert(lists.take(i + 1).drop_last() =~= lists.take(i as int));
        if i > 0 {
            push_punct(&mut stream, ',', false);
            assert(tokens(stream) =~= before + comma());
        }
        push_tokens(&mut stream, &parts[i]);
        if i == 0 {
            assert(tokens(stream) =~= lists[0]);
        }
        i = i + 1;
    }
    assert(lists.take(i as int) =~= lists);
    stream
}

/// Joins pieces of code one behind the other.
pub fn join_concatenated(parts: &Vec<TokenStream>) -> (stream: TokenStream)
    ensures
        tokens(stream) == concatenated(token_lists(parts@)),
{
    let ghost lists = token_lists(parts@);
    let mut stream = TokenStream::new();
    let mut i: usize = 0;
    while i < parts.len()
        invariant
            i <= parts@.len(),
            lists == token_lists(parts@),
            tokens(stream) == concatenated(lists.take(i as int)),
        decreases parts@.len() - i,
    {
        assert(lists.take(i + 1).drop_last() =~= lists.take(i as int));
        push_tokens(&mut stream, &parts[i]);
        i = i + 1;
    }
    assert(lists.take(i as int) =~= lists);
    stream
}

} // verus!
