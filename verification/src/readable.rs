//! Tokens that the parser of expressions takes without fail.
//!
//! The parser reports most tokens that are no expression as errors. On a few it stops the whole
//! macro instead: on a literal of a kind that it does not know, on a binary or octal literal with a
//! digit that is too large, and on a type such as `for<'a> dyn 'b + Trait`. Tokens without any of
//! these are readable.
use vstd::prelude::*;

use crate::text::same_text;
use crate::token::{
    all_read, is_decimal_text, is_string_text, tokens, trees_of, Delim, Tok, Tree,
};
use proc_macro2::TokenStream;

verus! {

// Literals.

/// That a numeric literal is taken for one of floating point.
pub open spec fn is_float_text(text: Seq<char>) -> bool {
    let n = text.len() as int;
    let hex = n >= 2 && text[0] == '0' && text[1] == 'x';
    let size = n >= 4 && text[n - 4] == 's' && text[n - 3] == 'i' && text[n - 2] == 'z' && text[n
        - 1] == 'e';
    text.contains('.') || (!hex && !size && (text.contains('e') || text.contains('E')))
}

/// That the digits of an integer are digits of its base, up to where they exceed what fits in 64
/// bits. The value is that of the digits in front of them.
pub open spec fn digits_fit(text: Seq<char>, base: nat, value: nat) -> bool
    decreases text.len(),
{
    if text.len() == 0 {
        true
    } else if text[0] == '_' {
        digits_fit(text.skip(1), base, value)
    } else if '0' <= text[0] <= '9' {
        let digit = (text[0] as u32 - '0' as u32) as nat;
        digit < base && (value * base + digit > u64::MAX || digits_fit(
            text.skip(1),
            base,
            value * base + digit,
        ))
    } else {
        true
    }
}

/// That a numeric literal can be read.
pub open spec fn number_is_read(text: Seq<char>) -> bool {
    if is_float_text(text) || text.len() < 2 || text[0] != '0' {
        true
    } else if text[1] == 'b' {
        digits_fit(text.skip(2), 2, 0)
    } else if text[1] == 'o' {
        digits_fit(text.skip(2), 8, 0)
    } else {
        true
    }
}

/// That a literal can be read: a string, a character, a byte or several, or a number.
pub open spec fn literal_is_read(text: Seq<char>) -> bool {
    if text.len() == 0 {
        false
    } else if text[0] == '"' || text[0] == 'r' || text[0] == '\'' {
        true
    } else if text[0] == 'b' {
        text.len() > 1 && (text[1] == '"' || text[1] == 'r' || text[1] == '\'')
    } else if '0' <= text[0] <= '9' {
        number_is_read(text)
    } else {
        text == "true"@ || text == "false"@
    }
}

/// That all literals can be read, those in groups too.
pub open spec fn literals_are_read(toks: Seq<Tok>) -> bool
    decreases toks,
{
    forall|i: int|
        0 <= i < toks.len() ==> (match #[trigger] toks[i] {
            Tok::Literal(text) => literal_is_read(text),
            Tok::Group(_, inner) => literals_are_read(inner),
            _ => true,
        })
}

/// Whether a text holds a character.
fn holds(text: &str, c: char) -> (yes: bool)
    ensures
        yes == text@.contains(c),
{
    let len = text.unicode_len();
    let mut i: usize = 0;
    while i < len
        invariant
            i <= len,
            len == text@.len(),
            forall|j: int| 0 <= j < i ==> #[trigger] text@[j] != c,
        decreases len - i,
    {
        if text.get_char(i) == c {
            assert(text@[i as int] == c);
            return true;
        }
        i = i + 1;
    }
    false
}

/// Whether a numeric literal is taken for one of floating point.
fn check_float(text: &str) -> (yes: bool)
    ensures
        yes == is_float_text(text@),
{
    let n = text.unicode_len();
    let hex = n >= 2 && text.get_char(0) == '0' && text.get_char(1) == 'x';
    let size = n >= 4 && text.get_char(n - 4) == 's' && text.get_char(n - 3) == 'i'
        && text.get_char(n - 2) == 'z' && text.get_char(n - 1) == 'e';
    holds(text, '.') || (!hex && !size && (holds(text, 'e') || holds(text, 'E')))
}

/// Whether the digits behind the prefix of an integer are digits of its base.
fn check_digits(text: &str, base: u64) -> (yes: bool)
    requires
        text@.len() >= 2,
        2 <= base <= 8,
    ensures
        yes == digits_fit(text@.skip(2), base as nat, 0),
{
    let len = text.unicode_len();
    let mut i: usize = 2;
    let mut value: u64 = 0;
    while i < len
        invariant
            2 <= i <= len,
            len == text@.len(),
            2 <= base <= 8,
            digits_fit(text@.skip(i as int), base as nat, value as nat) == digits_fit(
                text@.skip(2),
                base as nat,
                0,
            ),
        decreases len - i,
    {
        let c = text.get_char(i);
        assert(text@.skip(i as int)[0] == c);
        assert(text@.skip(i as int).skip(1) =~= text@.skip(i + 1));
        if c != '_' {
            if !('0' <= c && c <= '9') {
                return true;
            }
            let digit: u64 = (c as u32 - '0' as u32) as u64;
            if digit >= base {
                return false;
            }
            match value.checked_mul(base) {
                Some(product) => match product.checked_add(digit) {
                    Some(sum) => {
                        value = sum;
                    },
                    None => {
                        return true;
                    },
                },
                None => {
                    return true;
                },
            }
        }
        i = i + 1;
    }
    true
}

/// Whether a literal can be read.
pub fn check_literal(text: &str) -> (yes: bool)
    ensures
        yes == literal_is_read(text@),
{
    let len = text.unicode_len();
    if len == 0 {
        return false;
    }
    let first = text.get_char(0);
    if first == '"' || first == 'r' || first == '\'' {
        true
    } else if first == 'b' {
        len > 1 && {
            let second = text.get_char(1);
            second == '"' || second == 'r' || second == '\''
        }
    } else if '0' <= first && first <= '9' {
        if check_float(text) || len < 2 || first != '0' {
            true
        } else {
            let second = text.get_char(1);
            if second == 'b' {
                check_digits(text, 2)
            } else if second == 'o' {
                check_digits(text, 8)
            } else {
                true
            }
        }
    } else {
        same_text(text, "true") || same_text(text, "false")
    }
}

/// A string literal and an integer in plain decimal notation can be read.
proof fn lemma_plain_literal(text: Seq<char>)
    requires
        is_string_text(text) || is_decimal_text(text),
    ensures
        literal_is_read(text),
{
    if is_decimal_text(text) {
        assert('0' <= text[0] <= '9');
        if text.len() > 1 {
            assert('0' <= text[1] <= '9');
        }
    }
}

/// Whether all literals of a token stream can be read, those in groups too.
pub fn check_literals(stream: &TokenStream) -> (yes: bool)
    ensures
        yes == literals_are_read(tokens(*stream)),
    decreases tokens(*stream),
{
    let ghost toks = tokens(*stream);
    let trees = trees_of(stream);
    let mut i: usize = 0;
    while i < trees.len()
        invariant
            i <= trees@.len(),
            toks == tokens(*stream),
            all_read(trees@, toks),
            forall|j: int|
                0 <= j < i ==> (match #[trigger] toks[j] {
                    Tok::Literal(text) => literal_is_read(text),
                    Tok::Group(_, inner) => literals_are_read(inner),
                    _ => true,
                }),
        decreases trees@.len() - i,
    {
        assert(trees@[i as int].reads(toks[i as int]));
        let read = match &trees[i] {
            Tree::Literal(text) => {
                proof {
                    if !(toks[i as int] is Literal) {
                        lemma_plain_literal(text@);
                    }
                }
                check_literal(text.as_str())
            },
            Tree::Group(_, inner) => {
                assert(decreases_to!(toks => toks[i as int]));
                check_literals(inner)
            },
            _ => true,
        };
        if !read {
            return false;
        }
        i = i + 1;
    }
    true
}

// Types.

/// The tokens as they are parsed: groups without a visible delimiter count as what is in them.
pub open spec fn visible(toks: Seq<Tok>) -> Seq<Tok>
    decreases toks,
{
    if toks.len() == 0 {
        seq![]
    } else {
        visible(toks.drop_last()) + (match toks.last() {
            Tok::Group(Delim::Hidden, inner) => visible(inner),
            token => seq![token],
        })
    }
}

/// That a token is an angle bracket.
pub open spec fn is_angle(token: Tok) -> bool {
    token matches Tok::Punct(c, _) && (c == '<' || c == '>')
}

/// That a token is the given punctuation character.
pub open spec fn is_mark(token: Tok, mark: char) -> bool {
    token matches Tok::Punct(c, _) && c == mark
}

/// That a trait object that starts with a lifetime is bound by a `for` at the given place:
/// `for<...> dyn 'a`, where the closing bracket stands at the other place.
pub open spec fn binds_lifetime_at(toks: Seq<Tok>, start: int, end: int) -> bool {
    &&& 0 <= start
    &&& start + 2 <= end
    &&& end + 3 < toks.len()
    &&& toks[start] == Tok::Ident("for"@)
    &&& is_mark(toks[start + 1], '<')
    &&& forall|i: int| start + 2 <= i < end ==> !is_angle(#[trigger] toks[i])
    &&& is_mark(toks[end], '>')
    &&& toks[end + 1] == Tok::Ident("dyn"@)
    &&& toks[end + 2] == Tok::Punct('\'', true)
    &&& toks[end + 3] is Ident
}

/// That no trait object that starts with a lifetime is bound by a `for`, not in a group either.
pub open spec fn types_are_read(toks: Seq<Tok>) -> bool
    decreases toks,
{
    &&& forall|start: int, end: int| !#[trigger] binds_lifetime_at(visible(toks), start, end)
    &&& forall|i: int|
        0 <= i < toks.len() ==> (match #[trigger] toks[i] {
            Tok::Group(_, inner) => types_are_read(inner),
            _ => true,
        })
}

/// The tokens of a stream as they are parsed.
fn visible_trees(stream: &TokenStream) -> (visible_trees: Vec<Tree>)
    ensures
        all_read(visible_trees@, visible(tokens(*stream))),
    decreases tokens(*stream),
{
    let ghost toks = tokens(*stream);
    let mut rest = trees_of(stream);
    let ghost trees = rest@;
    let mut result: Vec<Tree> = Vec::new();
    let ghost mut i: int = 0;
    while rest.len() > 0
        invariant
            0 <= i <= trees.len(),
            toks == tokens(*stream),
            all_read(trees, toks),
            rest@ == trees.skip(i),
            all_read(result@, visible(toks.take(i))),
        decreases rest.len(),
    {
        let tree = rest.remove(0);
        proof {
            assert(tree == trees[i]);
            assert(tree.reads(toks[i]));
            assert(toks.take(i + 1).drop_last() =~= toks.take(i));
            assert(toks.take(i + 1).last() == toks[i]);
            assert(decreases_to!(toks => toks[i]));
            assert(rest@ =~= trees.skip(i + 1));
            i = i + 1;
        }
        match tree {
            Tree::Group(Delim::Hidden, inner) => {
                let mut inner_trees = visible_trees(&inner);
                result.append(&mut inner_trees);
            },
            tree => {
                result.push(tree);
            },
        }
    }
    assert(toks.take(i) =~= toks);
    result
}

/// Whether a tree is the given identifier.
fn is_word_tree(tree: &Tree, word: &str) -> (yes: bool)
    ensures
        forall|token: Tok| #[trigger] tree.reads(token) ==> yes == (token == Tok::Ident(word@)),
{
    match tree {
        Tree::Ident(text) => same_text(text.as_str(), word),
        _ => false,
    }
}

/// Whether a tree is the given punctuation character.
fn is_mark_tree(tree: &Tree, mark: char) -> (yes: bool)
    ensures
        forall|token: Tok| #[trigger] tree.reads(token) ==> yes == is_mark(token, mark),
{
    match tree {
        Tree::Punct(c, _) => *c == mark,
        _ => false,
    }
}

/// Whether a trait object that starts with a lifetime is bound by the `for` at the given place.
fn check_binder(trees: &Vec<Tree>, start: usize, Ghost(toks): Ghost<Seq<Tok>>) -> (yes: bool)
    requires
        all_read(trees@, toks),
        start < trees@.len(),
    ensures
        yes == (exists|end: int| #[trigger] binds_lifetime_at(toks, start as int, end)),
{
    let len = trees.len();
    if len - start < 6 || !is_word_tree(&trees[start], "for") || !is_mark_tree(
        &trees[start + 1],
        '<',
    ) {
        assert(trees@[start as int].reads(toks[start as int]));
        assert(len - start >= 6 ==> trees@[start + 1].reads(toks[start + 1]));
        return false;
    }
    let mut end: usize = start + 2;
    while end < len && !is_mark_tree(&trees[end], '<') && !is_mark_tree(&trees[end], '>')
        invariant
            start + 2 <= end <= len,
            len == trees@.len(),
            all_read(trees@, toks),
            forall|i: int| start + 2 <= i < end ==> !is_angle(#[trigger] toks[i]),
        ensures
            end < len ==> is_angle(toks[end as int]),
        decreases len - end,
    {
        assert(trees@[end as int].reads(toks[end as int]));
        end = end + 1;
    }
    proof {
        assert(trees@[start as int].reads(toks[start as int]));
        assert(trees@[start + 1].reads(toks[start + 1]));
        assert forall|other: int| #[trigger]
            binds_lifetime_at(toks, start as int, other) implies other == end by {
            if other < end {
                assert(!is_angle(toks[other]));
            } else if other > end {
                assert(!is_angle(toks[end as int]));
            }
        }
    }
    if len - end < 4 {
        return false;
    }
    assert(trees@[end as int].reads(toks[end as int]));
    assert(trees@[end + 1].reads(toks[end + 1]));
    assert(trees@[end + 2].reads(toks[end + 2]));
    assert(trees@[end + 3].reads(toks[end + 3]));
    let lifetime = match &trees[end + 2] {
        Tree::Punct(c, joint) => *c == '\'' && *joint,
        _ => false,
    };
    let named = match &trees[end + 3] {
        Tree::Ident(_) => true,
        _ => false,
    };
    let yes = is_mark_tree(&trees[end], '>') && is_word_tree(&trees[end + 1], "dyn") && lifetime
        && named;
    assert(yes == binds_lifetime_at(toks, start as int, end as int));
    yes
}

/// Whether no trait object that starts with a lifetime is bound by a `for`, not in a group either.
pub fn check_types(stream: &TokenStream) -> (yes: bool)
    ensures
        yes == types_are_read(tokens(*stream)),
    decreases tokens(*stream),
{
    let ghost toks = tokens(*stream);
    let ghost flat = visible(toks);
    let visible_trees = visible_trees(stream);
    let mut start: usize = 0;
    while start < visible_trees.len()
        invariant
            start <= visible_trees@.len(),
            all_read(visible_trees@, flat),
            toks == tokens(*stream),
            flat == visible(toks),
            forall|i: int, end: int| i < start ==> !#[trigger] binds_lifetime_at(flat, i, end),
        decreases visible_trees@.len() - start,
    {
        if check_binder(&visible_trees, start, Ghost(flat)) {
            return false;
        }
        start = start + 1;
    }
    let trees = trees_of(stream);
    let mut i: usize = 0;
    while i < trees.len()
        invariant
            i <= trees@.len(),
            toks == tokens(*stream),
            all_read(trees@, toks),
            forall|j: int|
                0 <= j < i ==> (match #[trigger] toks[j] {
                    Tok::Group(_, inner) => types_are_read(inner),
                    _ => true,
                }),
        decreases trees@.len() - i,
    {
        assert(trees@[i as int].reads(toks[i as int]));
        let read = match &trees[i] {
            Tree::Group(_, inner) => {
                assert(decreases_to!(toks => toks[i as int]));
                check_types(inner)
            },
            _ => true,
        };
        if !read {
            return false;
        }
        i = i + 1;
    }
    true
}

/// That the parser of expressions takes tokens without fail.
pub open spec fn is_readable(toks: Seq<Tok>) -> bool {
    literals_are_read(toks) && types_are_read(toks)
}

/// Whether the parser of expressions takes the tokens of a stream without fail.
pub fn check_readable(stream: &TokenStream) -> (yes: bool)
    ensures
        yes == is_readable(tokens(*stream)),
{
    check_literals(stream) && check_types(stream)
}

} // verus!
