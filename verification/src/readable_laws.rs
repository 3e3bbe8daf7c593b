//! Which tokens are readable.
use vstd::prelude::*;

use crate::expr::{
    args_are_readable, expr_is_readable, expr_shape, listed_arguments, Shape,
};
use crate::readable::{
    digits_fit, is_readable, literal_is_read, literals_are_read, types_are_read, visible,
};
use crate::token::Tok;

verus! {

/// Strings, characters and bytes can be read, and so can a number that does not start with `0`, the
/// number `0` itself, one in hexadecimal notation, and one in binary or octal notation whose digits
/// are digits of its base. What starts with a sign or with the `c` of a C string cannot.
pub proof fn law_literals(text: Seq<char>)
    requires
        text.len() > 0,
    ensures
        text[0] == '"' || text[0] == 'r' || text[0] == '\'' ==> literal_is_read(text),
        text.len() > 1 && text[0] == 'b' && (text[1] == '"' || text[1] == 'r' || text[1] == '\'')
            ==> literal_is_read(text),
        '1' <= text[0] <= '9' ==> literal_is_read(text),
        text[0] == '0' && (text.len() == 1 || (text[1] != 'b' && text[1] != 'o'))
            ==> literal_is_read(text),
        text.len() > 1 && text[0] == '0' && text[1] == 'b' && (forall|i: int|
            2 <= i < text.len() ==> #[trigger] text[i] == '0' || text[i] == '1' || text[i] == '_')
            ==> literal_is_read(text),
        text.len() > 1 && text[0] == '0' && text[1] == 'o' && (forall|i: int|
            2 <= i < text.len() ==> '0' <= #[trigger] text[i] <= '7' || text[i] == '_')
            ==> literal_is_read(text),
        text[0] == '-' || text[0] == 'c' || text[0] == '/' ==> !literal_is_read(text),
{
    if text.len() > 1 && text[0] == '0' {
        let digits = text.skip(2);
        if text[1] == 'b' && (forall|i: int|
            2 <= i < text.len() ==> #[trigger] text[i] == '0' || text[i] == '1' || text[i] == '_') {
            assert forall|i: int| 0 <= i < digits.len() implies '0' <= #[trigger] digits[i] < '2'
                || digits[i] == '_' by {
                assert(digits[i] == text[i + 2]);
            }
            lemma_digits_fit(digits, 2, 0);
        }
        if text[1] == 'o' && (forall|i: int|
            2 <= i < text.len() ==> '0' <= #[trigger] text[i] <= '7' || text[i] == '_') {
            assert forall|i: int| 0 <= i < digits.len() implies '0' <= #[trigger] digits[i] < '8'
                || digits[i] == '_' by {
                assert(digits[i] == text[i + 2]);
            }
            lemma_digits_fit(digits, 8, 0);
        }
    }
    if text[0] == '-' || text[0] == 'c' || text[0] == '/' {
        reveal_strlit("true");
        reveal_strlit("false");
        assert("true"@[0] == 't');
        assert("false"@[0] == 'f');
    }
}

proof fn lemma_digits_fit(digits: Seq<char>, base: nat, value: nat)
    requires
        base == 2 || base == 8,
        forall|i: int|
            0 <= i < digits.len() ==> '0' <= #[trigger] digits[i] && (digits[i] as u32) < '0' as u32
                + base || digits[i] == '_',
    ensures
        digits_fit(digits, base, value),
    decreases digits.len(),
{
    if digits.len() > 0 {
        let rest = digits.skip(1);
        assert forall|i: int| 0 <= i < rest.len() implies '0' <= #[trigger] rest[i] && (
        rest[i] as u32) < '0' as u32 + base || rest[i] == '_' by {
            assert(rest[i] == digits[i + 1]);
        }
        assert('0' <= digits[0] && (digits[0] as u32) < '0' as u32 + base || digits[0] == '_');
        if digits[0] == '_' {
            lemma_digits_fit(rest, base, value);
        } else {
            lemma_digits_fit(rest, base, value * base + (digits[0] as u32 - '0' as u32) as nat);
        }
    }
}

/// A digit that is not one of the base makes a number in binary or octal notation unreadable, where
/// no digit stands in front of it.
pub proof fn law_large_digits(digits: Seq<char>)
    requires
        digits.len() > 0,
        '0' <= digits[0] <= '9',
    ensures
        digits[0] >= '2' ==> !digits_fit(digits, 2, 0),
        digits[0] >= '8' ==> !digits_fit(digits, 8, 0),
{
}

/// The literals of tokens can be read where those of each part of them can. Words, marks, plain
/// strings and plain integers hold none; a group holds those inside.
pub proof fn law_literals_of_parts(first: Seq<Tok>, last: Seq<Tok>, token: Tok)
    ensures
        literals_are_read(first + last) <==> literals_are_read(first) && literals_are_read(last),
        literals_are_read(seq![]),
        literals_are_read(seq![token]) == (match token {
            Tok::Literal(text) => literal_is_read(text),
            Tok::Group(_, inner) => literals_are_read(inner),
            _ => true,
        }),
{
    let whole = first + last;
    if literals_are_read(whole) {
        assert forall|i: int| 0 <= i < first.len() implies (match #[trigger] first[i] {
            Tok::Literal(text) => literal_is_read(text),
            Tok::Group(_, inner) => literals_are_read(inner),
            _ => true,
        }) by {
            assert(whole[i] == first[i]);
        }
        assert forall|i: int| 0 <= i < last.len() implies (match #[trigger] last[i] {
            Tok::Literal(text) => literal_is_read(text),
            Tok::Group(_, inner) => literals_are_read(inner),
            _ => true,
        }) by {
            assert(whole[first.len() + i] == last[i]);
        }
    }
    if literals_are_read(first) && literals_are_read(last) {
        assert forall|i: int| 0 <= i < whole.len() implies (match #[trigger] whole[i] {
            Tok::Literal(text) => literal_is_read(text),
            Tok::Group(_, inner) => literals_are_read(inner),
            _ => true,
        }) by {
            if i < first.len() {
                assert(whole[i] == first[i]);
            } else {
                assert(whole[i] == last[i - first.len()]);
            }
        }
    }
    assert(seq![token][0] == token);
}

proof fn lemma_visible_without_groups(toks: Seq<Tok>)
    requires
        forall|i: int| 0 <= i < toks.len() ==> !((#[trigger] toks[i]) is Group && toks[i]->Group_0
            is Hidden),
    ensures
        visible(toks) == toks,
    decreases toks.len(),
{
    if toks.len() > 0 {
        let front = toks.drop_last();
        assert forall|i: int| 0 <= i < front.len() implies !((#[trigger] front[i]) is Group
            && front[i]->Group_0 is Hidden) by {
            assert(front[i] == toks[i]);
        }
        lemma_visible_without_groups(front);
        assert(!(toks[toks.len() - 1] is Group && toks[toks.len() - 1]->Group_0 is Hidden));
        assert(toks =~= front + seq![toks.last()]);
    } else {
        assert(visible(toks) =~= toks);
    }
}

/// Tokens hold no type that cannot be read where `dyn` is not among them and what is in their
/// groups holds none, where all groups are delimited.
pub proof fn law_types_without_dyn(toks: Seq<Tok>)
    requires
        forall|i: int|
            0 <= i < toks.len() ==> #[trigger] toks[i] != Tok::Ident("dyn"@) && (match toks[i] {
                Tok::Group(delim, inner) => !(delim is Hidden) && types_are_read(inner),
                _ => true,
            }),
    ensures
        types_are_read(toks),
{
    lemma_visible_without_groups(toks);
}

/// What `for` binds in front of a trait object that starts with a lifetime cannot be read.
pub proof fn law_bound_trait_object(before: Seq<Tok>, lifetime: Seq<char>, after: Seq<Tok>)
    requires
        forall|i: int| 0 <= i < before.len() ==> !((#[trigger] before[i]) is Group),
        forall|i: int| 0 <= i < after.len() ==> !((#[trigger] after[i]) is Group),
    ensures
        !types_are_read(
            before + seq![
                Tok::Ident("for"@),
                Tok::Punct('<', false),
                Tok::Punct('>', false),
                Tok::Ident("dyn"@),
                Tok::Punct('\'', true),
                Tok::Ident(lifetime),
            ] + after,
        ),
{
    let toks = before + seq![
        Tok::Ident("for"@),
        Tok::Punct('<', false),
        Tok::Punct('>', false),
        Tok::Ident("dyn"@),
        Tok::Punct('\'', true),
        Tok::Ident(lifetime),
    ] + after;
    let n = before.len() as int;
    assert forall|i: int| 0 <= i < toks.len() implies !((#[trigger] toks[i]) is Group
        && toks[i]->Group_0 is Hidden) by {
        if i < n {
            assert(toks[i] == before[i]);
        } else if i >= n + 6 {
            assert(toks[i] == after[i - n - 6]);
        }
    }
    lemma_visible_without_groups(toks);
    assert(crate::readable::binds_lifetime_at(visible(toks), n, n + 2));
}

/// Tokens are readable where their literals and their types can be read. An argument is readable
/// where its tokens are, and those of the left side of an assignment; arguments are where the tokens
/// around them are, and each of them.
pub proof fn law_readable_parts(toks: Seq<Tok>)
    ensures
        is_readable(toks) <==> literals_are_read(toks) && types_are_read(toks),
        is_readable(toks) && !(expr_shape(toks) is Ok && expr_shape(toks)->Ok_0 is Assign)
            ==> expr_is_readable(toks),
        is_readable(toks) ==> (expr_shape(toks) matches Ok(Shape::Assign(left, _))
            ==> expr_is_readable(toks) == is_readable(left)),
        is_readable(toks) ==> (expr_shape(toks) matches Ok(Shape::Paren(inner))
            ==> args_are_readable(toks) == expr_is_readable(inner)),
        is_readable(toks) ==> (expr_shape(toks) matches Ok(Shape::Tuple(elements))
            ==> args_are_readable(toks) == (forall|i: int|
            0 <= i < elements.len() ==> expr_is_readable(#[trigger] elements[i]))),
        is_readable(toks) && !(expr_shape(toks) is Ok && (expr_shape(toks)->Ok_0 is Paren
            || expr_shape(toks)->Ok_0 is Tuple)) ==> args_are_readable(toks),
{
    if let Ok(shape) = expr_shape(toks) {
        if let Some(lists) = listed_arguments(shape) {
            if is_readable(toks) {
                assert(args_are_readable(toks) == (forall|i: int|
                    0 <= i < lists.len() ==> expr_is_readable(#[trigger] lists[i])));
            }
            if shape is Paren {
                assert(lists[0] == shape->Paren_0);
            }
        }
    }
}

} // verus!
