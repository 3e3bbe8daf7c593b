//! The tokens of the words and marks that the generated code is made of.
//!
//! The laws say how code is read; each lemma behind them gives the tokens of one text.
use vstd::prelude::*;

use crate::emit::{code, lemma_word_len_is};
use crate::ident::{is_word_char, is_word_start};
use crate::token::{is_punct, Tok};

verus! {

proof fn lemma_start(text: Seq<char>)
    ensures
        code(text.skip(0)) == code(text),
{
    assert(text.skip(0) =~= text);
}

proof fn lemma_end(text: Seq<char>)
    ensures
        code(text.skip(text.len() as int)) == Seq::<Tok>::empty(),
{
}

/// A word that starts at a place of a text, and that no word character follows.
proof fn lemma_word(text: Seq<char>, at: int, letters: Seq<char>)
    requires
        0 <= at,
        0 < letters.len(),
        at + letters.len() <= text.len(),
        text.subrange(at, at + letters.len()) =~= letters,
        is_word_start(letters[0]),
        forall|i: int| 0 <= i < letters.len() ==> is_word_char(#[trigger] letters[i]),
        at + letters.len() < text.len() ==> !is_word_char(text[at + letters.len()]),
    ensures
        code(text.skip(at)) == seq![Tok::Ident(letters)] + code(text.skip(at + letters.len())),
{
    let rest = text.skip(at);
    let tail = rest.skip(1);
    let n = letters.len() as int;
    assert(rest[0] == text.subrange(at, at + n)[0]);
    assert forall|i: int| 0 <= i < n - 1 implies is_word_char(#[trigger] tail[i]) by {
        assert(tail[i] == text.subrange(at, at + n)[i + 1]);
    }
    if n - 1 < tail.len() {
        assert(tail[n - 1] == text[at + n]);
    }
    lemma_word_len_is(tail, (n - 1) as nat);
    assert(rest.take(n) =~= letters);
    assert(rest.skip(n) =~= text.skip(at + n));
}

/// A mark at a place of a text.
proof fn lemma_mark(text: Seq<char>, at: int)
    requires
        0 <= at < text.len(),
        is_punct(text[at]),
    ensures
        code(text.skip(at)) == seq![
            Tok::Punct(text[at], at + 1 < text.len() && is_punct(text[at + 1])),
        ] + code(text.skip(at + 1)),
{
    assert(text.skip(at).skip(1) =~= text.skip(at + 1));
}

/// A character at a place of a text that only separates tokens.
proof fn lemma_gap(text: Seq<char>, at: int)
    requires
        0 <= at < text.len(),
        !is_word_start(text[at]),
        !is_punct(text[at]),
    ensures
        code(text.skip(at)) == code(text.skip(at + 1)),
{
    assert(text.skip(at).skip(1) =~= text.skip(at + 1));
}

/// Code starts with a word where letters, digits and underscores do that no further one follows, and
/// the first of which is not a digit.
pub proof fn law_code_word(letters: Seq<char>, rest: Seq<char>)
    requires
        letters.len() > 0,
        !('0' <= letters[0] <= '9'),
        forall|i: int|
            0 <= i < letters.len() ==> 'a' <= #[trigger] letters[i] <= 'z' || 'A' <= letters[i]
                <= 'Z' || '0' <= letters[i] <= '9' || letters[i] == '_',
        rest.len() > 0 ==> !('a' <= rest[0] <= 'z' || 'A' <= rest[0] <= 'Z' || '0' <= rest[0] <= '9'
            || rest[0] == '_'),
    ensures
        code(letters + rest) == seq![Tok::Ident(letters)] + code(rest),
{
    let text = letters + rest;
    assert('a' <= letters[0] <= 'z' || 'A' <= letters[0] <= 'Z' || '0' <= letters[0] <= '9'
        || letters[0] == '_');
    assert(text.subrange(0, letters.len() as int) =~= letters);
    assert(text.skip(letters.len() as int) =~= rest);
    lemma_start(text);
    lemma_word(text, 0, letters);
}

/// Code starts with a mark where one of the punctuation characters does; it is joined to another that
/// directly follows.
pub proof fn law_code_mark(mark: char, rest: Seq<char>)
    requires
        "=<>!~+-*/%^&|@.,;:#$?'"@.contains(mark),
    ensures
        code(seq![mark] + rest) == seq![
            Tok::Punct(mark, rest.len() > 0 && "=<>!~+-*/%^&|@.,;:#$?'"@.contains(rest[0])),
        ] + code(rest),
{
    lemma_marks(mark);
    let text = seq![mark] + rest;
    if rest.len() > 0 {
        lemma_marks(rest[0]);
        assert(text[1] == rest[0]);
    }
    assert(text.skip(1) =~= rest);
    lemma_start(text);
    lemma_mark(text, 0);
}

/// Spaces, line breaks and the like separate tokens, and code without characters has none.
pub proof fn law_code_gap(c: char, rest: Seq<char>)
    requires
        c == ' ' || c == '\n' || c == '\t',
    ensures
        code(seq![c] + rest) == code(rest),
        code(seq![]) == Seq::<Tok>::empty(),
{
    let text = seq![c] + rest;
    assert(text.skip(1) =~= rest);
    lemma_start(text);
    lemma_gap(text, 0);
}

proof fn lemma_marks(c: char)
    ensures
        is_punct(c) == "=<>!~+-*/%^&|@.,;:#$?'"@.contains(c),
{
    reveal_strlit("=<>!~+-*/%^&|@.,;:#$?'");
    let marks = "=<>!~+-*/%^&|@.,;:#$?'"@;
    assert(marks[0] == '=' && marks[1] == '<' && marks[2] == '>' && marks[3] == '!' && marks[4]
        == '~' && marks[5] == '+' && marks[6] == '-' && marks[7] == '*' && marks[8] == '/'
        && marks[9] == '%' && marks[10] == '^' && marks[11] == '&' && marks[12] == '|'
        && marks[13] == '@' && marks[14] == '.' && marks[15] == ',' && marks[16] == ';'
        && marks[17] == ':' && marks[18] == '#' && marks[19] == '$' && marks[20] == '?'
        && marks[21] == '\'');
}

pub proof fn lemma_let()
    ensures
        code("let"@) == seq![Tok::Ident("let"@)],
{
    reveal_strlit("let");
    let text = "let"@;
    lemma_start(text);
    lemma_word(text, 0, "let"@);
    lemma_end(text);
}

pub proof fn lemma_eq()
    ensures
        code("="@) == seq![Tok::Punct('=', false)],
{
    reveal_strlit("=");
    let text = "="@;
    lemma_start(text);
    lemma_mark(text, 0);
    lemma_end(text);
}

pub proof fn lemma_eq_self_dot()
    ensures
        code("= self."@) == seq![Tok::Punct('=', false), Tok::Ident("self"@), Tok::Punct('.', false)],
{
    reveal_strlit("= self.");
    reveal_strlit("self");
    let text = "= self."@;
    lemma_start(text);
    lemma_mark(text, 0);
    lemma_gap(text, 1);
    lemma_word(text, 2, "self"@);
    lemma_mark(text, 6);
    lemma_end(text);
}

pub proof fn lemma_dot()
    ensures
        code("."@) == seq![Tok::Punct('.', false)],
{
    reveal_strlit(".");
    let text = "."@;
    lemma_start(text);
    lemma_mark(text, 0);
    lemma_end(text);
}

pub proof fn lemma_semi()
    ensures
        code(";"@) == seq![Tok::Punct(';', false)],
{
    reveal_strlit(";");
    let text = ";"@;
    lemma_start(text);
    lemma_mark(text, 0);
    lemma_end(text);
}

pub proof fn lemma_self_dot()
    ensures
        code("self."@) == seq![Tok::Ident("self"@), Tok::Punct('.', false)],
{
    reveal_strlit("self.");
    reveal_strlit("self");
    let text = "self."@;
    lemma_start(text);
    lemma_word(text, 0, "self"@);
    lemma_mark(text, 4);
    lemma_end(text);
}

pub proof fn lemma_comma_bars()
    ensures
        code(", ||"@) == seq![Tok::Punct(',', false), Tok::Punct('|', true), Tok::Punct('|', false)],
{
    reveal_strlit(", ||");
    let text = ", ||"@;
    lemma_start(text);
    lemma_mark(text, 0);
    lemma_gap(text, 1);
    lemma_mark(text, 2);
    lemma_mark(text, 3);
    lemma_end(text);
}

pub proof fn lemma_path_into_value()
    ensures
        code("::into_value"@) == seq![Tok::Punct(':', true), Tok::Punct(':', false), Tok::Ident("into_value"@)],
{
    reveal_strlit("::into_value");
    reveal_strlit("into_value");
    let text = "::into_value"@;
    lemma_start(text);
    lemma_mark(text, 0);
    lemma_mark(text, 1);
    lemma_word(text, 2, "into_value"@);
    lemma_end(text);
}

pub proof fn lemma_colon_self_dot()
    ensures
        code(": self."@) == seq![Tok::Punct(':', false), Tok::Ident("self"@), Tok::Punct('.', false)],
{
    reveal_strlit(": self.");
    reveal_strlit("self");
    let text = ": self."@;
    lemma_start(text);
    lemma_mark(text, 0);
    lemma_gap(text, 1);
    lemma_word(text, 2, "self"@);
    lemma_mark(text, 6);
    lemma_end(text);
}

pub proof fn lemma_colon()
    ensures
        code(":"@) == seq![Tok::Punct(':', false)],
{
    reveal_strlit(":");
    let text = ":"@;
    lemma_start(text);
    lemma_mark(text, 0);
    lemma_end(text);
}

pub proof fn lemma_comma()
    ensures
        code(","@) == seq![Tok::Punct(',', false)],
{
    reveal_strlit(",");
    let text = ","@;
    lemma_start(text);
    lemma_mark(text, 0);
    lemma_end(text);
}

pub proof fn lemma_path_convert_path_into_lt()
    ensures
        code("::convert::Into<"@) == seq![Tok::Punct(':', true), Tok::Punct(':', false), Tok::Ident("convert"@), Tok::Punct(':', true), Tok::Punct(':', false), Tok::Ident("Into"@), Tok::Punct('<', false)],
{
    reveal_strlit("::convert::Into<");
    reveal_strlit("convert");
    reveal_strlit("Into");
    let text = "::convert::Into<"@;
    lemma_start(text);
    lemma_mark(text, 0);
    lemma_mark(text, 1);
    lemma_word(text, 2, "convert"@);
    lemma_mark(text, 9);
    lemma_mark(text, 10);
    lemma_word(text, 11, "Into"@);
    lemma_mark(text, 15);
    lemma_end(text);
}

pub proof fn lemma_lt()
    ensures
        code("<"@) == seq![Tok::Punct('<', false)],
{
    reveal_strlit("<");
    let text = "<"@;
    lemma_start(text);
    lemma_mark(text, 0);
    lemma_end(text);
}

pub proof fn lemma_gt_gt()
    ensures
        code(">>"@) == seq![Tok::Punct('>', true), Tok::Punct('>', false)],
{
    reveal_strlit(">>");
    let text = ">>"@;
    lemma_start(text);
    lemma_mark(text, 0);
    lemma_mark(text, 1);
    lemma_end(text);
}

pub proof fn lemma_pub_fn()
    ensures
        code("pub fn"@) == seq![Tok::Ident("pub"@), Tok::Ident("fn"@)],
{
    reveal_strlit("pub fn");
    reveal_strlit("pub");
    reveal_strlit("fn");
    let text = "pub fn"@;
    lemma_start(text);
    lemma_word(text, 0, "pub"@);
    lemma_gap(text, 3);
    lemma_word(text, 4, "fn"@);
    lemma_end(text);
}

pub proof fn lemma_self_comma_value_colon()
    ensures
        code("self, value:"@) == seq![Tok::Ident("self"@), Tok::Punct(',', false), Tok::Ident("value"@), Tok::Punct(':', false)],
{
    reveal_strlit("self, value:");
    reveal_strlit("self");
    reveal_strlit("value");
    let text = "self, value:"@;
    lemma_start(text);
    lemma_word(text, 0, "self"@);
    lemma_mark(text, 4);
    lemma_gap(text, 5);
    lemma_word(text, 6, "value"@);
    lemma_mark(text, 11);
    lemma_end(text);
}

pub proof fn lemma_arrow()
    ensures
        code("->"@) == seq![Tok::Punct('-', true), Tok::Punct('>', false)],
{
    reveal_strlit("->");
    let text = "->"@;
    lemma_start(text);
    lemma_mark(text, 0);
    lemma_mark(text, 1);
    lemma_end(text);
}

pub proof fn lemma_value_dot_into()
    ensures
        code("value.into"@) == seq![Tok::Ident("value"@), Tok::Punct('.', false), Tok::Ident("into"@)],
{
    reveal_strlit("value.into");
    reveal_strlit("value");
    reveal_strlit("into");
    let text = "value.into"@;
    lemma_start(text);
    lemma_word(text, 0, "value"@);
    lemma_mark(text, 5);
    lemma_word(text, 6, "into"@);
    lemma_end(text);
}

pub proof fn lemma_phantom_kept()
    ensures
        code("__typed_builder_phantom_generics: self.__typed_builder_phantom_generics,"@) == seq![Tok::Ident("__typed_builder_phantom_generics"@), Tok::Punct(':', false), Tok::Ident("self"@), Tok::Punct('.', false), Tok::Ident("__typed_builder_phantom_generics"@), Tok::Punct(',', false)],
{
    reveal_strlit("__typed_builder_phantom_generics: self.__typed_builder_phantom_generics,");
    reveal_strlit("__typed_builder_phantom_generics");
    reveal_strlit("self");
    let text = "__typed_builder_phantom_generics: self.__typed_builder_phantom_generics,"@;
    lemma_start(text);
    lemma_word(text, 0, "__typed_builder_phantom_generics"@);
    lemma_mark(text, 32);
    lemma_gap(text, 33);
    lemma_word(text, 34, "self"@);
    lemma_mark(text, 38);
    lemma_word(text, 39, "__typed_builder_phantom_generics"@);
    lemma_mark(text, 71);
    lemma_end(text);
}

pub proof fn lemma_phantom_name()
    ensures
        code("__typed_builder_phantom_generics:"@) == seq![Tok::Ident("__typed_builder_phantom_generics"@), Tok::Punct(':', false)],
{
    reveal_strlit("__typed_builder_phantom_generics:");
    reveal_strlit("__typed_builder_phantom_generics");
    let text = "__typed_builder_phantom_generics:"@;
    lemma_start(text);
    lemma_word(text, 0, "__typed_builder_phantom_generics"@);
    lemma_mark(text, 32);
    lemma_end(text);
}

pub proof fn lemma_impl()
    ensures
        code("impl"@) == seq![Tok::Ident("impl"@)],
{
    reveal_strlit("impl");
    let text = "impl"@;
    lemma_start(text);
    lemma_word(text, 0, "impl"@);
    lemma_end(text);
}

pub proof fn lemma_pub_fn_build()
    ensures
        code("pub fn build"@) == seq![Tok::Ident("pub"@), Tok::Ident("fn"@), Tok::Ident("build"@)],
{
    reveal_strlit("pub fn build");
    reveal_strlit("pub");
    reveal_strlit("fn");
    reveal_strlit("build");
    let text = "pub fn build"@;
    lemma_start(text);
    lemma_word(text, 0, "pub"@);
    lemma_gap(text, 3);
    lemma_word(text, 4, "fn"@);
    lemma_gap(text, 6);
    lemma_word(text, 7, "build"@);
    lemma_end(text);
}

pub proof fn lemma_self()
    ensures
        code("self"@) == seq![Tok::Ident("self"@)],
{
    reveal_strlit("self");
    let text = "self"@;
    lemma_start(text);
    lemma_word(text, 0, "self"@);
    lemma_end(text);
}

pub proof fn lemma_doc_eq()
    ensures
        code("doc ="@) == seq![Tok::Ident("doc"@), Tok::Punct('=', false)],
{
    reveal_strlit("doc =");
    reveal_strlit("doc");
    let text = "doc ="@;
    lemma_start(text);
    lemma_word(text, 0, "doc"@);
    lemma_gap(text, 3);
    lemma_mark(text, 4);
    lemma_end(text);
}

pub proof fn lemma_pound()
    ensures
        code("#"@) == seq![Tok::Punct('#', false)],
{
    reveal_strlit("#");
    let text = "#"@;
    lemma_start(text);
    lemma_mark(text, 0);
    lemma_end(text);
}

pub proof fn lemma_doc()
    ensures
        code("doc"@) == seq![Tok::Ident("doc"@)],
{
    reveal_strlit("doc");
    let text = "doc"@;
    lemma_start(text);
    lemma_word(text, 0, "doc"@);
    lemma_end(text);
}

pub proof fn lemma_hidden()
    ensures
        code("hidden"@) == seq![Tok::Ident("hidden"@)],
{
    reveal_strlit("hidden");
    let text = "hidden"@;
    lemma_start(text);
    lemma_word(text, 0, "hidden"@);
    lemma_end(text);
}

pub proof fn lemma_allow()
    ensures
        code("allow"@) == seq![Tok::Ident("allow"@)],
{
    reveal_strlit("allow");
    let text = "allow"@;
    lemma_start(text);
    lemma_word(text, 0, "allow"@);
    lemma_end(text);
}

pub proof fn lemma_must_use()
    ensures
        code("must_use"@) == seq![Tok::Ident("must_use"@)],
{
    reveal_strlit("must_use");
    let text = "must_use"@;
    lemma_start(text);
    lemma_word(text, 0, "must_use"@);
    lemma_end(text);
}

pub proof fn lemma_allow_in_fn()
    ensures
        code("dead_code, clippy::default_trait_access"@) == seq![Tok::Ident("dead_code"@), Tok::Punct(',', false), Tok::Ident("clippy"@), Tok::Punct(':', true), Tok::Punct(':', false), Tok::Ident("default_trait_access"@)],
{
    reveal_strlit("dead_code, clippy::default_trait_access");
    reveal_strlit("dead_code");
    reveal_strlit("clippy");
    reveal_strlit("default_trait_access");
    let text = "dead_code, clippy::default_trait_access"@;
    lemma_start(text);
    lemma_word(text, 0, "dead_code"@);
    lemma_mark(text, 9);
    lemma_gap(text, 10);
    lemma_word(text, 11, "clippy"@);
    lemma_mark(text, 17);
    lemma_mark(text, 18);
    lemma_word(text, 19, "default_trait_access"@);
    lemma_end(text);
}

pub proof fn lemma_allow_in_type()
    ensures
        code("dead_code, non_camel_case_types, non_snake_case, clippy::default_trait_access"@) == seq![Tok::Ident("dead_code"@), Tok::Punct(',', false), Tok::Ident("non_camel_case_types"@), Tok::Punct(',', false), Tok::Ident("non_snake_case"@), Tok::Punct(',', false), Tok::Ident("clippy"@), Tok::Punct(':', true), Tok::Punct(':', false), Tok::Ident("default_trait_access"@)],
{
    reveal_strlit("dead_code, non_camel_case_types, non_snake_case, clippy::default_trait_access");
    reveal_strlit("dead_code");
    reveal_strlit("non_camel_case_types");
    reveal_strlit("non_snake_case");
    reveal_strlit("clippy");
    reveal_strlit("default_trait_access");
    let text = "dead_code, non_camel_case_types, non_snake_case, clippy::default_trait_access"@;
    lemma_start(text);
    lemma_word(text, 0, "dead_code"@);
    lemma_mark(text, 9);
    lemma_gap(text, 10);
    lemma_word(text, 11, "non_camel_case_types"@);
    lemma_mark(text, 31);
    lemma_gap(text, 32);
    lemma_word(text, 33, "non_snake_case"@);
    lemma_mark(text, 47);
    lemma_gap(text, 48);
    lemma_word(text, 49, "clippy"@);
    lemma_mark(text, 55);
    lemma_mark(text, 56);
    lemma_word(text, 57, "default_trait_access"@);
    lemma_end(text);
}

pub proof fn lemma_allow_in_impl()
    ensures
        code("dead_code, non_camel_case_types, missing_docs, clippy::default_trait_access"@) == seq![Tok::Ident("dead_code"@), Tok::Punct(',', false), Tok::Ident("non_camel_case_types"@), Tok::Punct(',', false), Tok::Ident("missing_docs"@), Tok::Punct(',', false), Tok::Ident("clippy"@), Tok::Punct(':', true), Tok::Punct(':', false), Tok::Ident("default_trait_access"@)],
{
    reveal_strlit("dead_code, non_camel_case_types, missing_docs, clippy::default_trait_access");
    reveal_strlit("dead_code");
    reveal_strlit("non_camel_case_types");
    reveal_strlit("missing_docs");
    reveal_strlit("clippy");
    reveal_strlit("default_trait_access");
    let text = "dead_code, non_camel_case_types, missing_docs, clippy::default_trait_access"@;
    lemma_start(text);
    lemma_word(text, 0, "dead_code"@);
    lemma_mark(text, 9);
    lemma_gap(text, 10);
    lemma_word(text, 11, "non_camel_case_types"@);
    lemma_mark(text, 31);
    lemma_gap(text, 32);
    lemma_word(text, 33, "missing_docs"@);
    lemma_mark(text, 45);
    lemma_gap(text, 46);
    lemma_word(text, 47, "clippy"@);
    lemma_mark(text, 53);
    lemma_mark(text, 54);
    lemma_word(text, 55, "default_trait_access"@);
    lemma_end(text);
}

pub proof fn lemma_fn_builder()
    ensures
        code("fn builder"@) == seq![Tok::Ident("fn"@), Tok::Ident("builder"@)],
{
    reveal_strlit("fn builder");
    reveal_strlit("fn");
    reveal_strlit("builder");
    let text = "fn builder"@;
    lemma_start(text);
    lemma_word(text, 0, "fn"@);
    lemma_gap(text, 2);
    lemma_word(text, 3, "builder"@);
    lemma_end(text);
}

pub proof fn lemma_struct()
    ensures
        code("struct"@) == seq![Tok::Ident("struct"@)],
{
    reveal_strlit("struct");
    let text = "struct"@;
    lemma_start(text);
    lemma_word(text, 0, "struct"@);
    lemma_end(text);
}

pub proof fn lemma_extern_crate_core_as()
    ensures
        code("extern crate core as"@) == seq![Tok::Ident("extern"@), Tok::Ident("crate"@), Tok::Ident("core"@), Tok::Ident("as"@)],
{
    reveal_strlit("extern crate core as");
    reveal_strlit("extern");
    reveal_strlit("crate");
    reveal_strlit("core");
    reveal_strlit("as");
    let text = "extern crate core as"@;
    lemma_start(text);
    lemma_word(text, 0, "extern"@);
    lemma_gap(text, 6);
    lemma_word(text, 7, "crate"@);
    lemma_gap(text, 12);
    lemma_word(text, 13, "core"@);
    lemma_gap(text, 17);
    lemma_word(text, 18, "as"@);
    lemma_end(text);
}

pub proof fn lemma_semi_impl()
    ensures
        code("; impl"@) == seq![Tok::Punct(';', false), Tok::Ident("impl"@)],
{
    reveal_strlit("; impl");
    reveal_strlit("impl");
    let text = "; impl"@;
    lemma_start(text);
    lemma_mark(text, 0);
    lemma_gap(text, 1);
    lemma_word(text, 2, "impl"@);
    lemma_end(text);
}

pub proof fn lemma_path_marker_path_phantomdata_lt()
    ensures
        code("::marker::PhantomData<"@) == seq![Tok::Punct(':', true), Tok::Punct(':', false), Tok::Ident("marker"@), Tok::Punct(':', true), Tok::Punct(':', false), Tok::Ident("PhantomData"@), Tok::Punct('<', false)],
{
    reveal_strlit("::marker::PhantomData<");
    reveal_strlit("marker");
    reveal_strlit("PhantomData");
    let text = "::marker::PhantomData<"@;
    lemma_start(text);
    lemma_mark(text, 0);
    lemma_mark(text, 1);
    lemma_word(text, 2, "marker"@);
    lemma_mark(text, 8);
    lemma_mark(text, 9);
    lemma_word(text, 10, "PhantomData"@);
    lemma_mark(text, 21);
    lemma_end(text);
}

pub proof fn lemma_amp()
    ensures
        code("&"@) == seq![Tok::Punct('&', false)],
{
    reveal_strlit("&");
    let text = "&"@;
    lemma_start(text);
    lemma_mark(text, 0);
    lemma_end(text);
}

pub proof fn lemma_gt()
    ensures
        code(">"@) == seq![Tok::Punct('>', false)],
{
    reveal_strlit(">");
    let text = ">"@;
    lemma_start(text);
    lemma_mark(text, 0);
    lemma_end(text);
}

pub proof fn lemma_path_default_path_default_path_default()
    ensures
        code("::default::Default::default"@) == seq![Tok::Punct(':', true), Tok::Punct(':', false), Tok::Ident("default"@), Tok::Punct(':', true), Tok::Punct(':', false), Tok::Ident("Default"@), Tok::Punct(':', true), Tok::Punct(':', false), Tok::Ident("default"@)],
{
    reveal_strlit("::default::Default::default");
    reveal_strlit("default");
    reveal_strlit("Default");
    let text = "::default::Default::default"@;
    lemma_start(text);
    lemma_mark(text, 0);
    lemma_mark(text, 1);
    lemma_word(text, 2, "default"@);
    lemma_mark(text, 9);
    lemma_mark(text, 10);
    lemma_word(text, 11, "Default"@);
    lemma_mark(text, 18);
    lemma_mark(text, 19);
    lemma_word(text, 20, "default"@);
    lemma_end(text);
}

pub proof fn lemma_fn_into_value_lt_f_colon_fnonce()
    ensures
        code("fn into_value<F: FnOnce"@) == seq![Tok::Ident("fn"@), Tok::Ident("into_value"@), Tok::Punct('<', false), Tok::Ident("F"@), Tok::Punct(':', false), Tok::Ident("FnOnce"@)],
{
    reveal_strlit("fn into_value<F: FnOnce");
    reveal_strlit("fn");
    reveal_strlit("into_value");
    reveal_strlit("F");
    reveal_strlit("FnOnce");
    let text = "fn into_value<F: FnOnce"@;
    lemma_start(text);
    lemma_word(text, 0, "fn"@);
    lemma_gap(text, 2);
    lemma_word(text, 3, "into_value"@);
    lemma_mark(text, 13);
    lemma_word(text, 14, "F"@);
    lemma_mark(text, 15);
    lemma_gap(text, 16);
    lemma_word(text, 17, "FnOnce"@);
    lemma_end(text);
}

pub proof fn lemma_arrow_t_gt()
    ensures
        code("-> T>"@) == seq![Tok::Punct('-', true), Tok::Punct('>', false), Tok::Ident("T"@), Tok::Punct('>', false)],
{
    reveal_strlit("-> T>");
    reveal_strlit("T");
    let text = "-> T>"@;
    lemma_start(text);
    lemma_mark(text, 0);
    lemma_mark(text, 1);
    lemma_gap(text, 2);
    lemma_word(text, 3, "T"@);
    lemma_mark(text, 4);
    lemma_end(text);
}

pub proof fn lemma_arrow_t()
    ensures
        code("-> T"@) == seq![Tok::Punct('-', true), Tok::Punct('>', false), Tok::Ident("T"@)],
{
    reveal_strlit("-> T");
    reveal_strlit("T");
    let text = "-> T"@;
    lemma_start(text);
    lemma_mark(text, 0);
    lemma_mark(text, 1);
    lemma_gap(text, 2);
    lemma_word(text, 3, "T"@);
    lemma_end(text);
}

pub proof fn lemma_arrow_t_semi()
    ensures
        code("-> T;"@) == seq![Tok::Punct('-', true), Tok::Punct('>', false), Tok::Ident("T"@), Tok::Punct(';', false)],
{
    reveal_strlit("-> T;");
    reveal_strlit("T");
    let text = "-> T;"@;
    lemma_start(text);
    lemma_mark(text, 0);
    lemma_mark(text, 1);
    lemma_gap(text, 2);
    lemma_word(text, 3, "T"@);
    lemma_mark(text, 4);
    lemma_end(text);
}

pub proof fn lemma_self_comma_default_colon_f()
    ensures
        code("self, default: F"@) == seq![Tok::Ident("self"@), Tok::Punct(',', false), Tok::Ident("default"@), Tok::Punct(':', false), Tok::Ident("F"@)],
{
    reveal_strlit("self, default: F");
    reveal_strlit("self");
    reveal_strlit("default");
    reveal_strlit("F");
    let text = "self, default: F"@;
    lemma_start(text);
    lemma_word(text, 0, "self"@);
    lemma_mark(text, 4);
    lemma_gap(text, 5);
    lemma_word(text, 6, "default"@);
    lemma_mark(text, 13);
    lemma_gap(text, 14);
    lemma_word(text, 15, "F"@);
    lemma_end(text);
}

pub proof fn lemma_default()
    ensures
        code("default"@) == seq![Tok::Ident("default"@)],
{
    reveal_strlit("default");
    let text = "default"@;
    lemma_start(text);
    lemma_word(text, 0, "default"@);
    lemma_end(text);
}

pub proof fn lemma_self_comma_colon_f()
    ensures
        code("self, _: F"@) == seq![Tok::Ident("self"@), Tok::Punct(',', false), Tok::Ident("_"@), Tok::Punct(':', false), Tok::Ident("F"@)],
{
    reveal_strlit("self, _: F");
    reveal_strlit("self");
    reveal_strlit("_");
    reveal_strlit("F");
    let text = "self, _: F"@;
    lemma_start(text);
    lemma_word(text, 0, "self"@);
    lemma_mark(text, 4);
    lemma_gap(text, 5);
    lemma_word(text, 6, "_"@);
    lemma_mark(text, 7);
    lemma_gap(text, 8);
    lemma_word(text, 9, "F"@);
    lemma_end(text);
}

pub proof fn lemma_pub_trait()
    ensures
        code("pub trait"@) == seq![Tok::Ident("pub"@), Tok::Ident("trait"@)],
{
    reveal_strlit("pub trait");
    reveal_strlit("pub");
    reveal_strlit("trait");
    let text = "pub trait"@;
    lemma_start(text);
    lemma_word(text, 0, "pub"@);
    lemma_gap(text, 3);
    lemma_word(text, 4, "trait"@);
    lemma_end(text);
}

pub proof fn lemma_lt_t_gt()
    ensures
        code("<T>"@) == seq![Tok::Punct('<', false), Tok::Ident("T"@), Tok::Punct('>', false)],
{
    reveal_strlit("<T>");
    reveal_strlit("T");
    let text = "<T>"@;
    lemma_start(text);
    lemma_mark(text, 0);
    lemma_word(text, 1, "T"@);
    lemma_mark(text, 2);
    lemma_end(text);
}

pub proof fn lemma_impl_lt_t_gt()
    ensures
        code("impl<T>"@) == seq![Tok::Ident("impl"@), Tok::Punct('<', false), Tok::Ident("T"@), Tok::Punct('>', false)],
{
    reveal_strlit("impl<T>");
    reveal_strlit("impl");
    reveal_strlit("T");
    let text = "impl<T>"@;
    lemma_start(text);
    lemma_word(text, 0, "impl"@);
    lemma_mark(text, 4);
    lemma_word(text, 5, "T"@);
    lemma_mark(text, 6);
    lemma_end(text);
}

pub proof fn lemma_lt_t_gt_for()
    ensures
        code("<T> for"@) == seq![Tok::Punct('<', false), Tok::Ident("T"@), Tok::Punct('>', false), Tok::Ident("for"@)],
{
    reveal_strlit("<T> for");
    reveal_strlit("T");
    reveal_strlit("for");
    let text = "<T> for"@;
    lemma_start(text);
    lemma_mark(text, 0);
    lemma_word(text, 1, "T"@);
    lemma_mark(text, 2);
    lemma_gap(text, 3);
    lemma_word(text, 4, "for"@);
    lemma_end(text);
}

pub proof fn lemma_t_comma()
    ensures
        code("T,"@) == seq![Tok::Ident("T"@), Tok::Punct(',', false)],
{
    reveal_strlit("T,");
    reveal_strlit("T");
    let text = "T,"@;
    lemma_start(text);
    lemma_word(text, 0, "T"@);
    lemma_mark(text, 1);
    lemma_end(text);
}

} // verus!
