use proc_macro2::{Delimiter, Group, Literal, TokenStream, TokenTree};
use typed_builder::builder_attr::{check_attrs, Attribute, TypeBuilderAttr};
use typed_builder::error::DeriveError;
use typed_builder::expr::{
    check_args, check_expr, expr_to_single_string, list_arguments, path_to_single_string, read_args, read_expr,
    shape_to_single_string, Args, Expr, ExprKind, ExprShape,
};
use typed_builder::field_info::{Field, FieldBuilderAttr};
use typed_builder::ident::{check_ident, Ident};
use typed_builder::readable::{check_literal, check_literals, check_readable, check_types};
use typed_builder::struct_info::{DeriveInput, StructInfo};

fn stream(text: &str) -> TokenStream {
    text.parse::<TokenStream>().unwrap()
}

fn attribute(path: &str, tts: &str) -> Attribute {
    Attribute { path: stream(path), tts: stream(tts) }
}

fn read(attrs: Vec<Attribute>) -> Result<TypeBuilderAttr, DeriveError> {
    TypeBuilderAttr::new(&attrs)
}

fn text(value: &Option<TokenStream>) -> Option<String> {
    value.as_ref().map(|value| value.to_string())
}

/// The tokens and the message of an error.
fn spanned<T>(result: Result<T, DeriveError>) -> (String, String) {
    match result {
        Err(DeriveError::Spanned { tokens, message }) => (tokens.to_string(), message),
        _ => panic!("no message about tokens"),
    }
}

#[test]
fn nothing_is_said_by_default() {
    for attrs in vec![
        vec![],
        vec![attribute("derive", "(Debug)")],
        vec![attribute("builder", "")],
        vec![attribute("builder::x", "(doc)")],
        vec![attribute("::builder", "(doc)")],
        vec![attribute("builder", "()")],
    ] {
        let attr = read(attrs).unwrap();
        assert!(!attr.doc);
        assert!(attr.name.is_none());
        assert!(attr.builder_method_doc.is_none());
        assert!(attr.builder_type_doc.is_none());
        assert!(attr.build_method_doc.is_none());
    }
}

#[test]
fn arguments_are_taken_over() {
    let attr = read(vec![attribute(
        "builder",
        r#"(name = Make, builder_method_doc = "a", builder_type_doc = "b", build_method_doc = concat!("c"))"#,
    )])
    .unwrap();
    assert!(attr.doc);
    assert_eq!(text(&attr.name), Some("Make".to_string()));
    assert_eq!(text(&attr.builder_method_doc), Some("\"a\"".to_string()));
    assert_eq!(text(&attr.builder_type_doc), Some("\"b\"".to_string()));
    assert_eq!(text(&attr.build_method_doc), Some(stream(r#"concat!("c")"#).to_string()));
}

#[test]
fn docs_imply_doc() {
    assert!(read(vec![attribute("builder", "(doc)")]).unwrap().doc);
    assert!(read(vec![attribute("builder", "(builder_type_doc = \"b\")")]).unwrap().doc);
    assert!(read(vec![attribute("builder", "(build_method_doc = \"c\")")]).unwrap().doc);
    assert!(!read(vec![attribute("builder", "(builder_method_doc = \"a\")")]).unwrap().doc);
    assert!(!read(vec![attribute("builder", "(name = Make)")]).unwrap().doc);
}

#[test]
fn later_values_count_and_other_attributes_do_not() {
    let attr = read(vec![
        attribute("builder", "(name = A, name = B)"),
        attribute("other", "(name = X)"),
        attribute("builder", "(name = C,)"),
        attribute("builder", ""),
    ])
    .unwrap();
    assert_eq!(text(&attr.name), Some("C".to_string()));
    assert!(!attr.doc);
}

#[test]
fn arguments_without_parentheses() {
    let error = spanned(read(vec![attribute("builder", "[doc]")]));
    assert_eq!(error, ("[ doc ]".to_string(), "Expected (<...>)".to_string()));
    let error = spanned(read(vec![attribute("builder", "doc")]));
    assert_eq!(error, ("doc".to_string(), "Expected (<...>)".to_string()));
}

#[test]
fn unknown_parameters() {
    let error = spanned(read(vec![attribute("builder", "(nme = Foo)")]));
    assert_eq!(error, ("nme = Foo".to_string(), "Unknown parameter \"nme\"".to_string()));
    let error = spanned(read(vec![attribute("builder", "(doc, docs)")]));
    assert_eq!(error, ("docs".to_string(), "Unknown parameter \"docs\"".to_string()));
}

#[test]
fn names_that_are_no_identifiers() {
    let error = spanned(read(vec![attribute("builder", "(a::name = Foo)")]));
    assert_eq!(error, (stream("a::name").to_string(), "Expected identifier".to_string()));
    let error = spanned(read(vec![attribute("builder", "(a::doc)")]));
    assert_eq!(error, (stream("a::doc").to_string(), "Expected identifier".to_string()));
    let error = spanned(read(vec![attribute("builder", "(true = 5)")]));
    assert_eq!(error, ("true".to_string(), "Expected identifier".to_string()));
}

#[test]
fn other_expressions() {
    let error = spanned(read(vec![attribute("builder", "(name(Foo))")]));
    let expected = (stream("name(Foo)").to_string(), "Expected (<...>=<...>)".to_string());
    assert_eq!(error, expected);
    let error = spanned(read(vec![attribute("builder", "(doc, 5)")]));
    assert_eq!(error, ("5".to_string(), "Expected (<...>=<...>)".to_string()));
}

/// The message of the parser about tokens that are no expression.
fn parser_message(text: &str) -> String {
    syn::parse2::<syn::Expr>(stream(text)).err().unwrap().to_string()
}

#[test]
fn tokens_that_are_no_expression() {
    for tts in vec!["(name = )", "= 5", "(a b)", "doc doc"] {
        match read(vec![attribute("builder", tts)]) {
            Err(DeriveError::Syntax(error)) => {
                assert_eq!(error.to_string(), parser_message(tts));
                let error = DeriveError::Syntax(error);
                assert_eq!(error.message(), parser_message(tts));
                assert_eq!(error.into_error().to_string(), parser_message(tts));
            }
            _ => panic!("no syntax error"),
        }
    }
    assert_ne!(parser_message("(name = )"), parser_message("= 5"));
}

#[test]
fn messages_of_errors() {
    let error = DeriveError::new_spanned(stream("a b"), "no \"a\"");
    assert_eq!(error.message(), "no \"a\"");
    assert_eq!(error.into_error().to_string(), "no \"a\"");
}

#[test]
fn literals_that_can_be_read() {
    for text in vec![
        "\"a\"", "r#\"a\"#", "'a'", "b\"a\"", "br\"a\"", "b'a'", "0", "12u8", "1.5", "0x1f", "0b01_1",
        "0o17", "0b1e2", "0b1.2", "2b9", "0bz", "99999999999999999999999", "true", "false",
    ] {
        assert!(check_literal(text));
    }
    for text in vec!["", "-1", "c\"a\"", "b", "ba", "/// a", "0b2", "0o8", "0b1_2", "0b12usize", "a"] {
        assert!(!check_literal(text));
    }
    let ones = "1".repeat(64);
    assert!(!check_literal(&format!("0b{}2", &ones[1..])));
    assert!(!check_literal(&format!("0b{}2", ones)));
    assert!(check_literal(&format!("0b{}12", ones)));
}

/// A stream of one literal that the parser does not take.
fn negative() -> TokenStream {
    Some(TokenTree::from(Literal::i32_unsuffixed(-1))).into_iter().collect()
}

fn grouped(delimiter: Delimiter, inner: TokenStream) -> TokenStream {
    Some(TokenTree::from(Group::new(delimiter, inner))).into_iter().collect()
}

fn then(first: &str, last: TokenStream) -> TokenStream {
    let mut whole = stream(first);
    whole.extend(last);
    whole
}

#[test]
fn tokens_that_can_be_read() {
    for text in vec![
        "", "a = \"b\"", "(1, 'c', b\"d\")", "x as Box<dyn 'a + T>", "x as fn() -> dyn 'a + T",
        "x as for<'a> fn(&'a u8)", "x as Box<for<'a> dyn T<'a>>", "for x in y < z { w > dyn }",
    ] {
        assert!(check_readable(&stream(text)));
    }
    assert!(!check_readable(&negative()));
    assert!(!check_readable(&grouped(Delimiter::Parenthesis, negative())));
    assert!(!check_readable(&then("a = ", grouped(Delimiter::None, negative()))));
    for text in vec!["x as for<'a> dyn 'b + T", "(x as for<> dyn 'b + T<'b>)"] {
        assert!(!check_readable(&stream(text)));
    }
    let object = grouped(Delimiter::None, stream("dyn 'b + T"));
    assert!(!check_readable(&then("x as for<'a: 'c>", object)));
    assert!(check_literals(&stream("x as for<'a> dyn 'b + T")));
    assert!(!check_types(&stream("x as for<'a> dyn 'b + T")));
}

#[test]
fn attributes_that_cannot_be_read() {
    let bad = |path: &str| Attribute {
        path: stream(path),
        tts: grouped(Delimiter::Parenthesis, then("name = ", negative())),
    };
    assert!(!check_attrs(&[bad("builder")]));
    assert!(TypeBuilderAttr::try_new(&[bad("builder")]).is_none());
    assert!(TypeBuilderAttr::try_new(&[attribute("builder", "(doc)"), bad("builder")]).is_none());
    assert!(TypeBuilderAttr::try_new(&[bad("other")]).unwrap().is_ok());
    let error = TypeBuilderAttr::try_new(&[attribute("builder", "(nope)"), bad("builder")]).unwrap();
    assert_eq!(spanned(error).1, "Unknown parameter \"nope\"");
    assert!(StructInfo::try_new(&input("Foo", vec![bad("builder")]), vec![]).is_none());
    assert!(!check_args(&bad("builder").tts));
    assert!(check_args(&stream("(name = Foo)")));
    assert!(check_expr(&stream("name = Foo")));
    assert!(!check_expr(&then("name = ", negative())));
}

#[test]
fn one_attribute_or_one_for_each_argument() {
    let values = |attr: TypeBuilderAttr| {
        (attr.doc, text(&attr.name), text(&attr.builder_method_doc), text(&attr.build_method_doc))
    };
    let arguments = vec!["name = A", "build_method_doc = \"b\"", "name = C"];
    let each = || -> Vec<Attribute> {
        arguments.iter().map(|item| attribute("builder", &format!("({})", item))).collect()
    };
    let one = read(vec![attribute("builder", &format!("({})", arguments.join(", ")))]).unwrap();
    let mut among = vec![attribute("a", "(doc)")];
    among.extend(each());
    among.push(attribute("b", "= 1"));
    let expected = (true, Some("C".to_string()), None, Some("\"b\"".to_string()));
    assert_eq!(values(one), expected);
    assert_eq!(values(read(each()).unwrap()), expected);
    assert_eq!(values(read(among).unwrap()), expected);
    let one = spanned(read(vec![attribute("builder", "(doc, b, c)")]));
    let several = vec!["(doc)", "(b)", "(c)"];
    let several =
        spanned(read(several.into_iter().map(|tts| attribute("builder", tts)).collect()));
    assert_eq!(one, several);
}

#[test]
fn the_first_attribute_that_is_refused_decides() {
    let error = spanned(read(vec![
        attribute("builder", "(doc)"),
        attribute("builder", "(first)"),
        attribute("builder", "= 5"),
    ]));
    assert_eq!(error.1, "Unknown parameter \"first\"");
}

#[test]
fn a_refused_argument_changes_nothing() {
    let mut attr = TypeBuilderAttr::default();
    let expr = Expr {
        stream: stream("nope = 1"),
        kind: ExprKind::Assign {
            left: stream("nope"),
            name: Some("nope".to_string()),
            right: stream("1"),
        },
    };
    let error = spanned(attr.apply_meta(expr));
    assert_eq!(error, ("nope = 1".to_string(), "Unknown parameter \"nope\"".to_string()));
    assert!(!attr.doc && attr.name.is_none() && attr.builder_method_doc.is_none());
    assert!(attr.builder_type_doc.is_none() && attr.build_method_doc.is_none());
}

#[test]
fn arguments_count_up_to_the_refused_one() {
    let mut attr = TypeBuilderAttr::default();
    let doc = || Expr {
        stream: stream("doc"),
        kind: ExprKind::Path { name: Some("doc".to_string()) },
    };
    let other = Expr { stream: stream("5"), kind: ExprKind::Other };
    let tts = stream("(doc, 5, doc)");
    assert!(attr.apply_args(&tts, Args::Listed(vec![doc(), other, doc()])).is_err());
    assert!(attr.doc);
    let error = spanned(attr.apply_args(&tts, Args::Bare));
    assert_eq!(error, (tts.to_string(), "Expected (<...>)".to_string()));
    assert!(attr.apply_args(&tts, Args::Listed(vec![])).is_ok());
}

#[test]
fn reading_expressions() {
    match read_expr(&stream("name = Foo + 1")).unwrap().kind {
        ExprKind::Assign { left, name, right } => {
            assert_eq!(left.to_string(), "name");
            assert_eq!(name, Some("name".to_string()));
            assert_eq!(right.to_string(), "Foo + 1");
        }
        _ => panic!("no assignment"),
    }
    match read_args(&stream("(a, b)")).unwrap() {
        Args::Listed(exprs) => assert_eq!(exprs.len(), 2),
        Args::Bare => panic!("no list"),
    }
    match read_args(&stream("(a)")).unwrap() {
        Args::Listed(exprs) => assert_eq!(exprs[0].stream.to_string(), "a"),
        Args::Bare => panic!("no list"),
    }
    assert!(matches!(read_args(&stream("a")).unwrap(), Args::Bare));
    assert!(read_args(&stream("a b")).is_err());
    assert_eq!(expr_to_single_string(&stream("abc")), Some("abc".to_string()));
    assert_eq!(expr_to_single_string(&stream("#[x] abc")), Some("abc".to_string()));
    assert_eq!(expr_to_single_string(&stream("a::b")), None);
    assert_eq!(expr_to_single_string(&stream("1")), None);
    assert_eq!(expr_to_single_string(&stream("true")), None);
    assert_eq!(path_to_single_string(&stream("abc")), Some("abc".to_string()));
    assert_eq!(path_to_single_string(&stream("a::b")), None);
    assert_eq!(path_to_single_string(&stream("a<b>")), None);
}

#[test]
fn forms_of_expressions() {
    let path = |text: &str| ExprShape::Path(stream(text));
    assert_eq!(shape_to_single_string(&Some(path("a"))), Some("a".to_string()));
    assert_eq!(shape_to_single_string(&Some(path("a::b"))), None);
    assert_eq!(shape_to_single_string(&Some(ExprShape::Other)), None);
    assert_eq!(shape_to_single_string(&None), None);
    let assign = ExprShape::Assign(stream("a"), stream("b"));
    match ExprKind::new(assign, Some("a".to_string())) {
        ExprKind::Assign { left, name, right } => {
            assert_eq!(left.to_string(), "a");
            assert_eq!(name, Some("a".to_string()));
            assert_eq!(right.to_string(), "b");
        }
        _ => panic!("no assignment"),
    }
    match ExprKind::new(path("a"), None) {
        ExprKind::Path { name } => assert_eq!(name, Some("a".to_string())),
        _ => panic!("no path"),
    }
    assert!(matches!(ExprKind::new(ExprShape::Paren(stream("a")), None), ExprKind::Other));
    assert_eq!(list_arguments(ExprShape::Paren(stream("a"))).unwrap().len(), 1);
    assert_eq!(list_arguments(ExprShape::Tuple(vec![stream("a"), stream("b")])).unwrap().len(), 2);
    assert!(list_arguments(path("a")).is_none());
}

#[test]
fn unusual_names_are_escaped() {
    let error = spanned(read(vec![attribute("builder", "(größe)")]));
    assert_eq!(error.1, "Unknown parameter \"größe\"");
    let error = spanned(read(vec![attribute("builder", "(r#name = 1)")]));
    assert_eq!(error.1, "Unknown parameter \"r#name\"");
}

#[test]
fn texts_of_identifiers() {
    for text in vec!["a", "_", "_1", "fn", "A_b9", "größe", "変数"] {
        assert!(check_ident(text));
    }
    for text in vec!["", "1", "1a", "a b", "a-b", "r#a", "a\u{200b}", "€"] {
        assert!(!check_ident(text));
    }
    assert_eq!(Ident::new("größe").text(), "größe");
    assert_eq!(Ident::new("abc").stream().to_string(), "abc");
    assert!(Ident::from_stream(stream("a b")).is_none());
    assert!(Ident::from_stream(stream("1")).is_none());
    assert!(Ident::from_stream(stream("")).is_none());
    assert_eq!(Ident::from_stream(stream("r#fn")).unwrap().text(), "r#fn");
}

fn input(ident: &str, attrs: Vec<Attribute>) -> DeriveInput {
    DeriveInput {
        attrs,
        vis: stream("pub"),
        ident: Ident::from_stream(stream(ident)).unwrap(),
        generics: syn::Generics::default(),
    }
}

fn failed<'a>(message: &str) -> Result<Field<'a>, DeriveError> {
    Err(DeriveError::new_spanned(stream("x"), message))
}

#[test]
fn names_of_the_builder() {
    let ast = input("Foo", vec![attribute("builder", "(name = Make)")]);
    let info = StructInfo::try_new(&ast, vec![]).unwrap().unwrap();
    assert_eq!(info.builder_name.text(), "Make");
    assert_eq!(info.conversion_helper_trait_name.text(), "Make_Optional");
    assert_eq!(info.core.text(), "Make_core");
    assert_eq!(info.vis.to_string(), "pub");
    assert_eq!(info.name.text(), "Foo");
    for name in vec!["a::Make", "\"Make\"", "(Make)", "r#Make"] {
        let ast = input("Foo", vec![attribute("builder", &format!("(name = {})", name))]);
        assert!(StructInfo::try_new(&ast, vec![]).is_none());
    }
    assert!(StructInfo::try_new(&input("r#fn", vec![]), vec![]).is_none());
    let attr = TypeBuilderAttr::new(&ast.attrs).unwrap();
    assert_eq!(attr.builder_text(&ast.ident), "Make");
    assert_eq!(TypeBuilderAttr::default().builder_text(&ast.ident), "FooBuilder");
}

#[test]
fn errors_of_the_attributes_come_first_and_then_those_of_the_fields() {
    let ast = input("Foo", vec![attribute("builder", "(nope)")]);
    let error = spanned(StructInfo::new(&ast, vec![failed("one")]));
    assert_eq!(error.1, "Unknown parameter \"nope\"");
    let ast = input("r#fn", vec![]);
    let error = spanned(StructInfo::new(&ast, vec![failed("one"), failed("two")]));
    assert_eq!(error.1, "one");
    let (name, ty) = (Ident::new("a"), stream("u8"));
    let field = Field {
        name: &name,
        ty: &ty,
        generic_ident: Ident::new("__a"),
        builder_attr: FieldBuilderAttr { doc: None, exclude: false, default: None },
    };
    let error = spanned(StructInfo::try_new(&ast, vec![Ok(field), failed("two")]).unwrap());
    assert_eq!(error.1, "two");
}
