use proc_macro2::TokenStream;
use quote::ToTokens;
use typed_builder::builder_attr::Attribute;
use typed_builder::emit::{
    join_comma_separated, join_concatenated, new_code, new_doc_attribute, new_listing_attribute,
    new_string, push_code, push_word,
};
use typed_builder::error::DeriveError;
use typed_builder::field_info::{empty_type, Field, FieldBuilderAttr, FieldInfo};
use typed_builder::generics::bracket;
use typed_builder::ident::Ident;
use typed_builder::struct_info::{DeriveInput, StructInfo};

/// The tokens of a text, printed.
fn printed(text: &str) -> String {
    text.parse::<TokenStream>().unwrap().to_string()
}

fn stream(text: &str) -> TokenStream {
    text.parse::<TokenStream>().unwrap()
}

fn ident(text: &str) -> Ident {
    Ident::from_stream(stream(text)).unwrap()
}

/// A declaration, as `syn` reads it.
fn declaration(text: &str) -> DeriveInput {
    let ast: syn::DeriveInput = syn::parse_str(text).unwrap();
    let mut attrs = Vec::new();
    for attr in ast.attrs {
        attrs.push(Attribute { path: attr.path.into_token_stream(), tts: attr.tts });
    }
    DeriveInput {
        attrs,
        vis: ast.vis.into_token_stream(),
        ident: Ident::from_stream(ast.ident.into_token_stream()).unwrap(),
        generics: ast.generics,
    }
}

struct Parts {
    name: Ident,
    ty: TokenStream,
}

fn parts(name: &str, ty: &str) -> Parts {
    Parts { name: ident(name), ty: stream(ty) }
}

fn attr(doc: Option<&str>, exclude: bool, default: Option<&str>) -> FieldBuilderAttr {
    FieldBuilderAttr { doc: doc.map(stream), exclude, default: default.map(stream) }
}

fn field<'a>(parts: &'a Parts, builder_attr: FieldBuilderAttr) -> Result<Field<'a>, DeriveError> {
    let generic_ident = Ident::new(&format!("__{}", parts.name.text()));
    Ok(Field { name: &parts.name, ty: &parts.ty, generic_ident, builder_attr })
}

#[test]
fn creation_without_generics() {
    let ast = declaration("pub(crate) struct Foo { x: i32, y: String, z: u8 }");
    let (x, y, z) = (parts("x", "i32"), parts("y", "String"), parts("z", "u8"));
    let fields = vec![
        field(&x, attr(None, false, None)),
        field(&y, attr(None, false, Some("String::new()"))),
        field(&z, attr(None, true, Some("7"))),
    ];
    let info = StructInfo::new(&ast, fields).unwrap();
    assert_eq!(info.builder_name.text(), "FooBuilder");
    assert_eq!(info.conversion_helper_trait_name.text(), "FooBuilder_Optional");
    assert_eq!(info.core.text(), "FooBuilder_core");
    let expected = r#"
        extern crate core as FooBuilder_core;
        impl Foo {
            #[doc = "\n                    Create a builder for building `Foo`.\n                    On the builder, call `.x(...)`, `.y(...)`(optional) to set the values of the fields (they accept `Into` values).\n                    Finally, call `.build()` to create the instance of `Foo`.\n                    "]
            #[allow(dead_code, clippy::default_trait_access)]
            pub(crate) fn builder() -> FooBuilder<(), ()> {
                FooBuilder {
                    x: (),
                    y: ()
                }
            }
        }
        #[must_use]
        #[doc(hidden)]
        #[allow(dead_code, non_camel_case_types, non_snake_case, clippy::default_trait_access)]
        pub(crate) struct FooBuilder<__x, __y> {
            x: __x,
            y: __y
        }
    "#;
    assert_eq!(info.builder_creation_impl().unwrap().to_string(), printed(expected));
}

#[test]
fn creation_with_generics() {
    let ast = declaration(
        "#[builder(doc)] struct Foo<'a, 'b: 'a, T: Default = u8, const N: usize> where T: Clone { x: &'a T }",
    );
    let x = parts("x", "&'a T");
    let fields = vec![field(&x, attr(None, false, None))];
    let info = StructInfo::new(&ast, fields).unwrap();
    let expected = r#"
        extern crate core as FooBuilder_core;
        impl< 'a, 'b: 'a, T: Default, const N: usize> Foo< 'a, 'b, T, N> where T: Clone {
            #[doc = "\n                    Create a builder for building `Foo`.\n                    On the builder, call `.x(...)` to set the values of the fields (they accept `Into` values).\n                    Finally, call `.build()` to create the instance of `Foo`.\n                    "]
            #[allow(dead_code, clippy::default_trait_access)]
            fn builder() -> FooBuilder< 'a, 'b, T, N, ()> {
                FooBuilder {
                    __typed_builder_phantom_generics: FooBuilder_core::default::Default::default(),
                    x: ()
                }
            }
        }
        #[must_use]
        #[doc = "Builder for [`Foo`] instances.\n\nSee [`Foo::builder()`] for more info."]
        #[allow(dead_code, non_camel_case_types, non_snake_case, clippy::default_trait_access)]
        struct FooBuilder< 'a, 'b: 'a, T: Default = u8, const N: usize, __x> {
            __typed_builder_phantom_generics: (
                FooBuilder_core::marker::PhantomData< & 'a ()> ,
                FooBuilder_core::marker::PhantomData< & 'b: 'a ()> ,
                FooBuilder_core::marker::PhantomData<T> ,
                FooBuilder_core::marker::PhantomData<N>
            ),
            x: __x
        }
    "#;
    assert_eq!(info.builder_creation_impl().unwrap().to_string(), printed(expected));
}

#[test]
fn creation_with_given_docs() {
    let ast = declaration(
        r#"#[builder(builder_method_doc = "make", builder_type_doc = "a builder", name = Make)] struct Foo;"#,
    );
    let info = StructInfo::new(&ast, vec![]).unwrap();
    let expected = r#"
        extern crate core as Make_core;
        impl Foo {
            #[doc = "make"]
            #[allow(dead_code, clippy::default_trait_access)]
            fn builder() -> Make < > {
                Make { }
            }
        }
        #[must_use]
        #[doc = "a builder"]
        #[allow(dead_code, non_camel_case_types, non_snake_case, clippy::default_trait_access)]
        struct Make { }
    "#;
    assert_eq!(info.builder_creation_impl().unwrap().to_string(), printed(expected));
}

#[test]
fn trailing_comma_of_the_parameters() {
    let ast = declaration("struct Foo<T,>(T);");
    let info = StructInfo::new(&ast, vec![]).unwrap();
    let code = info.builder_creation_impl().unwrap().to_string();
    assert!(code.contains(&printed("fn builder() -> FooBuilder<T, >")));
    let x = parts("x", "u8");
    let fields = vec![field(&x, attr(None, false, None))];
    let info = StructInfo::new(&ast, fields).unwrap();
    let code = info.builder_creation_impl().unwrap().to_string();
    assert!(code.contains(&printed("fn builder() -> FooBuilder<T, ()>")));
    assert!(code.contains(&printed("struct FooBuilder<T, __x>")));
}

#[test]
fn conversion_helper() {
    let ast = declaration("struct Foo;");
    let info = StructInfo::new(&ast, vec![]).unwrap();
    let expected = r#"
        #[doc(hidden)]
        #[allow(dead_code, non_camel_case_types, non_snake_case, clippy::default_trait_access)]
        pub trait FooBuilder_Optional<T> {
            fn into_value<F: FnOnce() -> T>(self, default: F) -> T;
        }
        impl<T> FooBuilder_Optional<T> for () {
            fn into_value<F: FnOnce() -> T>(self, default: F) -> T {
                default()
            }
        }
        impl<T> FooBuilder_Optional<T> for (T,) {
            fn into_value<F: FnOnce() -> T>(self, _: F) -> T {
                self.0
            }
        }
    "#;
    assert_eq!(info.conversion_helper_impl().unwrap().to_string(), printed(expected));
}

#[test]
fn setter() {
    let ast = declaration("struct Foo<'a, T> where T: Clone { x: &'a T, y: String, z: u8, w: u8 }");
    let all = [parts("x", "&'a T"), parts("y", "String"), parts("z", "u8"), parts("w", "u8")];
    let fields = vec![
        field(&all[0], attr(None, false, None)),
        field(&all[1], attr(Some("\"set it\""), false, Some("String::new()"))),
        field(&all[2], attr(None, true, Some("7"))),
        field(&all[3], attr(None, false, None)),
    ];
    let info = StructInfo::new(&ast, fields).unwrap();
    let expected = r#"
        #[allow(dead_code, non_camel_case_types, missing_docs, clippy::default_trait_access)]
        impl< 'a, T, __x, __w> FooBuilder< 'a, T, __x, (), __w> where T: Clone {
            #[doc = "set it"]
            pub fn y<__y: FooBuilder_core::convert::Into<String>>(self, value: __y) -> FooBuilder< 'a, T, __x, (String,), __w> {
                FooBuilder {
                    __typed_builder_phantom_generics: self.__typed_builder_phantom_generics,
                    y: (value.into(),),
                    x: self.x,
                    w: self.w
                }
            }
        }
    "#;
    assert_eq!(info.field_impl(&info.fields[1]).unwrap().to_string(), printed(expected));
}

#[test]
fn setter_of_the_only_field() {
    let ast = declaration("struct Foo { x: i32 }");
    let x = parts("x", "i32");
    let info = StructInfo::new(&ast, vec![field(&x, attr(None, false, None))]).unwrap();
    let expected = r#"
        #[allow(dead_code, non_camel_case_types, missing_docs, clippy::default_trait_access)]
        impl FooBuilder<()> {
            pub fn x<__x: FooBuilder_core::convert::Into<i32>>(self, value: __x) -> FooBuilder<(i32,)> {
                FooBuilder {
                    x: (value.into(),),
                }
            }
        }
    "#;
    assert_eq!(info.field_impl(&info.fields[0]).unwrap().to_string(), printed(expected));
}

#[test]
fn build_method() {
    let ast = declaration("#[builder(doc)] struct Foo<T> where T: Clone { x: T, y: String, z: u8 }");
    let all = [parts("x", "T"), parts("y", "String"), parts("z", "u8")];
    let fields = vec![
        field(&all[0], attr(None, false, None)),
        field(&all[1], attr(None, false, Some("x.name()"))),
        field(&all[2], attr(None, true, Some("7"))),
    ];
    let info = StructInfo::new(&ast, fields).unwrap();
    let expected = r#"
        #[allow(dead_code, non_camel_case_types, missing_docs, clippy::default_trait_access)]
        impl<T, __y: FooBuilder_Optional<String> > FooBuilder<T, (T,), __y> where T: Clone {
            #[doc = "Finalise the builder and create its [`Foo`] instance"]
            pub fn build(self) -> Foo<T> {
                let x = self.x.0;
                let y = FooBuilder_Optional::into_value(self.y, || x.name());
                let z = 7;
                Foo {
                    x, y, z
                }
            }
        }
    "#;
    assert_eq!(info.build_method_impl().to_string(), printed(expected));
}

#[test]
fn build_method_docs() {
    let ast = declaration("struct Foo;");
    let info = StructInfo::new(&ast, vec![]).unwrap();
    let expected = r#"
        #[allow(dead_code, non_camel_case_types, missing_docs, clippy::default_trait_access)]
        impl FooBuilder < > {
            pub fn build(self) -> Foo { Foo { } }
        }
    "#;
    assert_eq!(info.build_method_impl().to_string(), printed(expected));
    let ast = declaration(r#"#[builder(build_method_doc = "done")] struct Foo;"#);
    let info = StructInfo::new(&ast, vec![]).unwrap();
    assert!(info.build_method_impl().to_string().contains(&printed("#[doc = \"done\"]")));
}

#[test]
fn raw_identifiers_are_kept() {
    let ast = declaration("struct Foo { r#type: u8 }");
    let (name, ty) = (ident("r#type"), stream("u8"));
    let part = Field {
        name: &name,
        ty: &ty,
        generic_ident: ident("r#Type"),
        builder_attr: attr(None, false, Some("1")),
    };
    let info = StructInfo::new(&ast, vec![Ok(part)]).unwrap();
    assert_eq!(info.fields[0].name.text(), "r#type");
    let code = info.builder_creation_impl().unwrap().to_string();
    assert!(code.contains(&printed("struct FooBuilder<r#Type> { r#type: r#Type }")));
    let code = info.build_method_impl().to_string();
    assert!(code.contains(&printed("impl<r#Type: FooBuilder_Optional<u8> > FooBuilder<r#Type>")));
    assert!(code.contains(&printed("let r#type =")));
}

#[test]
fn included_fields_keep_their_order_and_numbers() {
    let ast = declaration("struct Foo;");
    let all = [parts("a", "u8"), parts("b", "u8"), parts("c", "u8"), parts("d", "u8")];
    let fields = vec![
        field(&all[0], attr(None, true, Some("1"))),
        field(&all[1], attr(None, false, None)),
        field(&all[2], attr(None, true, Some("1"))),
        field(&all[3], attr(None, false, None)),
    ];
    let info = StructInfo::new(&ast, fields).unwrap();
    let included: Vec<&FieldInfo> = info.included_fields();
    let names: Vec<&str> = included.iter().map(|field| field.name.text()).collect();
    assert_eq!(names, vec!["b", "d"]);
    let ordinals: Vec<usize> = included.iter().map(|field| field.ordinal).collect();
    assert_eq!(ordinals, vec![1, 3]);
}

/// The arguments of the builder type in a piece of code, from a text on.
fn arguments_behind(code: &str, text: &str) -> String {
    let start = code.find(text).unwrap() + text.len();
    let end = start + code[start..].find('>').unwrap();
    code[start..end].to_string()
}

#[test]
fn the_states_of_the_builder_connect() {
    let ast = declaration("struct Foo { x: i32, y: u8 }");
    let all = [parts("x", "i32"), parts("y", "u8")];
    let fields =
        vec![field(&all[0], attr(None, false, None)), field(&all[1], attr(None, false, Some("1")))];
    let info = StructInfo::new(&ast, fields).unwrap();
    let creation = info.builder_creation_impl().unwrap().to_string();
    let setter = info.field_impl(&info.fields[0]).unwrap().to_string();
    let build = info.build_method_impl().to_string();
    assert_eq!(arguments_behind(&creation, "-> FooBuilder <"), " ( ) , ( ) ");
    assert_eq!(arguments_behind(&setter, "impl < __y > FooBuilder <"), " ( ) , __y ");
    assert_eq!(arguments_behind(&setter, "-> FooBuilder <"), " ( i32 , ) , __y ");
    assert_eq!(arguments_behind(&build, "> FooBuilder <"), " ( i32 , ) , __y ");
}

#[test]
fn without_an_excluded_field_the_builder_is_the_same() {
    let ast = declaration("struct Foo<T> { w: u8, x: T, y: u8 }");
    let all = [parts("w", "u8"), parts("x", "T"), parts("y", "u8")];
    let with = StructInfo::new(
        &ast,
        vec![
            field(&all[0], attr(None, true, Some("1"))),
            field(&all[1], attr(None, false, None)),
            field(&all[2], attr(None, false, Some("2"))),
        ],
    )
    .unwrap();
    let without = StructInfo::new(
        &ast,
        vec![field(&all[1], attr(None, false, None)), field(&all[2], attr(None, false, Some("2")))],
    )
    .unwrap();
    assert_eq!(
        with.builder_creation_impl().unwrap().to_string(),
        without.builder_creation_impl().unwrap().to_string()
    );
    for k in 0..2 {
        assert_eq!(
            with.field_impl(with.included_fields()[k]).unwrap().to_string(),
            without.field_impl(without.included_fields()[k]).unwrap().to_string()
        );
    }
    assert_ne!(with.build_method_impl().to_string(), without.build_method_impl().to_string());
}

#[test]
fn lifetimes_behind_types() {
    let mut ast = declaration("struct Foo<T>(T);");
    ast.generics.params.push(syn::parse_str("'a").unwrap());
    let x = parts("x", "T");
    let info = StructInfo::new(&ast, vec![field(&x, attr(None, false, None))]).unwrap();
    let creation = info.builder_creation_impl().unwrap().to_string();
    let setter = info.field_impl(&info.fields[0]).unwrap().to_string();
    let build = info.build_method_impl().to_string();
    assert_eq!(arguments_behind(&creation, "-> FooBuilder <"), " 'a , T , ( ) ");
    assert_eq!(arguments_behind(&creation, "struct FooBuilder <"), " 'a , T , __x ");
    assert_eq!(arguments_behind(&setter, "> FooBuilder <"), " T , 'a , ( ) ");
    assert_eq!(arguments_behind(&build, "> FooBuilder <"), " 'a , T , ( T , ) ");
}

#[test]
fn fields_are_bound_in_order() {
    let ast = declaration("struct Foo { b: u8, a: u8 }");
    let all = [parts("b", "u8"), parts("a", "u8")];
    let info = StructInfo::new(
        &ast,
        vec![
            field(&all[0], attr(None, false, None)),
            field(&all[1], attr(None, true, Some("b + 1"))),
        ],
    )
    .unwrap();
    let build = info.build_method_impl().to_string();
    assert!(build.contains(&printed("let b = self.b.0; let a = b + 1; Foo { b, a }")));
}

#[test]
fn pieces_of_code() {
    assert_eq!(new_code("fn f_1 -> a::B<C>; ..=").to_string(), printed("fn f_1 -> a::B<C>; ..="));
    assert_eq!(new_code("").to_string(), "");
    let mut code = new_code("a");
    push_code(&mut code, "+= b");
    push_word(&mut code, &ident("r#type"));
    assert_eq!(code.to_string(), printed("a += b r#type"));
    assert_eq!(new_string("a \"b\" \n").to_string(), "\"a \\\"b\\\" \\n\"");
    let list = vec![stream("a b"), stream(""), stream("c")];
    assert_eq!(join_comma_separated(&list).to_string(), printed("a b , , c"));
    assert_eq!(join_concatenated(&list).to_string(), printed("a b c"));
    assert_eq!(new_doc_attribute(&stream("x")).to_string(), printed("#[doc = x]"));
    assert_eq!(new_listing_attribute("a", "b, c").to_string(), printed("#[a(b, c)]"));
    assert_eq!(bracket(&list[0..1].to_vec()).to_string(), printed("< a b >"));
    assert_eq!(empty_type().to_string(), printed("()"));
}
