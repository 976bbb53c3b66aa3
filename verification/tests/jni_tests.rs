use quote::ToTokens;
use riko::codegen::normalize_source_code;
use riko::ir::{Crate, Function, Input, Module, Output};
use riko::jni::JniWriter;
use riko::rule::MarshalingRule;
use riko::syntax::{AttrStyle, Attribute, Meta, Path};
use riko::target::{bindgen, bridge_file, create_target_code_writers, Target};

fn plain(tokens: &str, last: &str) -> Path {
    Path {
        tokens: tokens.into(),
        leading_colon: false,
        last: Some(last.into()),
        first: riko::syntax::Argument::Absent,
    }
}

fn output(rule: MarshalingRule, unwrapped_type: Path, future: bool) -> Output {
    Output { rule, unwrapped_type, fallible: false, optional: false, future }
}

fn sample(functions: Vec<Function>) -> Crate {
    Crate {
        name: "riko_sample".into(),
        modules: vec![Module { functions, path: vec!["example".into()], cfg: vec![] }],
    }
}

fn named(inputs: Vec<Input>, output: Output) -> Function {
    Function { name: "function".into(), pubname: "function".into(), inputs, output, cfg: vec![] }
}

fn empty_module() -> Crate {
    riko::fixture::empty_module()
}

fn simple_function_ir() -> Crate {
    riko::fixture::simple_function()
}

fn returning_object_ir() -> Crate {
    riko::fixture::returning_object()
}

fn function_with_nothing_ir() -> Crate {
    riko::fixture::function_with_nothing()
}

fn function_async_ir() -> Crate {
    riko::fixture::function_async()
}

fn tokens(source: &str) -> String {
    syn::parse_str::<syn::ItemFn>(source).unwrap().into_token_stream().to_string()
}

fn bridge(ir: &Crate) -> String {
    tokens(&JniWriter.write_bridge_function(&ir.modules[0].functions[0], &ir.modules[0], ir))
}

fn target(ir: &Crate) -> String {
    JniWriter.write_target_function(&ir.modules[0].functions[0], &ir.modules[0], ir)
}

#[test]
fn full_function_name() {
    let none = riko::jni::full_function_name("function", &[]);
    assert_eq!("crate :: function", none);
    let some_1 = riko::jni::full_function_name("function", &["util".into()]);
    assert_eq!("crate :: util :: function", some_1);
    let some_2 = riko::jni::full_function_name("function", &["util".into(), "unix".into()]);
    assert_eq!("crate :: util :: unix :: function", some_2)
}

#[test]
fn mangle_function_name() {
    let none = riko::mangle::mangle_function_name("function", &[], "riko_sample");
    assert_eq!("Java_riko_1sample_Module__1_1riko_1function", none);
    let some_1 = riko::mangle::mangle_function_name("function", &["util".into()], "riko_sample");
    assert_eq!("Java_riko_1sample_util_Module__1_1riko_1function", some_1);
    let some_2 = riko::mangle::mangle_function_name(
        "function",
        &["util".into(), "unix".into()],
        "riko_sample",
    );
    assert_eq!("Java_riko_1sample_util_unix_Module__1_1riko_1function", some_2)
}

#[test]
fn mangling_tells_functions_apart() {
    let mangle = riko::mangle::mangle_function_name;
    assert_eq!(mangle("f", &["a".into(), "b".into()], "sample"), "Java_sample_a_b_Module__1_1riko_1f");
    assert_ne!(mangle("f", &["a_b".into()], "sample"), mangle("f", &["a".into(), "b".into()], "sample"));
    assert_ne!(mangle("f", &["a".into()], "sample_b"), mangle("f", &["b".into(), "a".into()], "sample"));
    assert_ne!(mangle("b_f", &["a".into()], "sample"), mangle("f", &["a".into(), "b".into()], "sample"));
    assert_ne!(mangle("f", &[], "Module"), mangle("f", &["Module".into()], ""));
    assert_eq!(mangle("_", &["_".into()], "_"), "Java__1__1_Module__1_1riko_1_1");
    assert_eq!(
        mangle("f", &["a".into()], "p"),
        mangle("f", &["a".into()], "p")
    );
    assert_eq!(riko::text::escape_underscores("a__b_"), "a_1_1b_1");
    assert_eq!(riko::text::escape_underscores(""), "");
    assert_eq!(riko::text::join(&["a".into(), "".into(), "b".into()], "--"), "a----b");
    assert_eq!(riko::text::join(&[], "--"), "");
    assert_eq!(riko::text::decimal(0), "0");
    assert_eq!(riko::text::decimal(10), "10");
    assert_eq!(riko::text::decimal(4096), "4096");
}

#[test]
fn symbol_and_class_of_a_nested_function() {
    let ir = Crate {
        name: "sample".into(),
        modules: vec![
            Module { functions: vec![], path: vec!["a".into()], cfg: vec![] },
            Module {
                functions: vec![named(vec![], output(MarshalingRule::Unit, Path::unit(), false))],
                path: vec!["a".into(), "b".into()],
                cfg: vec![],
            },
        ],
    };
    let function = &ir.modules[1].functions[0];
    let bridge = JniWriter.write_bridge_function(function, &ir.modules[1], &ir);
    assert!(bridge.contains("fn Java_sample_a_b_Module__1_1riko_1function("));
    assert!(bridge.contains("crate :: a :: b :: function()"));
    let class = JniWriter.write_target_module(&ir.modules[1], &ir);
    assert!(normalize_source_code(&class).starts_with(" package sample.a.b; public final class Module {"));
    let all = JniWriter.write_target_all(&ir);
    assert_eq!(all.len(), 2);
    assert_eq!(all[0].0, vec!["sample", "a", "Module.java"]);
    assert_eq!(all[1].0, vec!["sample", "a", "b", "Module.java"]);
    assert_eq!(all[1].1, class);
    assert_eq!(JniWriter.write_bridge_all(&ir), vec![bridge]);
}

#[test]
fn module() {
    let ir = &empty_module();
    let expected = r#"
            package riko_sample.example;

            public final class Module {
                private Module() {}
            }
        "#;
    let actual = JniWriter.write_target_module(&ir.modules[0], &ir);
    assert_eq!(normalize_source_code(expected), normalize_source_code(&actual),);
}

#[test]
fn simple_function() {
    let ir = simple_function_ir();

    let expected = r#"
            private static native byte[] __riko_function(
                byte[] arg_0,
                byte[] arg_1
            );
            public static org.bson. @ org.checkerframework.checker.nullness.qual.NonNull BsonValue function(
                final org.bson. @ org.checkerframework.checker.nullness.qual.Nullable BsonValue arg_0,
                final org.bson. @ org.checkerframework.checker.nullness.qual.Nullable BsonValue arg_1
            ) {
                final byte[] returned = __riko_function(
                    riko.Marshaler.encode(arg_0),
                    riko.Marshaler.encode(arg_1)
                );
                final org.bson.BsonValue result = riko
                  .Marshaler
                  .decode(returned)
                  .unwrap();
                return result;
            }
        "#;
    assert_eq!(normalize_source_code(expected), normalize_source_code(&target(&ir)),);

    let expected = tokens(
        r#"
            #[no_mangle]
            #[allow(clippy::useless_conversion)]
            #[allow(clippy::let_unit_value)]
            #[allow(clippy::unit_arg)]
            pub extern "C" fn Java_riko_1sample_example_Module__1_1riko_1function(
                _env: ::jni::JNIEnv,
                _class: ::jni::objects::JClass,
                arg_0_jni: ::jni::sys::jbyteArray,
                arg_1_jni: ::jni::sys::jbyteArray
            ) -> ::jni::sys::jbyteArray {
                let result = crate::example::function(
                    &(::riko_runtime_jni::unmarshal(&_env, arg_0_jni)),
                    ::riko_runtime_jni::unmarshal(&_env, arg_1_jni)
                );
                let result: ::riko_runtime::returned::Returned<::std::string::String> = result.into();
                ::riko_runtime_jni::marshal(&result, &_env)
            }
        "#,
    );
    assert_eq!(expected, bridge(&ir));
}

#[test]
fn returning_object() {
    let ir = returning_object_ir();

    let expected = r#"
            private static native byte[] __riko_function(
            );
            public static riko. @ org.checkerframework.checker.nullness.qual.NonNull Object function(
            ) {
                final byte[] returned = __riko_function(
                );
                final org.bson.BsonValue result = riko
                  .Marshaler
                  .decode(returned)
                  .unwrap();
                return new riko.Object(result.asInt32().intValue());
            }
        "#;
    assert_eq!(normalize_source_code(expected), normalize_source_code(&target(&ir)),);

    let expected = tokens(
        r#"
            #[no_mangle]
            #[allow(clippy::useless_conversion)]
            #[allow(clippy::let_unit_value)]
            #[allow(clippy::unit_arg)]
            pub extern "C" fn Java_riko_1sample_example_Module__1_1riko_1function(
                _env: ::jni::JNIEnv,
                _class: ::jni::objects::JClass
            ) -> ::jni::sys::jbyteArray {
                let result = crate::example::function();
                let result = ::riko_runtime::object::Shelve::shelve(result);
                let result: ::riko_runtime::returned::Returned<::riko_runtime::Handle> = result.into();
                ::riko_runtime_jni::marshal(&result, &_env)
            }
        "#,
    );
    assert_eq!(expected, bridge(&ir));
}

#[test]
fn function_async() {
    let ir = function_async_ir();

    let expected = r#"
            private static native byte[] __riko_function( );
            public static riko. @ org.checkerframework.checker.nullness.qual.NonNull Future function( ) {
                riko.Initializer.initialize();
                final byte[] returned = __riko_function( );
                final org.bson.BsonValue result = riko
                    .Marshaler
                    .decode(returned)
                    .unwrap();
                return new riko.Future(result.asInt32().intValue());
            }
        "#;
    assert_eq!(normalize_source_code(expected), normalize_source_code(&target(&ir)),);

    let expected = tokens(
        r#"
            #[no_mangle]
            #[allow(clippy::useless_conversion)]
            #[allow(clippy::let_unit_value)]
            #[allow(clippy::unit_arg)]
            pub extern "C" fn Java_riko_1sample_example_Module__1_1riko_1function(
                _env: ::jni::JNIEnv,
                _class: ::jni::objects::JClass
            ) -> ::jni::sys::jbyteArray {
                let result = crate::example::function();
                let result = ::riko_runtime_jni::future::spawn::<_, _, ::std::string::String>(result);
                let result: ::riko_runtime::returned::Returned<::riko_runtime::Handle> = result.into();
                ::riko_runtime_jni::marshal(&result, &_env)
            }
        "#,
    );
    assert_eq!(expected, bridge(&ir));
}

#[test]
fn function_with_nothing() {
    let ir = function_with_nothing_ir();

    let expected = r#"
            private static native byte[] __riko_function(
            );
            public static void function(
            ) {
                final byte[] returned = __riko_function(
                );
                final org.bson.BsonValue result = riko
                  .Marshaler
                  .decode(returned)
                  .unwrap();
            }
        "#;
    assert_eq!(normalize_source_code(expected), normalize_source_code(&target(&ir)),);

    let expected = tokens(
        r#"
            #[no_mangle]
            #[allow(clippy::useless_conversion)]
            #[allow(clippy::let_unit_value)]
            #[allow(clippy::unit_arg)]
            pub extern "C" fn Java_riko_1sample_example_Module__1_1riko_1function(
                _env: ::jni::JNIEnv,
                _class: ::jni::objects::JClass
            ) -> ::jni::sys::jbyteArray {
                let result = crate::example::function();
                let result: ::riko_runtime::returned::Returned<()> = result.into();
                ::riko_runtime_jni::marshal(&result, &_env)
            }
        "#,
    );
    assert_eq!(expected, bridge(&ir));
}

#[test]
fn bridge_carries_the_guards_and_the_struct_type() {
    let guard = Attribute {
        style: AttrStyle::Outer,
        path: vec!["cfg".into()],
        tokens: "(feature = \"unix\")".into(),
        meta: Meta::List,
        args: None,
    };
    let mut love = plain("crate :: structs :: Love", "Love");
    love.leading_colon = true;
    let mut function = named(vec![], output(MarshalingRule::Struct("crate :: structs :: Love".into()), love, false));
    function.pubname = "rename".into();
    function.cfg = vec![guard.restyled(AttrStyle::Outer)];
    let ir = Crate {
        name: "sample".into(),
        modules: vec![Module { functions: vec![function], path: vec!["example".into()], cfg: vec![guard] }],
    };
    let text = JniWriter.write_bridge_function(&ir.modules[0].functions[0], &ir.modules[0], &ir);
    assert!(text.starts_with(
        "# [cfg (feature = \"unix\")]\n# [cfg (feature = \"unix\")]\n#[no_mangle]\n"
    ));
    assert!(text.contains("fn Java_sample_example_Module__1_1riko_1rename("));
    assert!(text.contains("let result = crate :: example :: function();"));
    assert!(text.contains("Returned<:: crate :: structs :: Love>"));
    assert!(syn::parse_str::<syn::ItemFn>(&text).is_ok());
}

#[test]
fn sequences_are_pooled() {
    let rule = MarshalingRule::Iterator(Box::new(MarshalingRule::String));
    let ir = sample(vec![named(vec![], output(rule, Path::ident("Numbers"), false))]);
    assert!(bridge(&ir).contains("Shelve :: shelve (result)"));
    assert!(bridge(&ir).contains("Returned < :: riko_runtime :: Handle >"));
    assert!(target(&ir).contains("return new riko.Iterator(result.asInt32().intValue());"));
    assert_eq!(
        riko::jni::target_type_public(&MarshalingRule::Unit, true, false),
        "void"
    );
    assert_eq!(
        riko::jni::target_type_public(&MarshalingRule::Object, true, false),
        "riko. @ org.checkerframework.checker.nullness.qual.Nullable Object"
    );
}

#[test]
fn normalizing_collapses_white_space() {
    assert_eq!(normalize_source_code("a \n\t b"), "a b");
    assert_eq!(normalize_source_code("  a  "), " a ");
    assert_eq!(normalize_source_code("ab"), "ab");
    assert_eq!(normalize_source_code(""), "");
}

#[test]
fn bindings_of_a_run() {
    let ir = simple_function_ir();
    assert!(!ir.is_closed() || ir.modules.len() == 1);
    let closed = Crate {
        name: "riko_sample".into(),
        modules: vec![
            Module { functions: vec![], path: vec!["example".into(), "deep".into()], cfg: vec![] },
            simple_function_ir().modules.remove(0),
            Module { functions: vec![], path: vec![], cfg: vec![] },
        ],
    };
    assert!(closed.is_closed());
    assert!(closed.has_ancestors(&["example".to_string()]));
    assert!(!closed.has_ancestors(&["example".to_string(), "other".to_string()]));
    let open = Crate {
        name: "riko_sample".into(),
        modules: vec![Module { functions: vec![], path: vec!["a".into(), "b".into()], cfg: vec![] }],
    };
    assert!(!open.is_closed());

    let output = vec!["target".to_string(), "riko".to_string()];
    assert_eq!(bridge_file(&output, "riko_sample"), vec!["target", "riko", "riko_sample.rs"]);
    let targets = ["pinvoke".to_string(), "jni".to_string(), "jni".to_string()];
    assert_eq!(create_target_code_writers(&targets), vec![Target::Jni]);
    assert_eq!(create_target_code_writers(&["pinvoke".to_string()]), vec![]);
    assert_eq!(Target::from_name("jni"), Some(Target::Jni));
    assert_eq!(Target::from_name("JNI"), None);
    assert_eq!(Target::Jni.name(), "jni");

    let bindings = bindgen(&closed, &output, &targets);
    assert_eq!(bindings.bridge_file, vec!["target", "riko", "riko_sample.rs"]);
    assert_eq!(bindings.bridge, JniWriter.write_bridge_all(&closed));
    assert_eq!(bindings.bridge.len(), 1);
    assert_eq!(bindings.stale, vec![vec!["target", "riko", "jni", "riko_sample"]]);
    assert_eq!(bindings.files.len(), 3);
    assert_eq!(
        bindings.files[0].0,
        vec!["target", "riko", "jni", "riko_sample", "example", "deep", "Module.java"]
    );
    assert_eq!(bindings.files[2].0, vec!["target", "riko", "jni", "riko_sample", "Module.java"]);
    assert_eq!(bindings.files[1].1, JniWriter.write_target_module(&closed.modules[1], &closed));

    let nothing = bindgen(&closed, &output, &[]);
    assert_eq!(nothing.bridge_file, bindings.bridge_file);
    assert!(nothing.bridge.is_empty() && nothing.stale.is_empty() && nothing.files.is_empty());
}

#[test]
fn segments_that_begin_with_a_digit_one_can_collide() {
    let mangle = riko::mangle::mangle_function_name;
    assert_eq!(mangle("f", &["1b".into()], "a"), mangle("f", &[], "a_b"));
    assert_ne!(mangle("f", &["2b".into()], "a"), mangle("f", &[], "a_b"));
    assert_ne!(mangle("1f", &[], "a"), mangle("_f", &[], "a"));
}

#[test]
fn sample_trees() {
    assert_eq!(empty_module(), sample(vec![]));
    assert_eq!(
        simple_function_ir(),
        sample(vec![named(
            vec![
                Input { rule: MarshalingRule::I32, borrow: true, unwrapped_type: Path::ident("i32") },
                Input { rule: MarshalingRule::I64, borrow: false, unwrapped_type: Path::ident("i64") },
            ],
            output(MarshalingRule::String, Path::ident("String"), false),
        )])
    );
    assert_eq!(
        returning_object_ir(),
        sample(vec![named(vec![], output(MarshalingRule::Object, plain("crate :: Love", "Love"), false))])
    );
    assert_eq!(
        function_with_nothing_ir(),
        sample(vec![named(vec![], output(MarshalingRule::Unit, Path::unit(), false))])
    );
    assert_eq!(
        function_async_ir(),
        sample(vec![named(vec![], output(MarshalingRule::String, Path::ident("String"), true))])
    );
}
