use riko::ir::{Function, Input, Output};
use riko::parse::Fun;
use riko::rule::MarshalingRule;
use riko::scan::{module_file_candidates, resolve_module_path, Error, ErrorSource, ModuleFile};
use riko::syntax::{
    Argument, AttrStyle, Attribute, FnArg, Item, ItemFn, ItemMod, Lit, Meta, ModContent,
    NestedMeta, Path, ReturnType, Type,
};
use riko::ir::Module;
use riko::ir::Crate;
use riko::tree::SourceFile;
use riko::util;
use riko::util::SyntaxError;

fn plain(tokens: &str, last: &str) -> Path {
    Path { tokens: tokens.into(), leading_colon: false, last: Some(last.into()), first: Argument::Absent }
}

fn wrapping(tokens: &str, last: &str, inner: Type) -> Path {
    Path {
        tokens: tokens.into(),
        leading_colon: false,
        last: Some(last.into()),
        first: Argument::Type(Box::new(inner)),
    }
}

fn names(layers: Vec<Path>) -> Vec<String> {
    layers.into_iter().map(|layer| layer.last.unwrap_or_default()).collect()
}

fn option_bool() -> Path {
    wrapping("Option < bool >", "Option", Type::Path(Path::ident("bool")))
}

fn future_bool() -> Path {
    Path {
        tokens: "Future < Output = bool >".into(),
        leading_colon: false,
        last: Some("Future".into()),
        first: Argument::Binding("Output".into(), Box::new(Type::Path(Path::ident("bool")))),
    }
}

fn result_bool() -> Path {
    wrapping("Result < bool , Error >", "Result", Type::Path(Path::ident("bool")))
}

fn result_option_bool() -> Path {
    wrapping("Result < Option < bool > , Error >", "Result", Type::Path(option_bool()))
}

fn arc_result_option_love() -> Path {
    let option = wrapping("Option < Love >", "Option", Type::Path(Path::ident("Love")));
    let result = wrapping("Result < Option < Love > >", "Result", Type::Path(option));
    wrapping(
        "std :: sync :: Arc < Result < Option < Love > > , anyhow :: Error >",
        "Arc",
        Type::Path(result),
    )
}

fn result_unit() -> Path {
    wrapping("Result < () , Error >", "Result", Type::Tuple(0))
}

fn vec_u8() -> Path {
    wrapping("Vec < u8 >", "Vec", Type::Path(Path::ident("u8")))
}

fn attr(path: &[&str], tokens: &str, meta: Meta, args: Option<Vec<NestedMeta>>) -> Attribute {
    Attribute {
        style: AttrStyle::Outer,
        path: path.iter().map(|s| s.to_string()).collect(),
        tokens: tokens.into(),
        meta,
        args,
    }
}

fn marshal_attr(rule: &str) -> Attribute {
    attr(
        &["riko", "marshal"],
        &format!("= \"{}\"", rule),
        Meta::NameValue(Lit::Str(rule.into())),
        None,
    )
}

fn cfg_attr(style: AttrStyle, feature: &str) -> Attribute {
    Attribute {
        style,
        path: vec!["cfg".into()],
        tokens: format!("(feature = \"{}\")", feature),
        meta: Meta::List,
        args: None,
    }
}

fn fun_attr() -> Attribute {
    attr(&["riko", "fun"], "", Meta::Path, None)
}

fn key_value(name: &str, value: &str) -> NestedMeta {
    NestedMeta::NameValue(Some(name.into()), Lit::Str(value.into()))
}

#[test]
fn type_layers() {
    assert_eq!(vec!["Option", "bool"], names(util::type_layers(option_bool())));
    assert_eq!(vec!["Future", "bool"], names(util::type_layers(future_bool())));
    assert_eq!(vec!["Result", "bool"], names(util::type_layers(result_bool())));
    assert_eq!(vec!["Result", "Option", "bool"], names(util::type_layers(result_option_bool())));
    assert_eq!(
        vec!["Arc", "Result", "Option", "Love"],
        names(util::type_layers(arc_result_option_love()))
    );
    assert_eq!(vec!["Result", ""], names(util::type_layers(result_unit())));
}

#[test]
fn type_layer_iter_steps() {
    let mut iter = riko::util::TypeLayerIter::new(result_option_bool());
    assert_eq!(iter.next().unwrap().tokens, "Result < Option < bool > , Error >");
    assert_eq!(iter.next().unwrap().tokens, "Option < bool >");
    assert_eq!(iter.next().unwrap().tokens, "bool");
    assert_eq!(iter.next(), None);
    assert_eq!(iter.next(), None);

    let mut unit = riko::util::TypeLayerIter::new(result_unit());
    assert_eq!(unit.next().unwrap().last, Some("Result".to_string()));
    assert_eq!(unit.next(), Some(Path::unit()));
    assert_eq!(unit.next(), None);
}

#[test]
fn layers_stop_at_other_arguments() {
    let lifetime = Path {
        tokens: "Option < 'a >".into(),
        leading_colon: false,
        last: Some("Option".into()),
        first: Argument::Other,
    };
    assert_eq!(vec!["Option"], names(util::type_layers(lifetime)));
    let binding = Path {
        tokens: "Iterator < Item = bool >".into(),
        leading_colon: false,
        last: Some("Iterator".into()),
        first: Argument::Binding("Item".into(), Box::new(Type::Path(Path::ident("bool")))),
    };
    assert_eq!(vec!["Iterator"], names(util::type_layers(binding)));
    let tuple = wrapping("Option < (u8 , u8) >", "Option", Type::Tuple(2));
    assert_eq!(vec!["Option"], names(util::type_layers(tuple)));
    assert_eq!(util::unwrap_type(wrapping("Option < (u8 , u8) >", "Option", Type::Tuple(2))), Path::unit());
}

#[test]
fn unwrap_type() {
    assert_eq!("bool", util::unwrap_type(option_bool()).tokens);
    assert_eq!("bool", util::unwrap_type(future_bool()).tokens);
    assert_eq!("bool", util::unwrap_type(result_bool()).tokens);
    assert_eq!("bool", util::unwrap_type(result_option_bool()).tokens);
    assert_eq!("Love", util::unwrap_type(arc_result_option_love()).tokens);
    assert_eq!("", util::unwrap_type(result_unit()).tokens);
    assert_eq!("Vec < u8 >", util::unwrap_type(vec_u8()).tokens);
    let option_vec = wrapping("Option < Vec < u8 > >", "Option", Type::Path(vec_u8()));
    assert_eq!("Vec < u8 >", util::unwrap_type(option_vec).tokens);
}

#[test]
fn unwrap_is_idempotent() {
    let once = util::unwrap_type(arc_result_option_love());
    let twice = util::unwrap_type(util::unwrap_type(arc_result_option_love()));
    assert_eq!(once, twice);
    assert_eq!(util::unwrap_type(Path::unit()), Path::unit());
}

#[test]
fn ir_MarshalingRule_infer() {
    assert_eq!(MarshalingRule::infer(&Path::ident("ByteBuf")), MarshalingRule::Bytes);
    assert_eq!(MarshalingRule::infer(&Path::ident("String")), MarshalingRule::String);
    assert_eq!(
        MarshalingRule::infer(&plain("std :: string :: String", "String")),
        MarshalingRule::String
    );
    let mut rooted = plain("std :: string :: String", "String");
    rooted.leading_colon = true;
    assert_eq!(MarshalingRule::infer(&rooted), MarshalingRule::String);
    assert_eq!(MarshalingRule::infer(&Path::ident("bool")), MarshalingRule::Bool);
    assert_eq!(
        MarshalingRule::infer(&plain("crate :: Love", "Love")),
        MarshalingRule::Struct("crate :: Love".into())
    );
}

#[test]
fn infer_table() {
    assert_eq!(MarshalingRule::infer_text("i8"), MarshalingRule::I8);
    assert_eq!(MarshalingRule::infer_text("i32"), MarshalingRule::I32);
    assert_eq!(MarshalingRule::infer_text("i64"), MarshalingRule::I64);
    assert_eq!(MarshalingRule::infer_text(""), MarshalingRule::Unit);
    assert_eq!(MarshalingRule::infer_text("  "), MarshalingRule::Unit);
    assert_eq!(MarshalingRule::infer_text("serde_bytes :: ByteBuf"), MarshalingRule::Bytes);
    assert_eq!(MarshalingRule::infer_text("u8"), MarshalingRule::Struct("u8".into()));
    assert_eq!(
        MarshalingRule::infer(&util::unwrap_type(result_option_bool())),
        MarshalingRule::infer(&Path::ident("bool"))
    );
}

#[test]
fn MarshalingRule_parse_rule() {
    assert_eq!(
        MarshalingRule::parse("Serde<org::example::Love>"),
        Some(MarshalingRule::Struct("org::example::Love".into()))
    );
    assert_eq!(
        MarshalingRule::parse("Struct<org::example::Love>"),
        Some(MarshalingRule::Struct("org::example::Love".into()))
    );
    assert_eq!(MarshalingRule::parse("String"), Some(MarshalingRule::String));
    assert_eq!(
        MarshalingRule::parse("Iterator<String>"),
        Some(MarshalingRule::Iterator(Box::new(MarshalingRule::String)))
    );
    assert_eq!(
        MarshalingRule::parse("Iterator<Iterator<I8>>"),
        Some(MarshalingRule::Iterator(Box::new(MarshalingRule::Iterator(Box::new(
            MarshalingRule::I8
        )))))
    );
    assert_eq!(MarshalingRule::parse("Struct"), Some(MarshalingRule::Struct(String::new())));
    assert_eq!(MarshalingRule::parse("Serde"), None);
    assert_eq!(MarshalingRule::parse("Iterator<>"), None);
    assert_eq!(MarshalingRule::parse("Iterator<Nothing>"), None);
    assert_eq!(MarshalingRule::parse("Iterator<String"), None);
    assert_eq!(MarshalingRule::from_name("Object"), Some(MarshalingRule::Object));
    assert_eq!(MarshalingRule::from_name("Unit"), Some(MarshalingRule::Unit));
    assert_eq!(MarshalingRule::from_name("Bool"), Some(MarshalingRule::Bool));
    assert_eq!(MarshalingRule::from_name("Bytes"), Some(MarshalingRule::Bytes));
    assert_eq!(MarshalingRule::from_name("unit"), None);
}

#[test]
fn parse_Fun_parse() {
    let expected = Fun { name: "function2".to_owned(), marshal: Some(MarshalingRule::String) };
    let actual =
        Fun::try_from(&vec![key_value("name", "function2"), key_value("marshal", "String")]);
    assert_eq!(Ok(expected), actual);
}

#[test]
fn fun_argument_errors() {
    let message = |r: Result<Fun, SyntaxError>| r.unwrap_err().message;
    assert_eq!(
        message(Fun::try_from(&vec![key_value("other", "x")])),
        "Unrecognized argument"
    );
    assert_eq!(message(Fun::try_from(&vec![NestedMeta::Other])), "Not a key-value");
    assert_eq!(
        message(Fun::try_from(&vec![NestedMeta::NameValue(Some("name".into()), Lit::Other)])),
        "Expect a string literal"
    );
    assert_eq!(
        message(Fun::try_from(&vec![key_value("marshal", "Nothing")])),
        "No such marshaling rule"
    );
    assert_eq!(
        message(Fun::try_from(&vec![key_value("marshal", "Nothing"), NestedMeta::Other])),
        "No such marshaling rule"
    );
    assert_eq!(
        message(Fun::try_from(&vec![NestedMeta::NameValue(None, Lit::Other)])),
        "Unrecognized argument"
    );
    let broken = attr(&["riko", "fun"], "= 1", Meta::NameValue(Lit::Other), None);
    assert_eq!(
        Fun::take_from(&vec![broken]).unwrap_err().message,
        "Expect a list of arguments"
    );
    assert_eq!(Fun::take_from(&vec![fun_attr()]), Ok(Some(Fun::empty())));
    assert_eq!(Fun::take_from(&vec![cfg_attr(AttrStyle::Outer, "x")]), Ok(None));
}

fn sample_function() -> ItemFn {
    ItemFn {
        attrs: vec![attr(
            &["riko", "fun"],
            "(marshal = \"I32\" , name = \"function2\")",
            Meta::List,
            Some(vec![key_value("marshal", "I32"), key_value("name", "function2")]),
        )],
        ident: "function".into(),
        asyncness: false,
        inputs: vec![
            FnArg::Typed(vec![], Type::Path(Path::ident("bool"))),
            FnArg::Typed(
                vec![marshal_attr("Bytes")],
                Type::Reference(Box::new(Type::Path(Path::ident("String")))),
            ),
        ],
        output: ReturnType::Type(Type::Path(vec_u8())),
    }
}

#[test]
fn function() {
    let function = sample_function();
    let args = Fun::take_from(&function.attrs).unwrap().unwrap();
    assert_eq!(args, Fun { name: "function2".into(), marshal: Some(MarshalingRule::I32) });

    let expected = Function {
        name: "function".into(),
        inputs: vec![
            Input {
                rule: MarshalingRule::Bool,
                borrow: false,
                unwrapped_type: Path::ident("bool"),
            },
            Input {
                rule: MarshalingRule::Bytes,
                borrow: true,
                unwrapped_type: Path::ident("String"),
            },
        ],
        output: Output::parse(&function.output, Some(MarshalingRule::I32), false).unwrap(),
        pubname: "function2".into(),
        cfg: Default::default(),
    };
    let actual = Function::parse(&function, args).unwrap();
    assert_eq!(expected, actual);
    assert_eq!(actual.output.rule, MarshalingRule::I32);
    assert_eq!(actual.output.unwrapped_type, vec_u8());
}

#[test]
fn function_keeps_its_name_without_override() {
    let mut function = sample_function();
    function.attrs = vec![fun_attr()];
    let args = Fun::take_from(&function.attrs).unwrap().unwrap();
    let actual = Function::parse(&function, args).unwrap();
    assert_eq!(actual.pubname, "function");
    assert_eq!(actual.name, "function");
    assert_eq!(actual.output.rule, MarshalingRule::Struct("Vec < u8 >".into()));
}

#[test]
fn input() {
    assert_eq!(
        Input { rule: MarshalingRule::String, borrow: false, unwrapped_type: Path::ident("String") },
        Input::parse(&FnArg::Typed(vec![], Type::Path(Path::ident("String")))).unwrap(),
    );
    assert_eq!(
        Input { rule: MarshalingRule::String, borrow: false, unwrapped_type: Path::ident("usize") },
        Input::parse(&FnArg::Typed(
            vec![marshal_attr("String")],
            Type::Path(Path::ident("usize"))
        ))
        .unwrap(),
    );
    assert_eq!(
        Input { rule: MarshalingRule::Bytes, borrow: true, unwrapped_type: Path::ident("ByteBuf") },
        Input::parse(&FnArg::Typed(
            vec![],
            Type::Reference(Box::new(Type::Path(Path::ident("ByteBuf"))))
        ))
        .unwrap(),
    );
    assert_eq!(
        Input { rule: MarshalingRule::I32, borrow: true, unwrapped_type: vec_u8() },
        Input::parse(&FnArg::Typed(
            vec![marshal_attr("I32")],
            Type::Reference(Box::new(Type::Path(vec_u8())))
        ))
        .unwrap(),
    );
    assert_eq!(
        Input { rule: MarshalingRule::String, borrow: false, unwrapped_type: Path::ident("String") },
        Input::parse(&FnArg::Typed(vec![], Type::Path(Path::ident("String")))).unwrap(),
    );
}

#[test]
fn input_errors() {
    assert_eq!(
        Input::parse(&FnArg::Receiver).unwrap_err().message,
        "`#[fun]` on a method not implemented"
    );
    assert_eq!(
        Input::parse(&FnArg::Typed(vec![], Type::Other)).unwrap_err().message,
        "Expect a type path or a unit"
    );
    assert_eq!(
        Input::parse(&FnArg::Typed(vec![], Type::Tuple(2))).unwrap_err().message,
        "Expect a type path or a unit"
    );
    assert_eq!(
        Input::parse(&FnArg::Typed(vec![marshal_attr("Nothing")], Type::Path(Path::ident("u8"))))
            .unwrap_err()
            .message,
        "No such marshaling rule"
    );
    let bare = attr(&["riko", "marshal"], "", Meta::Path, None);
    assert_eq!(
        Input::parse(&FnArg::Typed(vec![bare], Type::Path(Path::ident("u8"))))
            .unwrap_err()
            .message,
        "Expect a marshaling rule"
    );
    let invalid = attr(&["riko", "marshal"], "!", Meta::Invalid("unexpected token".into()), None);
    assert_eq!(
        Input::parse(&FnArg::Typed(vec![invalid], Type::Path(Path::ident("u8"))))
            .unwrap_err()
            .message,
        "unexpected token"
    );
}

#[test]
fn output() {
    let bool_output = |rule| Output {
        rule,
        unwrapped_type: Path::ident("bool"),
        fallible: false,
        optional: false,
        future: false,
    };
    assert_eq!(
        bool_output(MarshalingRule::Bool),
        Output::parse(&ReturnType::Type(Type::Path(Path::ident("bool"))), None, false).unwrap(),
    );
    assert_eq!(
        bool_output(MarshalingRule::I32),
        Output::parse(
            &ReturnType::Type(Type::Path(Path::ident("bool"))),
            Some(MarshalingRule::I32),
            false
        )
        .unwrap(),
    );
    assert_eq!(
        Output {
            rule: MarshalingRule::I32,
            unwrapped_type: Path::ident("bool"),
            fallible: true,
            optional: true,
            future: false,
        },
        Output::parse(
            &ReturnType::Type(Type::Path(result_option_bool())),
            Some(MarshalingRule::I32),
            false
        )
        .unwrap(),
    );
    assert_eq!(
        Output::default(),
        Output::parse(&ReturnType::Type(Type::Tuple(0)), None, false).unwrap(),
    );
    assert_eq!(Output::default(), Output::parse(&ReturnType::Default, None, false).unwrap());
}

#[test]
fn output_flags() {
    let deferred = Output::parse(&ReturnType::Type(Type::Path(future_bool())), None, false).unwrap();
    assert!(deferred.future && !deferred.fallible && !deferred.optional);
    let asynchronous =
        Output::parse(&ReturnType::Type(Type::Path(result_bool())), None, true).unwrap();
    assert!(asynchronous.future && asynchronous.fallible && !asynchronous.optional);
    assert_eq!(asynchronous.rule, MarshalingRule::Bool);
    assert_eq!(
        Output::parse(&ReturnType::Type(Type::Other), None, false).unwrap_err().message,
        "Expect a type path or a unit"
    );
}

fn guarded_tree() -> ItemMod {
    let function = ItemFn {
        attrs: vec![
            cfg_attr(AttrStyle::Outer, "function_outer"),
            fun_attr(),
            cfg_attr(AttrStyle::Inner, "function_inner"),
        ],
        ident: "function".into(),
        asyncness: false,
        inputs: vec![],
        output: ReturnType::Default,
    };
    let linux = ItemMod {
        attrs: vec![
            cfg_attr(AttrStyle::Outer, "util_outer"),
            cfg_attr(AttrStyle::Inner, "util_inner"),
        ],
        ident: "linux".into(),
        content: ModContent::Inline(vec![Item::Fn(function)]),
    };
    ItemMod {
        attrs: vec![
            cfg_attr(AttrStyle::Outer, "riko_outer"),
            cfg_attr(AttrStyle::Inner, "riko_inner"),
        ],
        ident: "util".into(),
        content: ModContent::Inline(vec![Item::Mod(linux)]),
    }
}

#[test]
fn cfg() {
    let ir = Crate {
        name: "riko_sample".into(),
        modules: Module::parse_module(&guarded_tree(), &vec![], &vec![]).unwrap(),
    };

    let expected = [
        r#"# [cfg (feature = "riko_outer")]"#,
        r#"# [cfg (feature = "riko_inner")]"#,
        r#"# [cfg (feature = "util_outer")]"#,
        r#"# [cfg (feature = "util_inner")]"#,
        r#"# [cfg (feature = "function_outer")]"#,
        r#"# [cfg (feature = "function_inner")]"#,
    ]
    .iter()
    .map(|s| s.to_string())
    .collect::<Vec<_>>();
    let actual = ir.modules[0].functions[0]
        .collect_cfg(&ir.modules[0], &ir)
        .into_iter()
        .map(|a| a.to_text())
        .collect::<Vec<_>>();

    assert_eq!(expected, actual)
}

#[test]
fn inline_modules_extend_the_parent_path() {
    let modules = Module::parse_module(&guarded_tree(), &vec!["top".into()], &vec![]).unwrap();
    assert_eq!(modules.len(), 2);
    assert_eq!(modules[0].path, vec!["top", "util", "linux"]);
    assert_eq!(modules[1].path, vec!["top", "util"]);
    assert_eq!(modules[0].functions.len(), 1);
    assert!(modules[1].functions.is_empty());
}

fn marked(name: &str) -> ItemFn {
    ItemFn {
        attrs: vec![fun_attr()],
        ident: name.into(),
        asyncness: false,
        inputs: vec![],
        output: ReturnType::Default,
    }
}

#[test]
fn scan_skips_what_is_ignored_or_unmarked() {
    let mut hidden = marked("hidden");
    hidden.attrs.insert(0, attr(&["riko", "ignore"], "", Meta::Path, None));
    let bridge = ItemMod {
        attrs: vec![attr(&["riko", "ignore"], "", Meta::Path, None)],
        ident: "bridge".into(),
        content: ModContent::Inline(vec![Item::Fn(marked("inside"))]),
    };
    let missing = ItemMod { attrs: vec![], ident: "later".into(), content: ModContent::Missing };
    let loaded = ItemMod {
        attrs: vec![cfg_attr(AttrStyle::Outer, "declaration")],
        ident: "object".into(),
        content: ModContent::Loaded(
            vec!["src".into(), "object.rs".into()],
            vec![cfg_attr(AttrStyle::Inner, "file")],
            vec![Item::Fn(marked("create"))],
        ),
    };
    let file = SourceFile {
        attrs: vec![],
        items: vec![
            Item::Fn(riko::sample::ignored()),
            Item::Fn(hidden),
            Item::Mod(bridge),
            Item::Other,
            Item::Mod(missing),
            Item::Fn(marked("nothing")),
            Item::Mod(loaded),
            Item::Fn(marked("rename")),
        ],
    };
    let root =
        Crate::parse(&file, &vec!["src".into(), "lib.rs".into()], "riko_sample".into()).unwrap();
    assert_eq!(root.name, "riko_sample");
    assert_eq!(root.modules.len(), 2);
    assert_eq!(root.modules[0].path, vec!["object"]);
    assert_eq!(root.modules[0].functions[0].name, "create");
    assert_eq!(root.modules[0].cfg.len(), 1);
    assert_eq!(root.modules[0].cfg[0].to_text(), "# [cfg (feature = \"file\")]");
    assert!(root.modules[1].path.is_empty());
    let found: Vec<&str> = root.modules[1].functions.iter().map(|f| f.name.as_str()).collect();
    assert_eq!(found, vec!["nothing", "rename"]);
    assert_eq!(root.find_module(&["object".to_string()]), Some(0));
    assert_eq!(root.find_module(&[]), Some(1));
    assert_eq!(root.find_module(&["nowhere".to_string()]), None);
}

#[test]
fn scan_errors_name_the_file() {
    let mut broken = marked("broken");
    broken.inputs.push(FnArg::Typed(vec![], Type::Other));
    let file = SourceFile { attrs: vec![], items: vec![Item::Fn(broken), Item::Fn(marked("fine"))] };
    let src = vec!["src".to_string(), "lib.rs".to_string()];
    let error = Crate::parse(&file, &src, "sample".into()).unwrap_err();
    assert_eq!(
        error,
        Error {
            file: src.clone(),
            source: ErrorSource::Riko(SyntaxError {
                message: "Expect a type path or a unit".into(),
                position: None
            }),
        }
    );

    let bad_path = ItemMod {
        attrs: vec![attr(&["path"], "= 1", Meta::NameValue(Lit::Other), None)],
        ident: "child".into(),
        content: ModContent::Inline(vec![]),
    };
    let file = SourceFile { attrs: vec![], items: vec![Item::Mod(bad_path)] };
    let error = Crate::parse(&file, &src, "sample".into()).unwrap_err();
    assert_eq!(
        error,
        Error {
            file: src,
            source: ErrorSource::Parse(SyntaxError {
                message: "Expect a file path literal".into(),
                position: None
            }),
        }
    );
}

fn external(name: &str, attrs: Vec<Attribute>) -> ItemMod {
    ItemMod { attrs, ident: name.into(), content: ModContent::Missing }
}

fn segments(path: &[&str]) -> Vec<String> {
    path.iter().map(|s| s.to_string()).collect()
}

#[test]
fn module_files_at_the_root() {
    let parent = segments(&["crate", "src", "lib.rs"]);
    let child = external("util", vec![]);
    assert_eq!(
        module_file_candidates(None, &parent, &child),
        Ok(ModuleFile::Searched(
            segments(&["crate", "src", "util.rs"]),
            segments(&["crate", "src", "util", "mod.rs"])
        ))
    );
    assert_eq!(
        resolve_module_path(None, parent.clone(), &child, true),
        Ok(segments(&["crate", "src", "util.rs"]))
    );
    assert_eq!(
        resolve_module_path(None, parent, &child, false),
        Ok(segments(&["crate", "src", "util", "mod.rs"]))
    );
}

#[test]
fn module_files_below_a_module() {
    let parent = segments(&["crate", "src", "util.rs"]);
    let name = "util".to_string();
    let child = external("unix", vec![]);
    assert_eq!(
        resolve_module_path(Some(&name), parent.clone(), &child, true),
        Ok(segments(&["crate", "src", "util", "unix.rs"]))
    );
    assert_eq!(
        resolve_module_path(Some(&name), parent, &child, false),
        Ok(segments(&["crate", "src", "util", "unix", "mod.rs"]))
    );
    assert_eq!(
        resolve_module_path(None, vec![], &child, true),
        Ok(segments(&["unix.rs"]))
    );
}

#[test]
fn module_files_with_an_override() {
    let parent = segments(&["crate", "src", "lib.rs"]);
    let path = attr(
        &["path"],
        "= \"../../target/riko/sample.rs\"",
        Meta::NameValue(Lit::Str("../../target/riko/sample.rs".into())),
        None,
    );
    let child = external("bridge", vec![path]);
    for sibling in [true, false] {
        assert_eq!(
            resolve_module_path(None, parent.clone(), &child, sibling),
            Ok(segments(&["crate", "src", "../../target/riko/sample.rs"]))
        );
    }
    let list = external("bridge", vec![attr(&["path"], "(a)", Meta::List, None)]);
    assert_eq!(
        resolve_module_path(None, parent.clone(), &list, true).unwrap_err().message,
        "Expect a name-value pair"
    );
    let number = external("bridge", vec![attr(&["path"], "= 1", Meta::NameValue(Lit::Other), None)]);
    assert_eq!(
        resolve_module_path(None, parent, &number, true).unwrap_err().message,
        "Expect a file path literal"
    );
}

#[test]
fn errors_name_file_line_and_column() {
    let located = Error {
        file: segments(&["src", "lib.rs"]),
        source: ErrorSource::Parse(SyntaxError {
            message: "expected `;`".into(),
            position: Some((12, 0)),
        }),
    };
    assert_eq!(located.to_string(), "src/lib.rs:12:0");
    let marker = Error {
        file: segments(&["src", "util", "mod.rs"]),
        source: ErrorSource::Riko(SyntaxError { message: "x".into(), position: Some((3, 40)) }),
    };
    assert_eq!(marker.to_string(), "src/util/mod.rs:3:40");
    let unknown = Error {
        file: segments(&["src", "lib.rs"]),
        source: ErrorSource::Riko(SyntaxError { message: "x".into(), position: None }),
    };
    assert_eq!(unknown.to_string(), "src/lib.rs");
    let read = Error {
        file: segments(&["src", "lib.rs"]),
        source: ErrorSource::ReadExternalModule(Box::new(Error {
            file: segments(&["src", "gone.rs"]),
            source: ErrorSource::ReadSource("not found".into()),
        })),
    };
    assert_eq!(read.to_string(), "src/lib.rs");
}

#[test]
fn a_run_from_source_to_bindings() {
    let mut add = marked("_i32");
    add.inputs = vec![
        FnArg::Typed(vec![], Type::Path(Path::ident("i32"))),
        FnArg::Typed(vec![], Type::Path(Path::ident("i32"))),
    ];
    add.output = ReturnType::Type(Type::Path(Path::ident("i32")));
    let inner = ItemMod {
        attrs: vec![],
        ident: "b".into(),
        content: ModContent::Inline(vec![Item::Fn(marked("f"))]),
    };
    let outer = ItemMod {
        attrs: vec![],
        ident: "a".into(),
        content: ModContent::Inline(vec![Item::Mod(inner)]),
    };
    let file = SourceFile { attrs: vec![], items: vec![Item::Fn(add), Item::Mod(outer)] };
    let src = segments(&["src", "lib.rs"]);
    let root = Crate::parse(&file, &src, "sample".into()).unwrap();
    assert!(root.is_closed());
    let paths: Vec<Vec<String>> = root.modules.iter().map(|m| m.path.clone()).collect();
    assert_eq!(paths, vec![segments(&["a", "b"]), segments(&["a"]), vec![]]);

    let output = segments(&["target", "riko"]);
    let bindings =
        riko::target::run(&file, &src, "sample".into(), &output, &["jni".to_string()]).unwrap();
    assert_eq!(bindings, riko::target::bindgen(&root, &output, &["jni".to_string()]));
    assert_eq!(bindings.bridge.len(), 2);
    assert!(bindings.bridge[0].contains("fn Java_sample_a_b_Module__1_1riko_1f("));
    assert!(bindings.bridge[1].contains("fn Java_sample_Module__1_1riko_1_1i32("));
    assert!(bindings.bridge[1].contains("Returned<i32>"));
    assert_eq!(
        bindings.files[0].0,
        segments(&["target", "riko", "jni", "sample", "a", "b", "Module.java"])
    );
    assert!(bindings.files[0].1.contains("package sample.a.b;"));

    let mut broken = marked("broken");
    broken.inputs.push(FnArg::Receiver);
    let bad = SourceFile { attrs: vec![], items: vec![Item::Fn(broken)] };
    let error = riko::target::run(&bad, &src, "sample".into(), &output, &[]).unwrap_err();
    assert_eq!(error.file, src);
    assert_eq!(
        error.source,
        ErrorSource::Riko(SyntaxError {
            message: "`#[fun]` on a method not implemented".into(),
            position: None
        })
    );
}

#[test]
fn paths_and_literals() {
    assert_eq!(util::assert_type_is_path(&Type::Path(vec_u8())), Ok(vec_u8()));
    assert_eq!(util::assert_type_is_path(&Type::Tuple(0)), Ok(Path::unit()));
    let refused = SyntaxError { message: "Expect a type path or a unit".into(), position: None };
    assert_eq!(util::assert_type_is_path(&Type::Tuple(1)), Err(refused));
    assert_eq!(
        util::assert_type_is_path(&Type::Reference(Box::new(Type::Path(vec_u8()))))
            .unwrap_err()
            .message,
        "Expect a type path or a unit"
    );
    let text = Lit::Str("x".into());
    assert_eq!(util::assert_lit_is_litstr(&text), Ok(&"x".to_string()));
    assert_eq!(
        util::assert_lit_is_litstr(&Lit::Other).unwrap_err().message,
        "Expect a string literal"
    );
    assert!(util::is_wrapper("Arc") && util::is_wrapper("Future") && !util::is_wrapper("Vec"));
    let invalid = external(
        "bridge",
        vec![attr(&["path"], "= =", Meta::Invalid("expected literal".into()), None)],
    );
    assert_eq!(
        resolve_module_path(None, segments(&["lib.rs"]), &invalid, true).unwrap_err().message,
        "expected literal"
    );
    assert_eq!(vec_u8().duplicate(), vec_u8());
    assert_eq!(MarshalingRule::Struct("a".into()).duplicate(), MarshalingRule::Struct("a".into()));
    assert!(riko::rule::is_blank(" \t\n") && !riko::rule::is_blank(" a "));
}
