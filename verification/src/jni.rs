//! Java support through the native-method interface.
//!
//! For every module one class `Module` is written, with one static method
//! per exported function; each method calls a native method, which the
//! bridge function of the same function implements.

use vstd::prelude::*;
use crate::ir::{Crate, CrateView, Function, FunctionView, InputView, Module, ModuleView, Output, OutputView};
use crate::mangle::{mangle_function_name, spec_mangle};
use crate::rule::{MarshalingRule, RuleView};
use crate::syntax::{AttrStyle, Attribute, AttributeView};
use crate::text::{concat3, decimal, join, spec_decimal, spec_join, views};
use crate::tree::{borrowed_views, spec_closed, spec_has_ancestors, spec_inherited_cfg};

verus! {

/// Writes the Java classes and the bridge functions behind them.
pub struct JniWriter;

/// The annotation of a type that admits `null`.
pub open spec fn nullable_attribute() -> Seq<char> {
    "org.checkerframework.checker.nullness.qual.Nullable"@
}

/// The annotation of a type that excludes `null`.
pub open spec fn nonnull_attribute() -> Seq<char> {
    "org.checkerframework.checker.nullness.qual.NonNull"@
}

/// The Java type that a value under `rule` has in a public signature.
pub open spec fn spec_target_type(rule: RuleView, nullable: bool, future: bool) -> Seq<char> {
    let nullability = if nullable {
        nullable_attribute()
    } else {
        nonnull_attribute()
    };
    if future {
        "riko. @ "@ + nonnull_attribute() + " Future"@
    } else {
        match rule {
            RuleView::Unit => "void"@,
            RuleView::Object => "riko. @ "@ + nullability + " Object"@,
            RuleView::Iterator(_) => "riko. @ "@ + nullability + " Iterator"@,
            _ => "org.bson. @ "@ + nullability + " BsonValue"@,
        }
    }
}

/// The Java type that a value under `rule` has in a public signature.
pub fn target_type_public(rule: &MarshalingRule, nullable: bool, future: bool) -> (r: String)
    ensures
        r@ == spec_target_type(rule@, nullable, future),
{
    let nullability = if nullable {
        "org.checkerframework.checker.nullness.qual.Nullable"
    } else {
        "org.checkerframework.checker.nullness.qual.NonNull"
    };
    if future {
        concat3("riko. @ ", "org.checkerframework.checker.nullness.qual.NonNull", " Future")
    } else {
        match rule {
            MarshalingRule::Unit => String::from_str("void"),
            MarshalingRule::Object => concat3("riko. @ ", nullability, " Object"),
            MarshalingRule::Iterator(_) => concat3("riko. @ ", nullability, " Iterator"),
            _ => concat3("org.bson. @ ", nullability, " BsonValue"),
        }
    }
}

/// The full name of a function seen from the crate root, as token text.
pub open spec fn spec_full_function_name(name: Seq<char>, module: Seq<Seq<char>>) -> Seq<char> {
    spec_join(seq!["crate"@] + module + seq![name], " :: "@)
}

/// The full name of a function seen from the crate root, as token text.
pub fn full_function_name(name: &str, module: &[String]) -> (r: String)
    ensures
        r@ == spec_full_function_name(name@, views(module@)),
{
    let ghost whole = seq!["crate"@] + views(module@) + seq![name@];
    let mut parts: Vec<String> = Vec::new();
    parts.push(String::from_str("crate"));
    let mut i: usize = 0;
    while i < module.len()
        invariant
            i <= module.len(),
            whole == seq!["crate"@] + views(module@) + seq![name@],
            views(parts@) == whole.take(i as int + 1),
        decreases module.len() - i,
    {
        proof {
            assert(whole[i as int + 1] == module@[i as int]@);
            assert(views(parts@.push(module@[i as int])) =~= views(parts@).push(
                module@[i as int]@,
            ));
            assert(views(parts@).push(module@[i as int]@) =~= whole.take(i as int + 2));
        }
        parts.push(module[i].clone());
        i += 1;
    }
    let last = String::from_str(name);
    proof {
        assert(views(parts@.push(last)) =~= views(parts@).push(last@));
        assert(views(parts@).push(last@) =~= whole);
    }
    parts.push(last);
    join(parts.as_slice(), " :: ")
}

/// The `k`-th argument handed to the native method.
pub open spec fn spec_encoded_arg(k: int) -> Seq<char> {
    "riko.Marshaler.encode(arg_"@ + spec_decimal(k as nat) + ")"@
}

/// The `k`-th parameter of the native method.
pub open spec fn spec_bridge_param(k: int) -> Seq<char> {
    "byte[] arg_"@ + spec_decimal(k as nat)
}

/// The `k`-th parameter of the public method.
pub open spec fn spec_public_param(inputs: Seq<InputView>, k: int) -> Seq<char> {
    "final "@ + spec_target_type(inputs[k].rule, true, false) + " arg_"@ + spec_decimal(k as nat)
}

/// The statement that hands the result back to the caller.
pub open spec fn spec_return_block(output: OutputView) -> Seq<char> {
    if output.future {
        "return new riko.Future(result.asInt32().intValue());"@
    } else {
        match output.rule {
            RuleView::Unit => ""@,
            RuleView::Object => "return new riko.Object(result.asInt32().intValue());"@,
            RuleView::Iterator(_) => "return new riko.Iterator(result.asInt32().intValue());"@,
            _ => "return result;"@,
        }
    }
}

/// The statement that prepares the runtime before an asynchronous call.
pub open spec fn spec_initialize_block(output: OutputView) -> Seq<char> {
    if output.future {
        "riko.Initializer.initialize();"@
    } else {
        ""@
    }
}

/// The Java method of a function, with the native method it calls.
pub open spec fn spec_target_function(function: FunctionView) -> Seq<char> {
    let n = function.inputs.len();
    let args = spec_join(Seq::new(n, |k: int| spec_encoded_arg(k)), ", "@);
    let params_bridge = spec_join(Seq::new(n, |k: int| spec_bridge_param(k)), ", "@);
    let params_public = spec_join(
        Seq::new(n, |k: int| spec_public_param(function.inputs, k)),
        ", "@,
    );
    "\n              private static native byte[] __riko_"@ + function.pubname + "( "@
        + params_bridge + " );\n              public static "@ + spec_target_type(
        function.output.rule,
        false,
        function.output.future,
    ) + " "@ + function.pubname + "( "@ + params_public + " ) {\n                "@
        + spec_initialize_block(function.output)
        + "\n                final byte[] returned = __riko_"@ + function.pubname + "( "@ + args
        + " );\n                final org.bson.BsonValue result = riko\n                    .Marshaler\n                    .decode(returned)\n                    .unwrap();\n                "@
        + spec_return_block(function.output) + "\n              }\n            "@
}

/// The package of the class of a module.
pub open spec fn spec_package(module: ModuleView, root: CrateView) -> Seq<char> {
    spec_join(seq![root.name] + module.path, "."@)
}

/// The Java class of a module.
pub open spec fn spec_target_module(module: ModuleView, root: CrateView) -> Seq<char> {
    let body = spec_join(
        Seq::new(module.functions.len(), |k: int| spec_target_function(module.functions[k])),
        "\n"@,
    );
    "\n                package "@ + spec_package(module, root)
        + ";\n\n                public final class Module {\n\n                    private Module() {}\n\n                    "@
        + body + "\n                }\n            "@
}

/// The file of the Java class of a module, by the segments of its path.
pub open spec fn spec_target_file(module: ModuleView, root: CrateView) -> Seq<Seq<char>> {
    seq![root.name] + module.path + seq!["Module.java"@]
}

/// The type that the bridge function wraps into the envelope.
pub open spec fn spec_marshaled_type(output: OutputView) -> Seq<char> {
    if output.future {
        "::riko_runtime::Handle"@
    } else {
        spec_returned_type(output)
    }
}

/// The type of the value that the function itself delivers in the end.
pub open spec fn spec_returned_type(output: OutputView) -> Seq<char> {
    match output.rule {
        RuleView::Object => "::riko_runtime::Handle"@,
        RuleView::Iterator(_) => "::riko_runtime::Handle"@,
        RuleView::Bool => "bool"@,
        RuleView::Bytes => "::serde_bytes::ByteBuf"@,
        RuleView::I8 => "i8"@,
        RuleView::I32 => "i32"@,
        RuleView::I64 => "i64"@,
        RuleView::Struct(_) => if output.unwrapped_type.leading_colon {
            ":: "@ + output.unwrapped_type.tokens
        } else {
            output.unwrapped_type.tokens
        },
        RuleView::String => "::std::string::String"@,
        RuleView::Unit => "()"@,
    }
}

impl Output {
    /// The type of the value that the function itself delivers in the end.
    pub fn returned_type(&self) -> (r: String)
        ensures
            r@ == spec_returned_type(self@),
    {
        match &self.rule {
            MarshalingRule::Object => String::from_str("::riko_runtime::Handle"),
            MarshalingRule::Iterator(_) => String::from_str("::riko_runtime::Handle"),
            MarshalingRule::Bool => String::from_str("bool"),
            MarshalingRule::Bytes => String::from_str("::serde_bytes::ByteBuf"),
            MarshalingRule::I8 => String::from_str("i8"),
            MarshalingRule::I32 => String::from_str("i32"),
            MarshalingRule::I64 => String::from_str("i64"),
            MarshalingRule::Struct(_) => {
                if self.unwrapped_type.leading_colon {
                    let mut out = String::from_str(":: ");
                    out.append(self.unwrapped_type.tokens.as_str());
                    out
                } else {
                    self.unwrapped_type.tokens.clone()
                }
            },
            MarshalingRule::String => String::from_str("::std::string::String"),
            MarshalingRule::Unit => String::from_str("()"),
        }
    }

    /// The type to use in the bridge code inside the envelope.
    pub fn marshaled_type(&self) -> (r: String)
        ensures
            r@ == spec_marshaled_type(self@),
    {
        if self.future {
            String::from_str("::riko_runtime::Handle")
        } else {
            self.returned_type()
        }
    }
}

/// An attribute as token text.
pub open spec fn spec_attribute_text(a: AttributeView) -> Seq<char> {
    let open = if a.style == AttrStyle::Inner {
        "# ! ["@
    } else {
        "# ["@
    };
    if a.tokens.len() == 0 {
        open + spec_join(a.path, " :: "@) + "]"@
    } else {
        open + spec_join(a.path, " :: "@) + " "@ + a.tokens + "]"@
    }
}

impl Attribute {
    /// The attribute as token text.
    pub fn to_text(&self) -> (r: String)
        ensures
            r@ == spec_attribute_text(self@),
    {
        let mut out = match self.style {
            AttrStyle::Inner => String::from_str("# ! ["),
            AttrStyle::Outer => String::from_str("# ["),
        };
        proof {
            assert(views(self.path@) == self@.path);
        }
        out.append(join(self.path.as_slice(), " :: ").as_str());
        if self.tokens.as_str().unicode_len() != 0 {
            out.append(" ");
            out.append(self.tokens.as_str());
        }
        out.append("]");
        out
    }
}

/// The word that declares the calling convention of a bridge function.
pub open spec fn spec_abi_word() -> Seq<char> {
    seq!['e', 'x', 't', 'e', 'r', 'n']
}

pub(crate) fn abi_word() -> (r: String)
    ensures
        r@ == spec_abi_word(),
{
    let mut out = String::new();
    out.push('e');
    out.push('x');
    out.push('t');
    out.push('e');
    out.push('r');
    out.push('n');
    assert(out@ =~= spec_abi_word());
    out
}

/// The `k`-th parameter of the bridge function.
pub open spec fn spec_native_param(k: int) -> Seq<char> {
    "arg_"@ + spec_decimal(k as nat) + "_jni : ::jni::sys::jbyteArray"@
}

/// The `k`-th argument handed to the exported function.
pub open spec fn spec_native_arg(inputs: Seq<InputView>, k: int) -> Seq<char> {
    if inputs[k].borrow {
        "&(::riko_runtime_jni::unmarshal(&_env, arg_"@ + spec_decimal(k as nat) + "_jni))"@
    } else {
        "::riko_runtime_jni::unmarshal(&_env, arg_"@ + spec_decimal(k as nat) + "_jni)"@
    }
}

/// The statement that puts the result into the handle pool or hands it to
/// the task bridge, where the output asks for either.
pub open spec fn spec_shelve(output: OutputView) -> Seq<char> {
    if output.rule is Object || output.rule is Iterator {
        "let result = ::riko_runtime::object::Shelve::shelve(result);\n    "@
    } else if output.future {
        "let result = ::riko_runtime_jni::future::spawn::<_, _, "@ + spec_returned_type(output)
            + ">(result);\n    "@
    } else {
        ""@
    }
}

/// The guards of a bridge function, one per line.
pub open spec fn spec_guard_lines(cfg: Seq<AttributeView>) -> Seq<char>
    decreases cfg.len(),
{
    if cfg.len() == 0 {
        ""@
    } else {
        spec_guard_lines(cfg.drop_last()) + spec_attribute_text(cfg.last()) + "\n"@
    }
}

/// The source of the bridge function of `function`, which stands in
/// `module` of `root` and is compiled under the guards `cfg`.
pub open spec fn spec_bridge_function(
    function: FunctionView,
    module: ModuleView,
    root: CrateView,
    cfg: Seq<AttributeView>,
) -> Seq<char> {
    let n = function.inputs.len();
    let fixed = seq!["_env : ::jni::JNIEnv"@, "_class : ::jni::objects::JClass"@];
    let params = spec_join(fixed + Seq::new(n, |k: int| spec_native_param(k)), ", "@);
    let args = spec_join(Seq::new(n, |k: int| spec_native_arg(function.inputs, k)), ", "@);
    spec_guard_lines(cfg)
        + "#[no_mangle]\n#[allow(clippy::useless_conversion)]\n#[allow(clippy::let_unit_value)]\n#[allow(clippy::unit_arg)]\npub "@
        + spec_abi_word() + " \"C\" fn "@ + spec_mangle(function.pubname, module.path, root.name)
        + "("@ + params + ") -> ::jni::sys::jbyteArray {\n    let result = "@
        + spec_full_function_name(function.name, module.path) + "("@ + args + ");\n    "@
        + spec_shelve(function.output) + "let result: ::riko_runtime::returned::Returned<"@
        + spec_marshaled_type(function.output)
        + "> = result.into();\n    ::riko_runtime_jni::marshal(&result, &_env)\n}\n"@
}

fn return_block(output: &Output) -> (r: &'static str)
    ensures
        r@ == spec_return_block(output@),
{
    if output.future {
        "return new riko.Future(result.asInt32().intValue());"
    } else {
        match &output.rule {
            MarshalingRule::Unit => "",
            MarshalingRule::Object => "return new riko.Object(result.asInt32().intValue());",
            MarshalingRule::Iterator(_) => "return new riko.Iterator(result.asInt32().intValue());",
            _ => "return result;",
        }
    }
}

fn shelve(output: &Output) -> (r: String)
    ensures
        r@ == spec_shelve(output@),
{
    let pooled = match &output.rule {
        MarshalingRule::Object => true,
        MarshalingRule::Iterator(_) => true,
        _ => false,
    };
    if pooled {
        String::from_str("let result = ::riko_runtime::object::Shelve::shelve(result);\n    ")
    } else if output.future {
        concat3(
            "let result = ::riko_runtime_jni::future::spawn::<_, _, ",
            output.returned_type().as_str(),
            ">(result);\n    ",
        )
    } else {
        String::from_str("")
    }
}

impl JniWriter {
    /// Generates target code for a function.
    pub fn write_target_function(&self, function: &Function, _module: &Module, _root: &Crate) -> (r:
        String)
        ensures
            r@ == spec_target_function(function@),
    {
        let n = function.inputs.len();
        let ghost inputs = function@.inputs;
        let mut args: Vec<String> = Vec::new();
        let mut params_public: Vec<String> = Vec::new();
        let mut params_bridge: Vec<String> = Vec::new();
        let mut idx: usize = 0;
        while idx < n
            invariant
                idx <= n,
                n == function.inputs@.len(),
                inputs == function@.inputs,
                views(args@) =~= Seq::new(idx as nat, |k: int| spec_encoded_arg(k)),
                views(params_bridge@) =~= Seq::new(idx as nat, |k: int| spec_bridge_param(k)),
                views(params_public@) =~= Seq::new(
                    idx as nat,
                    |k: int| spec_public_param(inputs, k),
                ),
            decreases n - idx,
        {
            let number = decimal(idx);
            let arg = concat3("riko.Marshaler.encode(arg_", number.as_str(), ")");
            let mut bridge = String::from_str("byte[] arg_");
            bridge.append(number.as_str());
            let mut public = concat3(
                "final ",
                target_type_public(&function.inputs[idx].rule, true, false).as_str(),
                " arg_",
            );
            public.append(number.as_str());
            proof {
                assert(inputs[idx as int] == function.inputs@[idx as int]@);
                assert(views(args@.push(arg)) =~= views(args@).push(arg@));
                assert(views(params_bridge@.push(bridge)) =~= views(params_bridge@).push(bridge@));
                assert(views(params_public@.push(public)) =~= views(params_public@).push(public@));
            }
            args.push(arg);
            params_bridge.push(bridge);
            params_public.push(public);
            idx += 1;
        }
        let name = function.pubname.as_str();
        let mut out = String::from_str("\n              private static native byte[] __riko_");
        out.append(name);
        out.append("( ");
        out.append(join(params_bridge.as_slice(), ", ").as_str());
        out.append(" );\n              public static ");
        out.append(
            target_type_public(&function.output.rule, false, function.output.future).as_str(),
        );
        out.append(" ");
        out.append(name);
        out.append("( ");
        out.append(join(params_public.as_slice(), ", ").as_str());
        out.append(" ) {\n                ");
        out.append(
            if function.output.future {
                "riko.Initializer.initialize();"
            } else {
                ""
            },
        );
        out.append("\n                final byte[] returned = __riko_");
        out.append(name);
        out.append("( ");
        out.append(join(args.as_slice(), ", ").as_str());
        out.append(
            " );\n                final org.bson.BsonValue result = riko\n                    .Marshaler\n                    .decode(returned)\n                    .unwrap();\n                ",
        );
        out.append(return_block(&function.output));
        out.append("\n              }\n            ");
        out
    }

    /// Generates target code for a module.
    pub fn write_target_module(&self, module: &Module, root: &Crate) -> (r: String)
        ensures
            r@ == spec_target_module(module@, root@),
    {
        let ghost functions = module@.functions;
        let mut bodies: Vec<String> = Vec::new();
        let mut i: usize = 0;
        while i < module.functions.len()
            invariant
                i <= module.functions.len(),
                functions == module@.functions,
                views(bodies@) =~= Seq::new(i as nat, |k: int| spec_target_function(functions[k])),
            decreases module.functions.len() - i,
        {
            let body = self.write_target_function(&module.functions[i], module, root);
            proof {
                assert(functions[i as int] == module.functions@[i as int]@);
                assert(views(bodies@.push(body)) =~= views(bodies@).push(body@));
            }
            bodies.push(body);
            i += 1;
        }
        let package = package_segments(module, root);
        let mut out = String::from_str("\n                package ");
        out.append(join(package.as_slice(), ".").as_str());
        out.append(
            ";\n\n                public final class Module {\n\n                    private Module() {}\n\n                    ",
        );
        out.append(join(bodies.as_slice(), "\n").as_str());
        out.append("\n                }\n            ");
        out
    }

    /// Generates target code for the entire crate: for each module, in
    /// their order, the file of its class and the source of that class.
    pub fn write_target_all(&self, root: &Crate) -> (r: Vec<(Vec<String>, String)>)
        ensures
            r@.len() == root@.modules.len(),
            forall|i: int|
                0 <= i < r@.len() ==> views((#[trigger] r@[i]).0@) == spec_target_file(
                    root@.modules[i],
                    root@,
                ) && r@[i].1@ == spec_target_module(root@.modules[i], root@),
    {
        let mut out: Vec<(Vec<String>, String)> = Vec::new();
        let mut i: usize = 0;
        while i < root.modules.len()
            invariant
                i <= root.modules.len(),
                out@.len() == i,
                forall|j: int|
                    0 <= j < out@.len() ==> views((#[trigger] out@[j]).0@) == spec_target_file(
                        root@.modules[j],
                        root@,
                    ) && out@[j].1@ == spec_target_module(root@.modules[j], root@),
            decreases root.modules.len() - i,
        {
            let module = &root.modules[i];
            let mut file_path = package_segments(module, root);
            let file_name = String::from_str("Module.java");
            proof {
                assert(root@.modules[i as int] == module@);
                assert(views(file_path@.push(file_name)) =~= spec_target_file(module@, root@));
            }
            file_path.push(file_name);
            let target_code = self.write_target_module(module, root);
            out.push((file_path, target_code));
            i += 1;
        }
        out
    }

    /// Generates the source of the bridge function of a function.
    pub fn write_bridge_function(&self, function: &Function, module: &Module, root: &Crate) -> (r:
        String)
        requires
            spec_has_ancestors(root@, module@.path),
        ensures
            r@ == spec_bridge_function(
                function@,
                module@,
                root@,
                spec_inherited_cfg(root@, module@.path, module@.path.len()) + function@.cfg,
            ),
    {
        let n = function.inputs.len();
        let ghost inputs = function@.inputs;
        let ghost fixed = seq!["_env : ::jni::JNIEnv"@, "_class : ::jni::objects::JClass"@];
        let mut result_params: Vec<String> = Vec::new();
        result_params.push(String::from_str("_env : ::jni::JNIEnv"));
        result_params.push(String::from_str("_class : ::jni::objects::JClass"));
        let mut result_args: Vec<String> = Vec::new();
        let mut index: usize = 0;
        proof {
            assert(views(result_params@) =~= fixed + Seq::new(0, |k: int| spec_native_param(k)));
        }
        while index < n
            invariant
                index <= n,
                n == function.inputs@.len(),
                inputs == function@.inputs,
                fixed == seq!["_env : ::jni::JNIEnv"@, "_class : ::jni::objects::JClass"@],
                views(result_params@) =~= fixed + Seq::new(
                    index as nat,
                    |k: int| spec_native_param(k),
                ),
                views(result_args@) =~= Seq::new(index as nat, |k: int| spec_native_arg(inputs, k)),
            decreases n - index,
        {
            let number = decimal(index);
            let param = concat3("arg_", number.as_str(), "_jni : ::jni::sys::jbyteArray");
            let arg = if function.inputs[index].borrow {
                concat3("&(::riko_runtime_jni::unmarshal(&_env, arg_", number.as_str(), "_jni))")
            } else {
                concat3("::riko_runtime_jni::unmarshal(&_env, arg_", number.as_str(), "_jni)")
            };
            proof {
                assert(inputs[index as int] == function.inputs@[index as int]@);
                assert(views(result_params@.push(param)) =~= views(result_params@).push(param@));
                assert(views(result_args@.push(arg)) =~= views(result_args@).push(arg@));
            }
            result_params.push(param);
            result_args.push(arg);
            index += 1;
        }
        let cfg = function.collect_cfg(module, root);
        let ghost guards = borrowed_views(cfg@);
        let mut out = String::from_str("");
        let mut j: usize = 0;
        while j < cfg.len()
            invariant
                j <= cfg.len(),
                guards == borrowed_views(cfg@),
                out@ == spec_guard_lines(guards.take(j as int)),
            decreases cfg.len() - j,
        {
            proof {
                assert(guards.take(j as int + 1).drop_last() =~= guards.take(j as int));
            }
            out.append(cfg[j].to_text().as_str());
            out.append("\n");
            j += 1;
        }
        proof {
            assert(guards.take(cfg.len() as int) =~= guards);
            assert(views(module.path@) == module@.path);
        }
        out.append(
            "#[no_mangle]\n#[allow(clippy::useless_conversion)]\n#[allow(clippy::let_unit_value)]\n#[allow(clippy::unit_arg)]\npub ",
        );
        out.append(abi_word().as_str());
        out.append(" \"C\" fn ");
        out.append(
            mangle_function_name(
                function.pubname.as_str(),
                module.path.as_slice(),
                root.name.as_str(),
            ).as_str(),
        );
        out.append("(");
        out.append(join(result_params.as_slice(), ", ").as_str());
        out.append(") -> ::jni::sys::jbyteArray {\n    let result = ");
        out.append(full_function_name(function.name.as_str(), module.path.as_slice()).as_str());
        out.append("(");
        out.append(join(result_args.as_slice(), ", ").as_str());
        out.append(");\n    ");
        out.append(shelve(&function.output).as_str());
        out.append("let result: ::riko_runtime::returned::Returned<");
        out.append(function.output.marshaled_type().as_str());
        out.append("> = result.into();\n    ::riko_runtime_jni::marshal(&result, &_env)\n}\n");
        out
    }

    /// Generates all bridge code: the bridge functions of all functions, in
    /// the order of the modules and, within each, of its functions.
    pub fn write_bridge_all(&self, root: &Crate) -> (r: Vec<String>)
        requires
            spec_closed(root@),
        ensures
            views(r@) == spec_bridge_all(root@, root@.modules.len()),
    {
        let mut out: Vec<String> = Vec::new();
        let mut i: usize = 0;
        proof {
            assert(views(out@) =~= spec_bridge_all(root@, 0));
        }
        while i < root.modules.len()
            invariant
                i <= root.modules.len(),
                forall|k: int|
                    0 <= k < root@.modules.len() ==> spec_has_ancestors(
                        root@,
                        (#[trigger] root@.modules[k]).path,
                    ),
                views(out@) == spec_bridge_all(root@, i as nat),
            decreases root.modules.len() - i,
        {
            let module = &root.modules[i];
            let ghost before = views(out@);
            proof {
                assert(root@.modules[i as int] == module@);
            }
            let mut j: usize = 0;
            while j < module.functions.len()
                invariant
                    j <= module.functions.len(),
                    spec_has_ancestors(root@, module@.path),
                    views(out@) =~= before + spec_bridge_module(module@, root@).take(j as int),
                decreases module.functions.len() - j,
            {
                let text = self.write_bridge_function(&module.functions[j], module, root);
                proof {
                    assert(module@.functions[j as int] == module.functions@[j as int]@);
                    assert(views(out@.push(text)) =~= views(out@).push(text@));
                }
                out.push(text);
                j += 1;
            }
            proof {
                assert(spec_bridge_module(module@, root@).take(module.functions.len() as int)
                    =~= spec_bridge_module(module@, root@));
            }
            i += 1;
        }
        out
    }
}

/// The bridge functions of the functions of one module, in their order.
pub open spec fn spec_bridge_module(module: ModuleView, root: CrateView) -> Seq<Seq<char>> {
    Seq::new(
        module.functions.len(),
        |j: int|
            spec_bridge_function(
                module.functions[j],
                module,
                root,
                spec_inherited_cfg(root, module.path, module.path.len())
                    + module.functions[j].cfg,
            ),
    )
}

/// The bridge functions of the first `n` modules, in their order.
pub open spec fn spec_bridge_all(root: CrateView, n: nat) -> Seq<Seq<char>>
    decreases n,
{
    if n == 0 || n > root.modules.len() {
        Seq::empty()
    } else {
        spec_bridge_all(root, (n - 1) as nat) + spec_bridge_module(root.modules[n - 1], root)
    }
}

fn package_segments(module: &Module, root: &Crate) -> (r: Vec<String>)
    ensures
        views(r@) == seq![root@.name] + module@.path,
{
    let mut out: Vec<String> = Vec::new();
    out.push(root.name.clone());
    let ghost whole = seq![root@.name] + module@.path;
    let mut i: usize = 0;
    while i < module.path.len()
        invariant
            i <= module.path.len(),
            whole == seq![root@.name] + module@.path,
            views(out@) == whole.take(i as int + 1),
        decreases module.path.len() - i,
    {
        proof {
            assert(whole[i as int + 1] == module.path@[i as int]@);
            assert(views(out@.push(module.path@[i as int])) =~= views(out@).push(
                module.path@[i as int]@,
            ));
            assert(views(out@).push(module.path@[i as int]@) =~= whole.take(i as int + 2));
        }
        out.push(module.path[i].clone());
        i += 1;
    }
    proof {
        assert(whole.take(module.path.len() as int + 1) =~= whole);
    }
    out
}

} // verus!
