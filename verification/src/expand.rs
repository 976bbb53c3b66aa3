//! Bridge code for a single marked item, written where the item stands.
//!
//! Here the class of a module is `__Riko_Module`, and the module of a
//! function is given beside its name.

use vstd::prelude::*;
use crate::mangle::{prefix_for_native, spec_encode, symbol_prefix};
use crate::parse::{Fun, FunView};
use crate::rule::{MarshalingRule, RuleView};
use crate::syntax::{FnArg, ItemFn, ReturnType, Type};
use crate::text::{concat3, decimal, escape_underscores, join, spec_decimal, spec_escape, spec_join, views};

verus! {

/// Writes the bridge code of single items.
pub struct JniExpander;

/// `__Riko_Module`, the class that holds the functions of one module.
pub open spec fn expander_class() -> Seq<char> {
    seq!['_', '_', 'R', 'i', 'k', 'o', '_', 'M', 'o', 'd', 'u', 'l', 'e']
}

/// The native symbol of function `name` in the package `module`.
pub open spec fn spec_mangle_function(name: Seq<char>, module: Seq<Seq<char>>) -> Seq<char> {
    symbol_prefix() + spec_encode(module + seq![expander_class(), prefix_for_native() + name])
}

/// Transforms a function's name to the symbol that the target runtime
/// looks for.
pub fn mangle_function(name: &str, module: &[String]) -> (r: String)
    ensures
        r@ == spec_mangle_function(name@, views(module@)),
{
    let ghost parts = views(module@) + seq![expander_class(), prefix_for_native() + name@];
    let ghost escaped = parts.map_values(|p: Seq<char>| spec_escape(p));
    let mut tokens: Vec<String> = Vec::new();
    proof {
        assert(views(tokens@) =~= escaped.take(0));
    }
    let mut i: usize = 0;
    while i < module.len()
        invariant
            i <= module.len(),
            parts == views(module@) + seq![expander_class(), prefix_for_native() + name@],
            escaped == parts.map_values(|p: Seq<char>| spec_escape(p)),
            views(tokens@) == escaped.take(i as int),
        decreases module.len() - i,
    {
        let t = escape_underscores(module[i].as_str());
        proof {
            assert(parts[i as int] == module@[i as int]@);
            assert(views(tokens@.push(t)) =~= views(tokens@).push(t@));
            assert(views(tokens@).push(t@) =~= escaped.take(i as int + 1));
        }
        tokens.push(t);
        i += 1;
    }
    let class = escape_underscores("__Riko_Module");
    let mut native = String::from_str("__riko_");
    native.append(name);
    let method = escape_underscores(native.as_str());
    proof {
        reveal_strlit("__Riko_Module");
        reveal_strlit("__riko_");
        reveal_strlit("Java_");
        reveal_strlit("_");
        let n = module@.len() as int;
        assert("__Riko_Module"@ =~= expander_class());
        assert("__riko_"@ =~= prefix_for_native());
        assert("Java_"@ =~= symbol_prefix());
        assert("_"@ =~= seq!['_']);
        assert(parts[n] == expander_class());
        assert(parts[n + 1] == prefix_for_native() + name@);
        assert(views(tokens@.push(class)) =~= views(tokens@).push(class@));
        assert(views(tokens@.push(class).push(method)) =~= views(tokens@).push(class@).push(
            method@,
        ));
        assert(views(tokens@).push(class@).push(method@) =~= escaped);
    }
    tokens.push(class);
    tokens.push(method);
    let mut out = String::from_str("Java_");
    out.append(join(tokens.as_slice(), "_").as_str());
    out
}

/// The type that the envelope of a bridge function holds for `rule`.
pub open spec fn spec_rust_return_type(rule: RuleView) -> Seq<char> {
    match rule {
        RuleView::Bool => "bool"@,
        RuleView::Bytes => "::std::vec::Vec<u8>"@,
        RuleView::I8 => "i8"@,
        RuleView::I32 => "i32"@,
        RuleView::I64 => "i64"@,
        RuleView::Iterator(_) => "_"@,
        RuleView::Object => "::riko_runtime::heap::Handle"@,
        RuleView::Struct(path) => path,
        RuleView::String => "::std::string::String"@,
        RuleView::Unit => "()"@,
    }
}

impl MarshalingRule {
    /// The type that the envelope of a bridge function holds for this rule.
    pub fn to_rust_return_type(&self) -> (r: String)
        ensures
            r@ == spec_rust_return_type(self@),
    {
        match self {
            MarshalingRule::Bool => String::from_str("bool"),
            MarshalingRule::Bytes => String::from_str("::std::vec::Vec<u8>"),
            MarshalingRule::I8 => String::from_str("i8"),
            MarshalingRule::I32 => String::from_str("i32"),
            MarshalingRule::I64 => String::from_str("i64"),
            MarshalingRule::Iterator(_) => String::from_str("_"),
            MarshalingRule::Object => String::from_str("::riko_runtime::heap::Handle"),
            MarshalingRule::Struct(path) => path.clone(),
            MarshalingRule::String => String::from_str("::std::string::String"),
            MarshalingRule::Unit => String::from_str("()"),
        }
    }
}

/// The `k`-th parameter of the bridge function.
pub open spec fn spec_expanded_param(k: int) -> Seq<char> {
    "arg_"@ + spec_decimal(k as nat) + "_jni : ::jni::sys::jbyteArray"@
}

/// The `k`-th argument handed to the wrapped function.
pub open spec fn spec_expanded_arg(inputs: Seq<FnArg>, k: int) -> Seq<char> {
    match inputs[k] {
        FnArg::Typed(_, ty) => if ty is Reference {
            "&(::riko_runtime::Marshaled::from_jni(&_env, arg_"@ + spec_decimal(k as nat)
                + "_jni))"@
        } else {
            "::riko_runtime::Marshaled::from_jni(&_env, arg_"@ + spec_decimal(k as nat) + "_jni)"@
        },
        FnArg::Receiver => "compile_error!(\"Does not support this kind of parameter.\")"@,
    }
}

/// The body of the bridge function: the call of the wrapped function and,
/// where it returns something, the envelope around the result.
pub open spec fn spec_expanded_block(name: Seq<char>, args: Seq<char>, marshal: Option<RuleView>) -> Seq<
    char,
> {
    match marshal {
        Some(output) => "let result: ::riko_runtime::returned::Returned< "@
            + spec_rust_return_type(output) + " > = "@ + name + "("@ + args + ")"@ + (if output is Iterator {
            ".__riko_into_returned()"@
        } else {
            ".into()"@
        }) + " ;\n    ::riko_runtime::Marshaled::to_jni(&result, &_env)"@,
        None => name + "("@ + args + ")"@,
    }
}

/// The source of the bridge function of `item`, exported under `args.name`
/// in the package `module`.
pub open spec fn spec_expanded_fun(item: ItemFn, args: FunView, module: Seq<Seq<char>>) -> Seq<
    char,
> {
    let n = item.inputs@.len();
    let fixed = seq!["_env : ::jni::JNIEnv"@, "_class : ::jni::objects::JClass"@];
    let params = spec_join(fixed + Seq::new(n, |k: int| spec_expanded_param(k)), ", "@);
    let invoked = spec_join(Seq::new(n, |k: int| spec_expanded_arg(item.inputs@, k)), ", "@);
    "#[no_mangle]\npub "@ + crate::jni::spec_abi_word() + " \"C\" fn "@ + spec_mangle_function(
        args.name,
        module,
    ) + "("@ + params + ") "@ + (if item.output is Default {
        ""@
    } else {
        "-> ::jni::sys::jbyteArray "@
    }) + "{\n    "@ + (if args.marshal matches Some(RuleView::Iterator(_)) {
        "use ::riko_runtime::iterator::IntoReturned;\n    "@
    } else {
        ""@
    }) + spec_expanded_block(item.ident@, invoked, args.marshal) + "\n}\n"@
}

/// The source that makes a type storable in a handle pool of its own.
pub open spec fn spec_heaped(name: Seq<char>) -> Seq<char> {
    "impl ::riko_runtime::heap::Heaped for "@ + name
        + " {\n    fn into_handle(self) -> ::riko_runtime::returned::Returned<::riko_runtime::heap::Handle> {\n        ::riko_runtime::heap::Pool::store(&*__RIKO_POOL_"@
        + name
        + ", self).into()\n    }\n}\n\n#[allow(non_upper_case_globals)]\nstatic __RIKO_POOL_"@
        + name + ": ::once_cell::sync::Lazy<::riko_runtime::heap::SimplePool<"@ + name
        + ">> = ::once_cell::sync::Lazy::new(\n    ::std::default::Default::default\n);\n"@
}

fn expanded_block(name: &str, args: &str, marshal: &Option<MarshalingRule>) -> (r: String)
    ensures
        r@ == spec_expanded_block(
            name@,
            args@,
            match *marshal {
                Some(rule) => Some(rule@),
                None => None,
            },
        ),
{
    match marshal {
        Some(output) => {
            let mut out = String::from_str("let result: ::riko_runtime::returned::Returned< ");
            out.append(output.to_rust_return_type().as_str());
            out.append(" > = ");
            out.append(name);
            out.append("(");
            out.append(args);
            out.append(")");
            out.append(
                match output {
                    MarshalingRule::Iterator(_) => ".__riko_into_returned()",
                    _ => ".into()",
                },
            );
            out.append(" ;\n    ::riko_runtime::Marshaled::to_jni(&result, &_env)");
            out
        },
        None => {
            let mut out = String::from_str(name);
            out.append("(");
            out.append(args);
            out.append(")");
            out
        },
    }
}

impl JniExpander {
    /// Generates the source of the bridge function that wraps a function.
    /// The name in `args` is the one under which the function is exported.
    pub fn fun(&self, item: &ItemFn, args: &Fun, module: &[String]) -> (r: String)
        ensures
            r@ == spec_expanded_fun(*item, args@, views(module@)),
    {
        let n = item.inputs.len();
        let ghost fixed = seq!["_env : ::jni::JNIEnv"@, "_class : ::jni::objects::JClass"@];
        let mut result_params: Vec<String> = Vec::new();
        result_params.push(String::from_str("_env : ::jni::JNIEnv"));
        result_params.push(String::from_str("_class : ::jni::objects::JClass"));
        let mut result_args_invoked: Vec<String> = Vec::new();
        proof {
            assert(views(result_params@) =~= fixed + Seq::new(0, |k: int| spec_expanded_param(k)));
        }
        let mut index: usize = 0;
        while index < n
            invariant
                index <= n,
                n == item.inputs@.len(),
                fixed == seq!["_env : ::jni::JNIEnv"@, "_class : ::jni::objects::JClass"@],
                views(result_params@) =~= fixed + Seq::new(
                    index as nat,
                    |k: int| spec_expanded_param(k),
                ),
                views(result_args_invoked@) =~= Seq::new(
                    index as nat,
                    |k: int| spec_expanded_arg(item.inputs@, k),
                ),
            decreases n - index,
        {
            let number = decimal(index);
            let param = concat3("arg_", number.as_str(), "_jni : ::jni::sys::jbyteArray");
            let arg = match &item.inputs[index] {
                FnArg::Typed(_, ty) => match ty {
                    Type::Reference(_) => concat3(
                        "&(::riko_runtime::Marshaled::from_jni(&_env, arg_",
                        number.as_str(),
                        "_jni))",
                    ),
                    _ => concat3(
                        "::riko_runtime::Marshaled::from_jni(&_env, arg_",
                        number.as_str(),
                        "_jni)",
                    ),
                },
                FnArg::Receiver => String::from_str(
                    "compile_error!(\"Does not support this kind of parameter.\")",
                ),
            };
            proof {
                assert(views(result_params@.push(param)) =~= views(result_params@).push(param@));
                assert(views(result_args_invoked@.push(arg)) =~= views(result_args_invoked@).push(
                    arg@,
                ));
            }
            result_params.push(param);
            result_args_invoked.push(arg);
            index += 1;
        }
        let invoked = join(result_args_invoked.as_slice(), ", ");
        let mut out = String::from_str("#[no_mangle]\npub ");
        out.append(crate::jni::abi_word().as_str());
        out.append(" \"C\" fn ");
        out.append(mangle_function(args.name.as_str(), module).as_str());
        out.append("(");
        out.append(join(result_params.as_slice(), ", ").as_str());
        out.append(") ");
        out.append(
            match &item.output {
                ReturnType::Default => "",
                _ => "-> ::jni::sys::jbyteArray ",
            },
        );
        out.append("{\n    ");
        out.append(
            match &args.marshal {
                Some(MarshalingRule::Iterator(_)) => "use ::riko_runtime::iterator::IntoReturned;\n    ",
                _ => "",
            },
        );
        out.append(expanded_block(item.ident.as_str(), invoked.as_str(), &args.marshal).as_str());
        out.append("\n}\n");
        out
    }

    /// Generates the source that makes the type `name` storable in a handle
    /// pool of its own.
    pub fn heaped(&self, name: &str) -> (r: String)
        ensures
            r@ == spec_heaped(name@),
    {
        let mut out = String::from_str("impl ::riko_runtime::heap::Heaped for ");
        out.append(name);
        out.append(
            " {\n    fn into_handle(self) -> ::riko_runtime::returned::Returned<::riko_runtime::heap::Handle> {\n        ::riko_runtime::heap::Pool::store(&*__RIKO_POOL_",
        );
        out.append(name);
        out.append(
            ", self).into()\n    }\n}\n\n#[allow(non_upper_case_globals)]\nstatic __RIKO_POOL_",
        );
        out.append(name);
        out.append(": ::once_cell::sync::Lazy<::riko_runtime::heap::SimplePool<");
        out.append(name);
        out.append(">> = ::once_cell::sync::Lazy::new(\n    ::std::default::Default::default\n);\n");
        out
    }
}

} // verus!
